use vstd::prelude::*;

use crate::context::{is_cloned_frame, provision_clone, TrapFrame, UspaceContext};
use crate::flags::{SyscallError, WaitStatus};

verus! {

/// Shared handle of a virtual address space, known by its page-table root.
/// Tasks holding equal handles share one address space.
#[derive(Clone, Copy, Debug, PartialEq, Eq, Structural)]
pub struct AddrSpaceRef {
    /// Physical address of the root page table.
    pub page_table_root: usize,
}

/// The process state attached to a task.
pub struct TaskExt {
    /// The process ID.
    pub proc_id: u64,
    /// User address whose word is zeroed when the task exits; zero when unset.
    pub clear_child_tid: u64,
    /// The parent's process ID.
    pub parent_id: u64,
    /// The IDs of the children that this process cloned and has not reaped,
    /// in the order they were created.
    pub children: Vec<u64>,
    /// The user context the task begins with.
    pub uctx: UspaceContext,
    /// The address space the task runs in.
    pub aspace: AddrSpaceRef,
}

impl TaskExt {
    /// A fresh record for process `proc_id`: no children, no address to
    /// clear, and the default parent 1.
    pub fn new(proc_id: u64, uctx: UspaceContext, aspace: AddrSpaceRef) -> (r: TaskExt)
        ensures
            r.proc_id == proc_id,
            r.clear_child_tid == 0,
            r.parent_id == 1,
            r.children@ == Seq::<u64>::empty(),
            r.uctx == uctx,
            r.aspace == aspace,
    {
        TaskExt { proc_id, clear_child_tid: 0, parent_id: 1, children: Vec::new(), uctx, aspace }
    }

    /// The process ID.
    pub fn pid(&self) -> (r: u64)
        ensures
            r == self.proc_id,
    {
        self.proc_id
    }

    /// The address to clear when the task exits.
    pub fn clear_child_tid(&self) -> (r: u64)
        ensures
            r == self.clear_child_tid,
    {
        self.clear_child_tid
    }

    /// Records the address to clear when the task exits.
    pub fn set_clear_child_tid(&mut self, clear_child_tid: u64)
        ensures
            final(self).clear_child_tid == clear_child_tid,
            final(self).proc_id == old(self).proc_id,
            final(self).parent_id == old(self).parent_id,
            final(self).children@ == old(self).children@,
            final(self).uctx == old(self).uctx,
            final(self).aspace == old(self).aspace,
    {
        self.clear_child_tid = clear_child_tid;
    }

    /// The parent's process ID.
    pub fn get_parent(&self) -> (r: u64)
        ensures
            r == self.parent_id,
    {
        self.parent_id
    }

    /// Records the parent's process ID.
    pub fn set_parent(&mut self, parent_id: u64)
        ensures
            final(self).parent_id == parent_id,
            final(self).clear_child_tid == old(self).clear_child_tid,
            final(self).proc_id == old(self).proc_id,
            final(self).children@ == old(self).children@,
            final(self).uctx == old(self).uctx,
            final(self).aspace == old(self).aspace,
    {
        self.parent_id = parent_id;
    }
}

/// A task as the process table knows it: its process record and, once it
/// has exited, its exit code.
pub struct Task {
    /// The process record.
    pub ext: TaskExt,
    /// The exit code, once the task has exited.
    pub exit_code: Option<i32>,
}

/// Every task that has entered user mode, by process ID: the task with ID
/// `p` is entry `p - 1`, and IDs are handed out in increasing order from 1.
pub struct ProcessTable {
    tasks: Vec<Task>,
}

impl View for ProcessTable {
    type V = Seq<Task>;

    closed spec fn view(&self) -> Seq<Task> {
        self.tasks@
    }
}

/// Whether `pid` names a task of `ts`.
pub open spec fn has_task(ts: Seq<Task>, pid: u64) -> bool {
    1 <= pid <= ts.len()
}

/// The task with ID `pid`.
pub open spec fn task_of(ts: Seq<Task>, pid: u64) -> Task {
    ts[pid as int - 1]
}

/// The unreaped children of `pid`.
pub open spec fn children_of(ts: Seq<Task>, pid: u64) -> Seq<u64> {
    task_of(ts, pid).ext.children@
}

/// Whether the task `pid` has exited.
pub open spec fn is_exited(ts: Seq<Task>, pid: u64) -> bool {
    task_of(ts, pid).exit_code is Some
}

/// The exit code of the task `pid`, zero while it runs.
pub open spec fn exit_code_of(ts: Seq<Task>, pid: u64) -> i32 {
    match task_of(ts, pid).exit_code {
        Some(c) => c,
        None => 0,
    }
}

/// Whether `s` holds each value at most once.
pub open spec fn no_duplicates(s: Seq<u64>) -> bool {
    forall|i: int, j: int| 0 <= i < s.len() && 0 <= j < s.len() && s[i] == s[j] ==> i == j
}

/// Whether the table can take no further task: an ID must be returnable as
/// a non-negative `isize`.
pub open spec fn is_full(ts: Seq<Task>) -> bool {
    ts.len() >= isize::MAX
}

/// The table's invariant: each entry carries its own ID, parents and
/// children are tasks of the table, and no process lists a child twice.
pub open spec fn table_wf(ts: Seq<Task>) -> bool {
    &&& ts.len() <= isize::MAX
    &&& forall|i: int| 0 <= i < ts.len() ==> #[trigger] ts[i].ext.proc_id == i + 1
    &&& forall|i: int| 0 <= i < ts.len() ==> has_task(ts, #[trigger] ts[i].ext.parent_id)
    &&& forall|i: int, j: int|
        0 <= i < ts.len() && 0 <= j < ts[i].ext.children@.len() ==> has_task(
            ts,
            #[trigger] ts[i].ext.children@[j],
        )
    &&& forall|i: int| 0 <= i < ts.len() ==> no_duplicates(#[trigger] ts[i].ext.children@)
}

/// Whether `b` is `a` with at most its list of children changed.
pub open spec fn same_but_children(a: Task, b: Task) -> bool {
    &&& b.ext.proc_id == a.ext.proc_id
    &&& b.ext.parent_id == a.ext.parent_id
    &&& b.ext.clear_child_tid == a.ext.clear_child_tid
    &&& b.ext.uctx == a.ext.uctx
    &&& b.ext.aspace == a.ext.aspace
    &&& b.exit_code == a.exit_code
}

/// Whether `new` is `old` with only the task `pid` changed, and that one in
/// no more than its list of children.
pub open spec fn only_children_changed(old: Seq<Task>, new: Seq<Task>, pid: u64) -> bool {
    &&& new.len() == old.len()
    &&& forall|i: int| 0 <= i < old.len() && i != pid - 1 ==> #[trigger] new[i] == old[i]
    &&& same_but_children(task_of(old, pid), task_of(new, pid))
}

/// Whether `t` is a task just created as process `pid` with parent `parent`
/// in the address space `aspace`.
pub open spec fn is_fresh_task(t: Task, pid: u64, parent: u64, aspace: AddrSpaceRef) -> bool {
    &&& t.ext.proc_id == pid
    &&& t.ext.parent_id == parent
    &&& t.ext.clear_child_tid == 0
    &&& t.ext.children@ == Seq::<u64>::empty()
    &&& t.ext.aspace == aspace
    &&& t.exit_code is None
}

/// Whether the child `c` is what the wait target `pid` asks for: any child
/// when `pid <= 0`, else the child with that ID.
pub open spec fn matches_target(c: u64, pid: i32) -> bool {
    pid <= 0 || c == pid as u64
}

/// Whether the child at index `k` of `ch` is reapable for the target `pid`.
pub open spec fn reapable_at(ts: Seq<Task>, ch: Seq<u64>, pid: i32, k: int) -> bool {
    matches_target(ch[k], pid) && is_exited(ts, ch[k])
}

/// Whether index `k` of `ch` is the child a wait for `pid` reaps: the first
/// exited child that matches.
pub open spec fn is_reap_index(ts: Seq<Task>, ch: Seq<u64>, pid: i32, k: int) -> bool {
    &&& 0 <= k < ch.len()
    &&& reapable_at(ts, ch, pid, k)
    &&& forall|j: int| 0 <= j < k ==> !#[trigger] reapable_at(ts, ch, pid, j)
}

/// Whether some child in `ch` matches the wait target `pid`.
pub open spec fn has_candidate(ch: Seq<u64>, pid: i32) -> bool {
    exists|j: int| 0 <= j < ch.len() && #[trigger] matches_target(ch[j], pid)
}

/// Whether some child in `ch` matches the wait target `pid` and has exited.
pub open spec fn has_reapable(ts: Seq<Task>, ch: Seq<u64>, pid: i32) -> bool {
    exists|j: int| 0 <= j < ch.len() && #[trigger] reapable_at(ts, ch, pid, j)
}

/// The status word reported for a child that exited with `code`: the code
/// in the second byte, nothing in the low byte.
pub open spec fn wait_status_word(code: i32) -> i32 {
    ((code as u32) << 8u32) as i32
}

/// What a wait by `curr` for the target `pid` does to the table `old`,
/// giving `new` and the result `r`.
pub open spec fn wait_pid_post(
    old: Seq<Task>,
    new: Seq<Task>,
    curr: u64,
    pid: i32,
    r: Result<(u64, i32), WaitStatus>,
) -> bool {
    let ch = children_of(old, curr);
    &&& (r is Ok) == has_reapable(old, ch, pid)
    &&& match r {
        Ok((c, st)) => exists|k: int|
            #[trigger] is_reap_index(old, ch, pid, k) && c == ch[k] && st == wait_status_word(
                exit_code_of(old, c),
            ) && only_children_changed(old, new, curr) && children_of(new, curr)
                == ch.remove(k),
        Err(s) => new == old && (s == WaitStatus::Running) == has_candidate(ch, pid) && (s
            == WaitStatus::NotExist) == !has_candidate(ch, pid),
    }
}

/// What a clone by `curr` that created process `id` did to the table `old`,
/// giving `new`: the child is appended as a fresh process with parent `curr`
/// in `curr`'s address space, starting from the child frame of `parent_tf`,
/// and `curr` gains it as its last child; nothing else changes.
pub open spec fn clone_post(
    old: Seq<Task>,
    new: Seq<Task>,
    curr: u64,
    id: u64,
    stack: Option<usize>,
    parent_tf: TrapFrame,
) -> bool {
    &&& id == old.len() + 1
    &&& new.len() == id
    &&& forall|i: int| 0 <= i < old.len() && i != curr - 1 ==> #[trigger] new[i] == old[i]
    &&& same_but_children(task_of(old, curr), task_of(new, curr))
    &&& children_of(new, curr) == children_of(old, curr).push(id)
    &&& is_fresh_task(task_of(new, id), id, curr, task_of(old, curr).ext.aspace)
    &&& is_cloned_frame(task_of(new, id).ext.uctx.tf, parent_tf, stack)
}

/// What the exit of task `pid` with `code` did to the table `old`, giving
/// `new`: the task is marked exited with that code, and nothing else changes.
pub open spec fn exit_post(old: Seq<Task>, new: Seq<Task>, pid: u64, code: i32) -> bool {
    &&& new.len() == old.len()
    &&& forall|i: int| 0 <= i < old.len() && i != pid - 1 ==> #[trigger] new[i] == old[i]
    &&& task_of(new, pid).ext == task_of(old, pid).ext
    &&& task_of(new, pid).exit_code == Some(code)
}

impl ProcessTable {
    /// An empty table.
    pub fn new() -> (r: ProcessTable)
        ensures
            r@ == Seq::<Task>::empty(),
            r.wf(),
    {
        ProcessTable { tasks: Vec::new() }
    }

    /// Whether the table satisfies its invariant.
    pub open spec fn wf(&self) -> bool {
        table_wf(self@)
    }

    /// The number of tasks.
    pub fn len(&self) -> (r: usize)
        ensures
            r == self@.len(),
    {
        self.tasks.len()
    }

    /// Whether `pid` names a task of the table.
    pub fn contains(&self, pid: u64) -> (r: bool)
        ensures
            r == has_task(self@, pid),
    {
        1 <= pid && pid <= self.tasks.len() as u64
    }

    /// The task with ID `pid`.
    pub fn task(&self, pid: u64) -> (r: &Task)
        requires
            has_task(self@, pid),
        ensures
            *r == task_of(self@, pid),
    {
        let n = self.tasks.len();
        assert(pid - 1 < n);
        &self.tasks[(pid - 1) as usize]
    }

    /// Clones the process `curr` into a new process that shares its address
    /// space, resumes from `parent_tf` as a child (see `provision_clone`), has
    /// `curr` as parent and is appended to `curr`'s children. Fails with
    /// `ENOMEM`, changing nothing, where no task can be added. The flags and
    /// the thread-ID and TLS arguments are accepted and not acted on: every
    /// clone makes a new process.
    pub fn clone_task(
        &mut self,
        curr: u64,
        _flags: usize,
        stack: Option<usize>,
        _ptid: usize,
        _tls: usize,
        _ctid: usize,
        parent_tf: &TrapFrame,
    ) -> (r: Result<u64, SyscallError>)
        requires
            old(self).wf(),
            has_task(old(self)@, curr),
        ensures
            final(self).wf(),
            is_full(old(self)@) ==> r == Err::<u64, SyscallError>(SyscallError::ENOMEM)
                && final(self)@ == old(self)@,
            !is_full(old(self)@) ==> r == Ok::<u64, SyscallError>((old(self)@.len() + 1) as u64),
            r matches Ok(id) ==> clone_post(old(self)@, final(self)@, curr, id, stack, *parent_tf),
    {
        if self.tasks.len() >= isize::MAX as usize {
            return Err(SyscallError::ENOMEM);
        }
        let n = self.tasks.len();
        let idx = (curr - 1) as usize;
        let aspace = self.tasks[idx].ext.aspace;
        let tf = provision_clone(parent_tf, stack);
        let id = (n + 1) as u64;
        let mut ext = TaskExt::new(id, UspaceContext::from_trap_frame(&tf), aspace);
        ext.set_parent(curr);
        self.tasks.push(Task { ext, exit_code: None });
        self.tasks[idx].ext.children.push(id);
        proof {
            let o = old(self)@;
            let f = self@;
            assert forall|i: int| 0 <= i < o.len() && i != idx implies #[trigger] f[i] == o[i] by {}
            assert forall|i: int, j: int|
                0 <= i < f.len() && 0 <= j < f[i].ext.children@.len() implies has_task(
                f,
                #[trigger] f[i].ext.children@[j],
            ) by {
                if i != idx && i < o.len() {
                    assert(f[i] == o[i]);
                } else if i == idx && j < o[i].ext.children@.len() {
                    assert(f[i].ext.children@[j] == o[i].ext.children@[j]);
                }
            }
            assert forall|i: int| 0 <= i < f.len() implies has_task(
                f,
                #[trigger] f[i].ext.parent_id,
            ) by {
                if i != idx && i < o.len() {
                    assert(f[i] == o[i]);
                }
            }
            assert forall|i: int| 0 <= i < f.len() implies no_duplicates(
                #[trigger] f[i].ext.children@,
            ) by {
                if i != idx && i < o.len() {
                    assert(f[i] == o[i]);
                } else if i == idx {
                    let oc = o[i].ext.children@;
                    let fc = f[i].ext.children@;
                    assert(no_duplicates(oc));
                    assert forall|a: int, b: int|
                        0 <= a < fc.len() && 0 <= b < fc.len() && fc[a] == fc[b] implies a == b by {
                        if a < oc.len() {
                            assert(has_task(o, oc[a]));
                        }
                        if b < oc.len() {
                            assert(has_task(o, oc[b]));
                        }
                    }
                }
            }
        }
        Ok(id)
    }

    /// Records that the task `pid` has exited with `code`.
    pub fn mark_exited(&mut self, pid: u64, code: i32)
        requires
            old(self).wf(),
            has_task(old(self)@, pid),
        ensures
            final(self).wf(),
            exit_post(old(self)@, final(self)@, pid, code),
    {
        let n = self.tasks.len();
        let idx = (pid - 1) as usize;
        self.tasks[idx].exit_code = Some(code);
        proof {
            let o = old(self)@;
            let f = self@;
            assert forall|i: int| 0 <= i < o.len() implies #[trigger] f[i].ext == o[i].ext by {}
        }
    }

    /// Records `addr` as the address that the task `pid` clears on exit.
    pub fn set_tid_address(&mut self, pid: u64, addr: u64)
        requires
            old(self).wf(),
            has_task(old(self)@, pid),
        ensures
            final(self).wf(),
            final(self)@.len() == old(self)@.len(),
            forall|i: int|
                0 <= i < old(self)@.len() && i != pid - 1 ==> #[trigger] final(self)@[i]
                    == old(self)@[i],
            task_of(final(self)@, pid).ext.clear_child_tid == addr,
            task_of(final(self)@, pid).ext.proc_id == task_of(old(self)@, pid).ext.proc_id,
            task_of(final(self)@, pid).ext.parent_id == task_of(old(self)@, pid).ext.parent_id,
            children_of(final(self)@, pid) == children_of(old(self)@, pid),
            task_of(final(self)@, pid).ext.uctx == task_of(old(self)@, pid).ext.uctx,
            task_of(final(self)@, pid).ext.aspace == task_of(old(self)@, pid).ext.aspace,
            task_of(final(self)@, pid).exit_code == task_of(old(self)@, pid).exit_code,
    {
        let n = self.tasks.len();
        let idx = (pid - 1) as usize;
        self.tasks[idx].ext.set_clear_child_tid(addr);
        proof {
            let o = old(self)@;
            let f = self@;
            assert forall|i: int| 0 <= i < o.len() implies #[trigger] f[i].ext.children@
                == o[i].ext.children@ && f[i].ext.parent_id == o[i].ext.parent_id
                && f[i].ext.proc_id == o[i].ext.proc_id by {}
        }
    }

    /// Searches the children of `curr` for one that the wait target `pid`
    /// lets the caller reap. Returns the index of the first exited child that
    /// matches, if any, and whether any child matches at all.
    fn find_child(&self, curr: u64, pid: i32) -> (r: (Option<usize>, bool))
        requires
            self.wf(),
            has_task(self@, curr),
        ensures
            r.0 matches Some(k) ==> is_reap_index(self@, children_of(self@, curr), pid, k as int),
            r.0 is None ==> !has_reapable(self@, children_of(self@, curr), pid),
            r.1 == has_candidate(children_of(self@, curr), pid),
    {
        let ghost ts = self@;
        let idx = (curr - 1) as usize;
        let ch = &self.tasks[idx].ext.children;
        let ghost chs = children_of(ts, curr);
        let n = ch.len();
        let mut k: usize = 0;
        let mut found: Option<usize> = None;
        let mut candidate = false;
        let mut stop = false;
        while k < n && !stop
            invariant
                table_wf(ts),
                ts == self@,
                has_task(ts, curr),
                chs == children_of(ts, curr),
                ch@ == chs,
                n == chs.len(),
                k <= n,
                found matches Some(f) ==> stop && is_reap_index(ts, chs, pid, f as int),
                found is None ==> forall|j: int| 0 <= j < k ==> !#[trigger] reapable_at(ts, chs, pid, j),
                stop && found is None ==> pid > 0 && exists|j: int|
                    0 <= j < k && chs[j] == pid as u64 && !is_exited(ts, #[trigger] chs[j]),
                candidate == exists|j: int| 0 <= j < k && #[trigger] matches_target(chs[j], pid),
                stop ==> k > 0 && matches_target(chs[k - 1], pid),
            decreases n - k,
        {
            let c = ch[k];
            proof {
                assert(has_task(ts, c)) by {
                    assert(ts[curr - 1].ext.children@[k as int] == c);
                }
            }
            if pid <= 0 || c == pid as u64 {
                candidate = true;
                let tn = self.tasks.len();
                if self.tasks[(c - 1) as usize].exit_code.is_some() {
                    found = Some(k);
                    stop = true;
                } else if pid > 0 {
                    stop = true;
                }
            }
            proof {
                assert(matches_target(chs[k as int], pid) == (pid <= 0 || c == pid as u64));
            }
            k = k + 1;
        }
        proof {
            if found is None && stop {
                let j = choose|j: int| 0 <= j < k && chs[j] == pid as u64 && !is_exited(ts, #[trigger] chs[j]);
                assert forall|i: int| 0 <= i < chs.len() implies !#[trigger] reapable_at(ts, chs, pid, i) by {
                    if reapable_at(ts, chs, pid, i) {
                        assert(no_duplicates(ts[curr - 1].ext.children@));
                    }
                }
            }
            if stop {
                assert(matches_target(chs[k - 1], pid));
            }
        }
        (found, candidate)
    }

    /// Removes the child at index `k` from the children of `curr`.
    fn remove_child(&mut self, curr: u64, k: usize)
        requires
            old(self).wf(),
            has_task(old(self)@, curr),
            k < children_of(old(self)@, curr).len(),
        ensures
            final(self).wf(),
            only_children_changed(old(self)@, final(self)@, curr),
            children_of(final(self)@, curr) == children_of(old(self)@, curr).remove(k as int),
    {
        let n = self.tasks.len();
        let idx = (curr - 1) as usize;
        self.tasks[idx].ext.children.remove(k);
        proof {
            let o = old(self)@;
            let f = self@;
            let oc = o[idx as int].ext.children@;
            let fc = f[idx as int].ext.children@;
            assert forall|i: int| 0 <= i < o.len() && i != idx implies #[trigger] f[i] == o[i] by {}
            assert forall|j: int| 0 <= j < fc.len() implies #[trigger] fc[j] == (if j < k {
                oc[j]
            } else {
                oc[j + 1]
            }) by {}
            assert(no_duplicates(oc));
            assert forall|i: int, j: int|
                0 <= i < f.len() && 0 <= j < f[i].ext.children@.len() implies has_task(
                f,
                #[trigger] f[i].ext.children@[j],
            ) by {
                if i != idx {
                    assert(f[i] == o[i]);
                } else if j < k {
                    assert(fc[j] == oc[j]);
                } else {
                    assert(fc[j] == oc[j + 1]);
                }
            }
            assert forall|i: int| 0 <= i < f.len() implies has_task(
                f,
                #[trigger] f[i].ext.parent_id,
            ) by {
                if i != idx {
                    assert(f[i] == o[i]);
                }
            }
            assert forall|i: int| 0 <= i < f.len() implies no_duplicates(
                #[trigger] f[i].ext.children@,
            ) by {
                if i != idx {
                    assert(f[i] == o[i]);
                } else {
                    assert forall|a: int, b: int|
                        0 <= a < fc.len() && 0 <= b < fc.len() && fc[a] == fc[b] implies a == b by {
                        let a1 = if a < k { a } else { a + 1 };
                        let b1 = if b < k { b } else { b + 1 };
                        assert(oc[a1] == oc[b1]);
                    }
                }
            }
        }
    }

    /// Whether the table can take no further task.
    pub fn is_full(&self) -> (r: bool)
        ensures
            r == is_full(self@),
    {
        self.tasks.len() >= isize::MAX as usize
    }
}

/// Adds the first user task of a process tree: process `len + 1`, with
/// parent 1, in the address space `aspace`, starting from `uctx`.
pub fn spawn_user_task(table: &mut ProcessTable, aspace: AddrSpaceRef, uctx: UspaceContext) -> (r: u64)
    requires
        old(table).wf(),
        !is_full(old(table)@),
    ensures
        final(table).wf(),
        r == old(table)@.len() + 1,
        final(table)@.len() == r,
        final(table)@.subrange(0, old(table)@.len() as int) == old(table)@,
        is_fresh_task(task_of(final(table)@, r), r, 1, aspace),
        task_of(final(table)@, r).ext.uctx == uctx,
{
    let id = (table.tasks.len() + 1) as u64;
    let ext = TaskExt::new(id, uctx, aspace);
    table.tasks.push(Task { ext, exit_code: None });
    proof {
        assert(table@.subrange(0, old(table)@.len() as int) =~= old(table)@);
        assert forall|i: int, j: int|
            0 <= i < table@.len() && 0 <= j < table@[i].ext.children@.len() implies has_task(
            table@,
            #[trigger] table@[i].ext.children@[j],
        ) by {
            assert(i < old(table)@.len());
            assert(table@[i] == old(table)@[i]);
        }
        assert forall|i: int| 0 <= i < table@.len() implies has_task(
            table@,
            #[trigger] table@[i].ext.parent_id,
        ) by {
            if i < old(table)@.len() {
                assert(table@[i] == old(table)@[i]);
            }
        }
        assert forall|i: int| 0 <= i < table@.len() implies no_duplicates(
            #[trigger] table@[i].ext.children@,
        ) by {
            if i < old(table)@.len() {
                assert(table@[i] == old(table)@[i]);
            }
        }
    }
    id
}

/// The status word for a child that exited with `code`.
pub fn exit_status_word(code: i32) -> (r: i32)
    ensures
        r == wait_status_word(code),
{
    ((code as u32) << 8u32) as i32
}

/// One search of the children of `curr` for a child that the target `pid`
/// lets it reap: any child when `pid <= 0`, else the child with ID `pid`.
/// The first exited match is removed from the children and returned with
/// its status word; otherwise the result says whether a match is still
/// running or none exists.
pub fn wait_pid(table: &mut ProcessTable, curr: u64, pid: i32) -> (r: Result<(u64, i32), WaitStatus>)
    requires
        old(table).wf(),
        has_task(old(table)@, curr),
    ensures
        final(table).wf(),
        wait_pid_post(old(table)@, final(table)@, curr, pid, r),
{
    let (found, candidate) = table.find_child(curr, pid);
    match found {
        Some(k) => {
            let ghost ts = table@;
            let c = table.task(curr).ext.children[k];
            proof {
                assert(has_task(ts, c));
            }
            let code = match table.task(c).exit_code {
                Some(code) => code,
                None => 0,
            };
            table.remove_child(curr, k);
            proof {
                assert(is_reap_index(ts, children_of(ts, curr), pid, k as int));
            }
            Ok((c, exit_status_word(code)))
        },
        None => {
            if candidate {
                Err(WaitStatus::Running)
            } else {
                Err(WaitStatus::NotExist)
            }
        },
    }
}

} // verus!
