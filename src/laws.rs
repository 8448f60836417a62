use vstd::prelude::*;

use crate::context::{child_sp, TrapFrame, SP_REG};
use crate::flags::WaitStatus;
use crate::syscall::{is_nohang, wait4_post, wait4_reply, Wait4Reply};
use crate::task::{
    children_of, clone_post, exit_post, has_task, is_reap_index, no_duplicates, table_wf, task_of,
    wait_pid_post, wait_status_word, Task,
};

verus! {

/// The status word of an exit code between 0 and 255 is the code times 256.
pub proof fn lemma_status_word(code: i32)
    requires
        0 <= code <= 255,
    ensures
        wait_status_word(code) == code * 256,
{
    let x = code as u32;
    assert(x <= 255u32 ==> x << 8u32 == x * 256u32) by (bit_vector);
}

/// Every task of a well-formed table carries its own ID as process ID, and
/// keeps it in every later well-formed table (tables only grow).
pub proof fn lemma_pid_is_task_id(old: Seq<Task>, new: Seq<Task>, pid: u64)
    requires
        table_wf(old),
        table_wf(new),
        has_task(old, pid),
        new.len() >= old.len(),
    ensures
        task_of(old, pid).ext.proc_id == pid,
        task_of(new, pid).ext.proc_id == task_of(old, pid).ext.proc_id,
{
    assert(old[pid - 1].ext.proc_id == pid);
    assert(new[pid - 1].ext.proc_id == pid);
}

/// After a clone by `curr`, the child's parent is `curr` and the child
/// appears exactly once among `curr`'s children.
pub proof fn lemma_clone_links_child(
    old: Seq<Task>,
    new: Seq<Task>,
    curr: u64,
    id: u64,
    stack: Option<usize>,
    parent_tf: TrapFrame,
)
    requires
        table_wf(old),
        has_task(old, curr),
        clone_post(old, new, curr, id, stack, parent_tf),
    ensures
        task_of(new, id).ext.parent_id == curr,
        children_of(new, curr).contains(id),
        forall|i: int, j: int|
            0 <= i < children_of(new, curr).len() && 0 <= j < children_of(new, curr).len()
                && children_of(new, curr)[i] == id && children_of(new, curr)[j] == id ==> i == j,
{
    let oc = children_of(old, curr);
    let nc = children_of(new, curr);
    assert(nc[oc.len() as int] == id);
    assert forall|i: int| 0 <= i < oc.len() implies oc[i] != id by {
        assert(has_task(old, old[curr - 1].ext.children@[i]));
    }
    assert forall|i: int, j: int|
        0 <= i < nc.len() && 0 <= j < nc.len() && nc[i] == id && nc[j] == id implies i == j by {
        if i < oc.len() {
            assert(nc[i] == oc[i]);
        }
        if j < oc.len() {
            assert(nc[j] == oc[j]);
        }
    }
}

/// A cloned child runs on the new stack where one was given, else on the
/// parent's stack pointer at the time of the clone.
pub proof fn lemma_clone_stack(
    old: Seq<Task>,
    new: Seq<Task>,
    curr: u64,
    id: u64,
    stack: Option<usize>,
    parent_tf: TrapFrame,
)
    requires
        clone_post(old, new, curr, id, stack, parent_tf),
    ensures
        stack matches Some(s) ==> task_of(new, id).ext.uctx.tf.regs@[SP_REG as int] == s,
        stack is None ==> task_of(new, id).ext.uctx.tf.regs@[SP_REG as int]
            == parent_tf.regs@[SP_REG as int],
{
    assert(task_of(new, id).ext.uctx.tf.regs@[SP_REG as int] == child_sp(parent_tf, stack));
}

/// A child that exits with a code between 0 and 255 is reaped by a wait of
/// its parent for exactly its ID, which reports the code shifted left by 8.
pub proof fn lemma_exit_code_round_trip(
    t0: Seq<Task>,
    t1: Seq<Task>,
    t2: Seq<Task>,
    parent: u64,
    child: u64,
    code: i32,
    r: Result<(u64, i32), WaitStatus>,
)
    requires
        table_wf(t0),
        has_task(t0, parent),
        children_of(t0, parent).contains(child),
        1 <= child <= i32::MAX,
        0 <= code <= 255,
        exit_post(t0, t1, child, code),
        wait_pid_post(t1, t2, parent, child as i32, r),
    ensures
        r == Ok::<(u64, i32), WaitStatus>((child, (code * 256) as i32)),
{
    let ch = children_of(t0, parent);
    let j = choose|j: int| 0 <= j < ch.len() && ch[j] == child;
    assert(has_task(t0, t0[parent - 1].ext.children@[j]));
    if parent == child {
        assert(t1[parent - 1].ext == t0[parent - 1].ext);
    } else {
        assert(t1[parent - 1] == t0[parent - 1]);
    }
    assert(children_of(t1, parent) == ch);
    assert(crate::task::reapable_at(t1, ch, child as i32, j));
    lemma_status_word(code);
    if let Ok((c, st)) = r {
        let k = choose|k: int|
            #[trigger] is_reap_index(t1, ch, child as i32, k) && c == ch[k] && st
                == wait_status_word(crate::task::exit_code_of(t1, c));
        assert(c == child);
    }
}

/// A child once reaped is gone from its parent's children, and a second
/// wait for exactly its ID finds no such child and changes nothing. The
/// table holds at most `i32::MAX` tasks, so that the ID can be named as a
/// wait target.
pub proof fn lemma_reap_once(
    t0: Seq<Task>,
    t1: Seq<Task>,
    t2: Seq<Task>,
    curr: u64,
    pid: i32,
    c: u64,
    st: i32,
    r2: Result<(u64, i32), WaitStatus>,
)
    requires
        table_wf(t0),
        has_task(t0, curr),
        t0.len() <= i32::MAX,
        wait_pid_post(t0, t1, curr, pid, Ok::<(u64, i32), WaitStatus>((c, st))),
        wait_pid_post(t1, t2, curr, c as i32, r2),
    ensures
        1 <= c <= i32::MAX,
        !children_of(t1, curr).contains(c),
        r2 == Err::<(u64, i32), WaitStatus>(WaitStatus::NotExist),
        t2 == t1,
{
    let ch = children_of(t0, curr);
    let k = choose|k: int|
        #[trigger] is_reap_index(t0, ch, pid, k) && c == ch[k] && st == wait_status_word(
            crate::task::exit_code_of(t0, c),
        ) && crate::task::only_children_changed(t0, t1, curr) && children_of(t1, curr)
            == ch.remove(k);
    let nc = children_of(t1, curr);
    assert(has_task(t0, t0[curr - 1].ext.children@[k]));
    assert(no_duplicates(t0[curr - 1].ext.children@));
    assert forall|i: int| 0 <= i < nc.len() implies nc[i] != c by {
        if i < k {
            assert(nc[i] == ch[i]);
        } else {
            assert(nc[i] == ch[i + 1]);
        }
    }
    assert forall|j: int| 0 <= j < nc.len() implies !#[trigger] crate::task::matches_target(
        nc[j],
        c as i32,
    ) by {
        assert(nc[j] != c);
    }
}

/// A `wait4` step that reaped a child, returning its ID, is followed by a
/// wait for exactly that ID that fails at once with `-ECHILD`, whatever the
/// options, stores no status and changes nothing; the child is gone from the
/// caller's children. The table holds at most `i32::MAX` tasks.
pub proof fn lemma_wait4_reap_once(
    t0: Seq<Task>,
    t1: Seq<Task>,
    t2: Seq<Task>,
    curr: u64,
    pid: i32,
    options: i32,
    r1: Option<Wait4Reply>,
    options2: i32,
    r2: Option<Wait4Reply>,
)
    requires
        table_wf(t0),
        has_task(t0, curr),
        t0.len() <= i32::MAX,
        wait4_post(t0, t1, curr, pid, options, r1),
        r1 matches Some(rep) && rep.ret > 0,
        wait4_post(t1, t2, curr, r1->Some_0.ret as i32, options2, r2),
    ensures
        !children_of(t1, curr).contains(r1->Some_0.ret as u64),
        r2 == Some(Wait4Reply { ret: -10isize, status: None }),
        t2 == t1,
{
    let w1 = choose|w: Result<(u64, i32), WaitStatus>|
        wait_pid_post(t0, t1, curr, pid, w) && r1 == wait4_reply(w, is_nohang(options));
    let w2 = choose|w: Result<(u64, i32), WaitStatus>|
        wait_pid_post(t1, t2, curr, r1->Some_0.ret as i32, w) && r2 == wait4_reply(
            w,
            is_nohang(options2),
        );
    if let Ok((c, st)) = w1 {
        lemma_reap_once(t0, t1, t2, curr, pid, c, st, w2);
        assert(r1->Some_0.ret == c);
    }
}

} // verus!
