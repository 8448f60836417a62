use vstd::prelude::*;

use crate::context::TrapFrame;
use crate::flags::{errno, syscall_ret, SyscallError, WaitFlags, WaitStatus, WNOHANG};
use crate::task::{
    children_of, clone_post, exit_post, has_candidate, has_reapable, has_task, is_full, task_of,
    wait_pid, wait_pid_post, ProcessTable, Task,
};

verus! {

/// What a `wait4` call hands back: its return value, and the status word to
/// store at the caller's status address where a child was reaped.
#[derive(Debug, Clone, Copy, PartialEq, Eq, Structural)]
pub struct Wait4Reply {
    /// The syscall's return value.
    pub ret: isize,
    /// The status word of the reaped child.
    pub status: Option<i32>,
}

/// Whether `options` asks `wait4` not to wait.
pub open spec fn is_nohang(options: i32) -> bool {
    (options as u32) & WNOHANG != 0
}

/// The reply of one `wait4` step to the search outcome `w`: the reaped
/// child's ID and status; 0 for a running match when not waiting; no reply
/// (yield and search again) for a running match otherwise; `-ECHILD` when
/// nothing matches.
pub open spec fn wait4_reply(w: Result<(u64, i32), WaitStatus>, nohang: bool) -> Option<Wait4Reply> {
    match w {
        Ok((c, st)) => Some(Wait4Reply { ret: c as isize, status: Some(st) }),
        Err(WaitStatus::Running) => if nohang {
            Some(Wait4Reply { ret: 0, status: None })
        } else {
            None
        },
        _ => Some(Wait4Reply { ret: (-errno(SyscallError::ECHILD)) as isize, status: None }),
    }
}

/// What one `wait4` step by `curr` for the target `pid` with `options` does
/// to the table `old`, giving `new` and the reply `r`: the table changes as
/// the child search says, and the reply follows from its outcome.
pub open spec fn wait4_post(
    old: Seq<Task>,
    new: Seq<Task>,
    curr: u64,
    pid: i32,
    options: i32,
    r: Option<Wait4Reply>,
) -> bool {
    exists|w: Result<(u64, i32), WaitStatus>|
        wait_pid_post(old, new, curr, pid, w) && r == wait4_reply(w, is_nohang(options))
}

/// The process ID of the calling task `curr`.
pub fn sys_getpid(table: &ProcessTable, curr: u64) -> (r: isize)
    requires
        table.wf(),
        has_task(table@, curr),
    ensures
        r == curr,
        r == task_of(table@, curr).ext.proc_id,
{
    table.task(curr).ext.pid() as isize
}

/// The parent's process ID of the calling task `curr`.
pub fn sys_getppid(table: &ProcessTable, curr: u64) -> (r: isize)
    requires
        table.wf(),
        has_task(table@, curr),
    ensures
        r == task_of(table@, curr).ext.parent_id,
{
    table.task(curr).ext.get_parent() as isize
}

/// Marks the calling task `curr` exited with `status`, and returns the user
/// address whose word must be zeroed before the task ends (zero for none).
pub fn sys_exit(table: &mut ProcessTable, curr: u64, status: i32) -> (r: u64)
    requires
        old(table).wf(),
        has_task(old(table)@, curr),
    ensures
        final(table).wf(),
        exit_post(old(table)@, final(table)@, curr, status),
        r == task_of(old(table)@, curr).ext.clear_child_tid,
{
    let addr = table.task(curr).ext.clear_child_tid();
    table.mark_exited(curr, status);
    addr
}

/// Ends the calling task `curr` exactly as `sys_exit` does: marks it exited
/// with `status` and returns the user address whose word must be zeroed
/// before the task ends (zero for none). The other tasks sharing its
/// address space are left running.
pub fn sys_exit_group(table: &mut ProcessTable, curr: u64, status: i32) -> (r: u64)
    requires
        old(table).wf(),
        has_task(old(table)@, curr),
    ensures
        final(table).wf(),
        exit_post(old(table)@, final(table)@, curr, status),
        r == task_of(old(table)@, curr).ext.clear_child_tid,
{
    sys_exit(table, curr, status)
}

/// Records `tid_ptr` as the address that `curr` clears on exit, and returns
/// the caller's ID. It always succeeds.
pub fn sys_set_tid_address(table: &mut ProcessTable, curr: u64, tid_ptr: u64) -> (r: isize)
    requires
        old(table).wf(),
        has_task(old(table)@, curr),
    ensures
        final(table).wf(),
        r == curr,
        task_of(final(table)@, curr).ext.clear_child_tid == tid_ptr,
        task_of(final(table)@, curr).ext.proc_id == curr,
        task_of(final(table)@, curr).ext.parent_id == task_of(old(table)@, curr).ext.parent_id,
        task_of(final(table)@, curr).ext.uctx == task_of(old(table)@, curr).ext.uctx,
        task_of(final(table)@, curr).ext.aspace == task_of(old(table)@, curr).ext.aspace,
        task_of(final(table)@, curr).exit_code == task_of(old(table)@, curr).exit_code,
        children_of(final(table)@, curr) == children_of(old(table)@, curr),
        final(table)@.len() == old(table)@.len(),
        forall|i: int|
            0 <= i < old(table)@.len() && i != curr - 1 ==> #[trigger] final(table)@[i]
                == old(table)@[i],
{
    table.set_tid_address(curr, tid_ptr);
    syscall_ret(Ok(curr as isize))
}

/// Clones the calling task `curr`, whose saved user registers are
/// `parent_tf`. A zero `stack` keeps the parent's stack pointer. Returns the
/// child's ID, or `-ENOMEM` where no task can be added.
pub fn sys_clone(
    table: &mut ProcessTable,
    curr: u64,
    flags: usize,
    stack: usize,
    ptid: usize,
    tls: usize,
    ctid: usize,
    parent_tf: &TrapFrame,
) -> (r: isize)
    requires
        old(table).wf(),
        has_task(old(table)@, curr),
    ensures
        final(table).wf(),
        is_full(old(table)@) ==> r == -errno(SyscallError::ENOMEM) && final(table)@ == old(
            table,
        )@,
        !is_full(old(table)@) ==> r == old(table)@.len() + 1 && clone_post(
            old(table)@,
            final(table)@,
            curr,
            r as u64,
            if stack == 0 {
                None
            } else {
                Some(stack)
            },
            *parent_tf,
        ),
{
    let stack = if stack == 0 {
        None
    } else {
        Some(stack)
    };
    let res = match table.clone_task(curr, flags, stack, ptid, tls, ctid, parent_tf) {
        Ok(id) => Ok(id as isize),
        Err(_) => Err(SyscallError::ENOMEM),
    };
    syscall_ret(res)
}

/// One step of `wait4` by `curr` for the target `pid`: searches the children
/// once (see `wait_pid`) and replies, or returns `None` when the caller must
/// yield and call again. Only the no-hang bit of `options` is acted on.
pub fn sys_wait4(table: &mut ProcessTable, curr: u64, pid: i32, options: i32) -> (r: Option<
    Wait4Reply,
>)
    requires
        old(table).wf(),
        has_task(old(table)@, curr),
    ensures
        final(table).wf(),
        wait4_post(old(table)@, final(table)@, curr, pid, options, r),
        children_of(old(table)@, curr).len() == 0 ==> r == Some(
            Wait4Reply { ret: -10isize, status: None },
        ),
        is_nohang(options) && has_candidate(children_of(old(table)@, curr), pid) && !has_reapable(
            old(table)@,
            children_of(old(table)@, curr),
            pid,
        ) ==> r == Some(Wait4Reply { ret: 0isize, status: None }),
{
    let option = WaitFlags::from_bits_truncate(options as u32);
    let nohang = option.is_nohang();
    proof {
        let b = options as u32;
        assert((((b & 0xC000_000Bu32) & 1u32) != 0u32) == ((b & 1u32) != 0u32)) by (bit_vector);
    }
    let ghost ts = table@;
    let w = wait_pid(table, curr, pid);
    let r = match w {
        Ok((c, st)) => Some(Wait4Reply { ret: c as isize, status: Some(st) }),
        Err(WaitStatus::Running) => {
            if nohang {
                Some(Wait4Reply { ret: 0, status: None })
            } else {
                None
            }
        },
        Err(_) => Some(Wait4Reply { ret: syscall_ret(Err(SyscallError::ECHILD)), status: None }),
    };
    proof {
        assert(nohang == is_nohang(options));
        assert(wait_pid_post(ts, table@, curr, pid, w) && r == wait4_reply(w, is_nohang(options)));
        if children_of(ts, curr).len() == 0 {
            assert(!has_candidate(children_of(ts, curr), pid));
        }
    }
    r
}

} // verus!
