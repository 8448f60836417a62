use proc_core::context::{A0_REG, SP_REG};
use proc_core::flags::{arch_prctl_op, syscall_ret, ArchPrctlCode, WNOHANG};
use proc_core::syscall::{sys_exit, sys_exit_group, sys_getpid, sys_getppid, sys_set_tid_address};
use proc_core::task::exit_status_word;
use proc_core::{
    provision_clone, spawn_user_task, sys_clone, sys_wait4, wait_pid, AddrSpaceRef, ProcessTable,
    SignalNo, SyscallError, TaskExt, TrapFrame, UspaceContext, Wait4Reply, WaitFlags, WaitStatus,
};

const ASPACE: AddrSpaceRef = AddrSpaceRef { page_table_root: 0x8020_0000 };

fn frame(pc: usize, sp: usize) -> TrapFrame {
    let mut regs = [0usize; 32];
    regs[SP_REG] = sp;
    regs[A0_REG] = 220;
    regs[1] = 0x77;
    TrapFrame { regs, sepc: pc, sstatus: 0x40020 }
}

fn first_process() -> ProcessTable {
    let mut t = ProcessTable::new();
    let pid = spawn_user_task(&mut t, ASPACE, UspaceContext::new(0x1000, 0x4000_0000, 2333));
    assert_eq!(pid, 1);
    t
}

fn reply(ret: isize, status: Option<i32>) -> Option<Wait4Reply> {
    Some(Wait4Reply { ret, status })
}

#[test]
fn two_clones_then_wait_any() {
    let mut t = first_process();
    let tf = frame(0x1100, 0x3fff_f000);
    assert_eq!(sys_clone(&mut t, 1, 0, 0, 0, 0, 0, &tf), 2);
    assert_eq!(sys_clone(&mut t, 1, 0, 0, 0, 0, 0, &tf), 3);
    assert_eq!(sys_exit(&mut t, 2, 5), 0);
    assert_eq!(sys_wait4(&mut t, 1, -1, 0), reply(2, Some(5 << 8)));
    // C still runs: a blocking wait asks to yield, a non-blocking one returns 0.
    assert_eq!(sys_wait4(&mut t, 1, -1, 0), None);
    assert_eq!(sys_wait4(&mut t, 1, -1, WNOHANG as i32), reply(0, None));
    sys_exit(&mut t, 3, 0);
    assert_eq!(sys_wait4(&mut t, 1, -1, 0), reply(3, Some(0)));
    assert_eq!(sys_wait4(&mut t, 1, -1, 0), reply(-10, None));
}

#[test]
fn exit_code_round_trip() {
    for code in [0, 1, 42, 255] {
        let mut t = first_process();
        let child = sys_clone(&mut t, 1, 0, 0, 0, 0, 0, &frame(0x2000, 0x5000)) as u64;
        sys_exit(&mut t, child, code);
        assert_eq!(wait_pid(&mut t, 1, child as i32), Ok((child, code << 8)));
    }
}

#[test]
fn reaped_child_is_gone() {
    let mut t = first_process();
    let tf = frame(0x2000, 0x5000);
    let b = sys_clone(&mut t, 1, 0, 0, 0, 0, 0, &tf) as u64;
    let c = sys_clone(&mut t, 1, 0, 0, 0, 0, 0, &tf) as u64;
    sys_exit(&mut t, c, 7);
    assert_eq!(sys_wait4(&mut t, 1, c as i32, 0), reply(c as isize, Some(7 << 8)));
    assert_eq!(t.task(1).ext.children, vec![b]);
    assert_eq!(sys_wait4(&mut t, 1, c as i32, 0), reply(-10, None));
    assert_eq!(wait_pid(&mut t, 1, c as i32), Err(WaitStatus::NotExist));
}

#[test]
fn nonblocking_wait_with_running_child() {
    let mut t = first_process();
    sys_clone(&mut t, 1, 0, 0, 0, 0, 0, &frame(0x2000, 0x5000));
    assert_eq!(sys_wait4(&mut t, 1, -1, 1), reply(0, None));
    assert_eq!(sys_wait4(&mut t, 1, 2, 1), reply(0, None));
    assert_eq!(wait_pid(&mut t, 1, 0), Err(WaitStatus::Running));
    assert_eq!(t.task(1).ext.children, vec![2]);
}

#[test]
fn wait_without_children() {
    let mut t = first_process();
    assert_eq!(sys_wait4(&mut t, 1, -1, 0), reply(-10, None));
    assert_eq!(sys_wait4(&mut t, 1, -1, 1), reply(-10, None));
    assert_eq!(sys_wait4(&mut t, 1, 5, 0), reply(-10, None));
    assert_eq!(wait_pid(&mut t, 1, 0), Err(WaitStatus::NotExist));
}

#[test]
fn wait_for_a_stranger() {
    let mut t = first_process();
    sys_clone(&mut t, 1, 0, 0, 0, 0, 0, &frame(0x2000, 0x5000));
    assert_eq!(sys_wait4(&mut t, 1, 9, 1), reply(-10, None));
}

#[test]
fn wait_any_takes_first_exited_in_order() {
    let mut t = first_process();
    let tf = frame(0x2000, 0x5000);
    for _ in 0..3 {
        sys_clone(&mut t, 1, 0, 0, 0, 0, 0, &tf);
    }
    sys_exit(&mut t, 4, 40);
    sys_exit(&mut t, 3, 30);
    assert_eq!(wait_pid(&mut t, 1, -1), Ok((3, 30 << 8)));
    assert_eq!(wait_pid(&mut t, 1, 0), Ok((4, 40 << 8)));
    assert_eq!(t.task(1).ext.children, vec![2]);
}

#[test]
fn clone_links_child() {
    let mut t = first_process();
    let tf = frame(0x2000, 0x5000);
    let child = sys_clone(&mut t, 1, 0, 0, 0, 0, 0, &tf) as u64;
    let grandchild = sys_clone(&mut t, child, 0, 0, 0, 0, 0, &tf) as u64;
    assert_eq!(t.task(child).ext.parent_id, 1);
    assert_eq!(t.task(grandchild).ext.parent_id, child);
    assert_eq!(t.task(grandchild).ext.proc_id, grandchild);
    assert_eq!(t.task(1).ext.children, vec![child]);
    assert_eq!(t.task(child).ext.children, vec![grandchild]);
    assert_eq!(t.task(grandchild).ext.aspace, ASPACE);
    assert_eq!(sys_getpid(&t, grandchild), 3);
    assert_eq!(sys_getppid(&t, grandchild), 2);
    assert_eq!(sys_getppid(&t, 1), 1);
    assert_eq!(t.len(), 3);
}

#[test]
fn clone_with_new_stack() {
    let mut t = first_process();
    let tf = frame(0x2000, 0x5000);
    let child = sys_clone(&mut t, 1, 0, 0x9000, 0, 0, 0, &tf) as u64;
    let uctx = t.task(child).ext.uctx;
    assert_eq!(uctx.get_sp(), 0x9000);
    assert_eq!(uctx.get_ip(), 0x2004);
    assert_eq!(uctx.tf.regs[A0_REG], 0);
    assert_eq!(uctx.tf.regs[1], 0x77);
}

#[test]
fn clone_keeps_parent_stack() {
    let mut t = first_process();
    let tf = frame(0x2000, 0x5000);
    let child = sys_clone(&mut t, 1, 0, 0, 0, 0, 0, &tf) as u64;
    assert_eq!(t.task(child).ext.uctx.get_sp(), 0x5000);
}

#[test]
fn provision_clone_fields() {
    let tf = frame(usize::MAX - 1, 0x5000);
    let child = provision_clone(&tf, Some(0x7000));
    assert_eq!(child.sp(), 0x7000);
    assert_eq!(child.ret_code(), 0);
    assert_eq!(child.sepc, 2);
    assert_eq!(child.sstatus, tf.sstatus);
    assert_eq!(tf.ret_code(), 220);
}

#[test]
fn fresh_context() {
    let u = UspaceContext::new(0x1000, 0x4000_0000, 2333);
    assert_eq!(u.get_ip(), 0x1000);
    assert_eq!(u.get_sp(), 0x4000_0000);
    assert_eq!(u.tf.regs[A0_REG], 2333);
    assert_eq!(u.tf.regs[1], 0);
}

#[test]
fn task_ext_defaults_and_setters() {
    let mut e = TaskExt::new(7, UspaceContext::new(0, 0, 0), ASPACE);
    assert_eq!(e.pid(), 7);
    assert_eq!(e.get_parent(), 1);
    assert_eq!(e.clear_child_tid(), 0);
    assert!(e.children.is_empty());
    e.set_parent(4);
    e.set_clear_child_tid(0xdead);
    assert_eq!(e.get_parent(), 4);
    assert_eq!(e.clear_child_tid(), 0xdead);
}

#[test]
fn set_tid_address_then_exit() {
    let mut t = first_process();
    assert_eq!(sys_set_tid_address(&mut t, 1, 0x4000_1000), 1);
    assert_eq!(sys_exit(&mut t, 1, 3), 0x4000_1000);
    assert_eq!(t.task(1).exit_code, Some(3));
}

#[test]
fn exit_group_marks_exited() {
    let mut t = first_process();
    let child = sys_clone(&mut t, 1, 0, 0, 0, 0, 0, &frame(0x2000, 0x5000)) as u64;
    assert_eq!(sys_set_tid_address(&mut t, child, 0x4000_2000), child as isize);
    assert_eq!(sys_exit_group(&mut t, child, 9), 0x4000_2000);
    assert_eq!(t.task(child).exit_code, Some(9));
    assert_eq!(t.task(1).exit_code, None);
    assert_eq!(sys_exit_group(&mut t, 1, 0), 0);
    assert_eq!(t.task(1).exit_code, Some(0));
}

#[test]
fn status_word() {
    assert_eq!(exit_status_word(5), 0x500);
    assert_eq!(exit_status_word(255), 0xff00);
    assert_eq!(exit_status_word(-1), -256);
}

#[test]
fn error_codes() {
    assert_eq!(SyscallError::ECHILD.code(), 10);
    assert_eq!(SyscallError::ENOMEM.code(), 12);
    assert_eq!(SyscallError::ENOSYS.code(), 38);
    assert_eq!(syscall_ret(Err(SyscallError::ENOMEM)), -12);
    assert_eq!(syscall_ret(Ok(17)), 17);
}

#[test]
fn arch_prctl_codes() {
    assert_eq!(arch_prctl_op(0x1002), Ok(ArchPrctlCode::SetFs));
    assert_eq!(arch_prctl_op(0x1001), Ok(ArchPrctlCode::SetGs));
    assert_eq!(arch_prctl_op(0x1003), Ok(ArchPrctlCode::GetFs));
    assert_eq!(arch_prctl_op(0x1004), Ok(ArchPrctlCode::GetGs));
    assert_eq!(arch_prctl_op(0x1011), Err(SyscallError::ENOSYS));
    assert_eq!(arch_prctl_op(0x1012), Err(SyscallError::ENOSYS));
    assert_eq!(arch_prctl_op(0), Err(SyscallError::ENOSYS));
}

#[test]
fn wait_flags() {
    assert!(WaitFlags::from_bits(1).unwrap().is_nohang());
    assert!(!WaitFlags::from_bits(2).unwrap().is_nohang());
    assert_eq!(WaitFlags::from_bits(4), None);
    assert_eq!(WaitFlags::from_bits_truncate(0x5).bits(), 1);
    let all = WaitFlags::from_bits(0xC000_000B).unwrap();
    assert!(all.contains(WaitFlags::from_bits(0x8000_0001).unwrap()));
    assert!(!WaitFlags::from_bits(1).unwrap().contains(all));
}

#[test]
fn signal_numbers() {
    assert_eq!(SignalNo::from(9usize), SignalNo::SIGKILL);
    assert_eq!(SignalNo::from(17usize), SignalNo::SIGCHLD);
    assert_eq!(SignalNo::from(32usize), SignalNo::SIGRTMIN);
    assert_eq!(SignalNo::from(63usize), SignalNo::SIGRT31);
    assert_eq!(SignalNo::from(0usize), SignalNo::ERR);
    assert_eq!(SignalNo::from(64usize), SignalNo::ERR);
    assert_eq!(SignalNo::SIGTERM.num(), 15);
    for n in 0..64usize {
        assert_eq!(SignalNo::from_num(n).num(), n);
    }
}
