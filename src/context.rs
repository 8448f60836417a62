use vstd::prelude::*;

verus! {

/// Index of the stack pointer among the general registers.
pub const SP_REG: usize = 2;

/// Index of the first argument and return-value register.
pub const A0_REG: usize = 10;

/// Length in bytes of the system-call instruction.
pub const SYSCALL_INSN_LEN: usize = 4;

/// Status bits of a fresh user context: interrupts enabled on return to user
/// mode, and supervisor access to user memory permitted.
pub const USER_SSTATUS: usize = 0x40020;

/// The user-mode registers saved when a task enters the kernel.
#[derive(Clone, Copy, Debug)]
pub struct TrapFrame {
    /// The general registers, by number.
    pub regs: [usize; 32],
    /// The user program counter.
    pub sepc: usize,
    /// The saved supervisor status word.
    pub sstatus: usize,
}

/// `pc` moved past the system-call instruction, modulo the address width.
pub open spec fn next_pc(pc: usize) -> usize {
    if pc + SYSCALL_INSN_LEN <= usize::MAX {
        (pc + SYSCALL_INSN_LEN) as usize
    } else {
        (pc + SYSCALL_INSN_LEN - usize::MAX - 1) as usize
    }
}

/// The stack pointer a cloned child starts with: the new stack where one was
/// given, else the parent's own.
pub open spec fn child_sp(parent: TrapFrame, stack: Option<usize>) -> usize {
    match stack {
        Some(s) => s,
        None => parent.regs@[SP_REG as int],
    }
}

/// The trap frame a cloned child starts from: the parent's, with the return
/// value zero, the program counter past the system call, and the stack
/// pointer replaced where a new stack was given.
pub open spec fn is_cloned_frame(child: TrapFrame, parent: TrapFrame, stack: Option<usize>) -> bool {
    &&& child.regs@ == parent.regs@.update(A0_REG as int, 0usize).update(
        SP_REG as int,
        child_sp(parent, stack),
    )
    &&& child.sepc == next_pc(parent.sepc)
    &&& child.sstatus == parent.sstatus
}

impl TrapFrame {
    /// The saved stack pointer.
    pub fn sp(&self) -> (r: usize)
        ensures
            r == self.regs@[SP_REG as int],
    {
        self.regs[SP_REG]
    }

    /// The saved return-value register.
    pub fn ret_code(&self) -> (r: usize)
        ensures
            r == self.regs@[A0_REG as int],
    {
        self.regs[A0_REG]
    }
}

/// Derives the frame a cloned child resumes from out of the parent's saved
/// frame: the child sees a return value of zero, continues after the system
/// call, and runs on `stack` where one is given.
pub fn provision_clone(parent: &TrapFrame, stack: Option<usize>) -> (r: TrapFrame)
    ensures
        is_cloned_frame(r, *parent, stack),
{
    let mut tf = *parent;
    tf.regs[A0_REG] = 0;
    tf.sepc = parent.sepc.wrapping_add(SYSCALL_INSN_LEN);
    if let Some(sp) = stack {
        tf.regs[SP_REG] = sp;
    }
    proof {
        assert(tf.regs@ =~= parent.regs@.update(A0_REG as int, 0usize).update(
            SP_REG as int,
            child_sp(*parent, stack),
        ));
    }
    tf
}

/// The context in which a task begins or resumes user-mode execution.
#[derive(Clone, Copy, Debug)]
pub struct UspaceContext {
    /// The registers loaded on entry to user mode.
    pub tf: TrapFrame,
}

impl UspaceContext {
    /// A fresh context that starts at `entry` on the stack `ustack_top`, with
    /// `arg0` in the first argument register and every other register zero.
    pub fn new(entry: usize, ustack_top: usize, arg0: usize) -> (r: UspaceContext)
        ensures
            r.tf.sepc == entry,
            r.tf.sstatus == USER_SSTATUS,
            r.tf.regs@ == Seq::new(32, |i: int| 0usize).update(SP_REG as int, ustack_top).update(
                A0_REG as int,
                arg0,
            ),
    {
        let mut regs = [0usize; 32];
        regs[SP_REG] = ustack_top;
        regs[A0_REG] = arg0;
        let r = UspaceContext { tf: TrapFrame { regs, sepc: entry, sstatus: USER_SSTATUS } };
        proof {
            assert(r.tf.regs@ =~= Seq::new(32, |i: int| 0usize).update(SP_REG as int, ustack_top).update(
                A0_REG as int,
                arg0,
            ));
        }
        r
    }

    /// The context that resumes user mode with the registers of `tf`.
    pub fn from_trap_frame(tf: &TrapFrame) -> (r: UspaceContext)
        ensures
            r.tf == *tf,
    {
        UspaceContext { tf: *tf }
    }

    /// The user entry point.
    pub fn get_ip(&self) -> (r: usize)
        ensures
            r == self.tf.sepc,
    {
        self.tf.sepc
    }

    /// The user stack pointer.
    pub fn get_sp(&self) -> (r: usize)
        ensures
            r == self.tf.regs@[SP_REG as int],
    {
        self.tf.sp()
    }
}

} // verus!
