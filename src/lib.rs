//! Process control for a monolithic kernel: process identity, the
//! parent/child tree, clone, exit and reaping, and the integer return
//! convention of the process syscalls.
pub mod context;
pub mod flags;
pub mod laws;
pub mod signal;
pub mod syscall;
pub mod task;

pub use context::{provision_clone, TrapFrame, UspaceContext};
pub use flags::{SyscallError, WaitFlags, WaitStatus};
pub use signal::SignalNo;
pub use syscall::{sys_clone, sys_wait4, Wait4Reply};
pub use task::{spawn_user_task, wait_pid, AddrSpaceRef, ProcessTable, Task, TaskExt};
