use vstd::prelude::*;

verus! {

/// Outcome of one search of a process's children for a child to reap.
#[derive(Debug, Clone, Copy, PartialEq, Eq, Structural)]
pub enum WaitStatus {
    /// A matching child has exited.
    Exited,
    /// A matching child exists but none of them has exited.
    Running,
    /// No child matches.
    NotExist,
}

/// Wait option: return at once instead of waiting for a child.
pub const WNOHANG: u32 = 0x1;

/// Wait option: report stopped children.
pub const WIMTRACED: u32 = 0x2;

/// Wait option: report continued children.
pub const WCONTINUED: u32 = 0x8;

/// Wait option: wait for any child.
pub const WALL: u32 = 0x4000_0000;

/// Wait option: wait for cloned children only.
pub const WCLONE: u32 = 0x8000_0000;

/// Every wait option bit that has a name.
pub const WAIT_ALL_BITS: u32 = 0xC000_000B;

/// A set of wait options.
#[derive(Debug, Clone, Copy, PartialEq, Eq, Structural)]
pub struct WaitFlags {
    bits: u32,
}

impl WaitFlags {
    /// The option bits of this set.
    pub closed spec fn spec_bits(self) -> u32 {
        self.bits
    }

    /// The set of options `bits`, or `None` where a bit has no name.
    pub fn from_bits(bits: u32) -> (r: Option<WaitFlags>)
        ensures
            r is Some <==> bits & !WAIT_ALL_BITS == 0,
            r matches Some(f) ==> f.spec_bits() == bits,
    {
        if bits & !WAIT_ALL_BITS == 0 {
            Some(WaitFlags { bits })
        } else {
            None
        }
    }

    /// The set of named options among `bits`; the other bits are dropped.
    pub fn from_bits_truncate(bits: u32) -> (r: WaitFlags)
        ensures
            r.spec_bits() == bits & WAIT_ALL_BITS,
    {
        WaitFlags { bits: bits & WAIT_ALL_BITS }
    }

    /// The option bits of this set.
    pub fn bits(&self) -> (r: u32)
        ensures
            r == self.spec_bits(),
    {
        self.bits
    }

    /// Whether every option of `other` is in this set.
    pub fn contains(&self, other: WaitFlags) -> (r: bool)
        ensures
            r == (self.spec_bits() & other.spec_bits() == other.spec_bits()),
    {
        self.bits & other.bits == other.bits
    }

    /// Whether this set asks not to wait for a child.
    pub fn is_nohang(&self) -> (r: bool)
        ensures
            r == (self.spec_bits() & WNOHANG != 0),
    {
        self.bits & WNOHANG != 0
    }
}

/// The errors that the process syscalls report.
#[allow(non_camel_case_types)]
#[derive(Debug, Clone, Copy, PartialEq, Eq, Structural)]
pub enum SyscallError {
    /// No child process matches.
    ECHILD,
    /// A task could not be allocated.
    ENOMEM,
    /// The operation is not implemented.
    ENOSYS,
}

/// The Linux errno value of an error.
pub open spec fn errno(e: SyscallError) -> i32 {
    match e {
        SyscallError::ECHILD => 10,
        SyscallError::ENOMEM => 12,
        SyscallError::ENOSYS => 38,
    }
}

/// Relies on axerrno's `LinuxError::code`, which gives the errno value of
/// `LinuxError::ECHILD`, `ENOMEM` and `ENOSYS`.
#[verifier::external_body]
fn linux_code(e: SyscallError) -> (r: i32)
    ensures
        r == errno(e),
{
    match e {
        SyscallError::ECHILD => axerrno::LinuxError::ECHILD.code(),
        SyscallError::ENOMEM => axerrno::LinuxError::ENOMEM.code(),
        SyscallError::ENOSYS => axerrno::LinuxError::ENOSYS.code(),
    }
}

/// The integer a syscall returns for a result: the value on success, the
/// negated errno value on failure.
pub open spec fn syscall_value(r: Result<isize, SyscallError>) -> isize {
    match r {
        Ok(v) => v,
        Err(e) => (-errno(e)) as isize,
    }
}

impl SyscallError {
    /// The Linux errno value of this error.
    pub fn code(self) -> (r: i32)
        ensures
            r == errno(self),
    {
        linux_code(self)
    }
}

/// Maps a syscall's outcome to the integer handed back to user mode.
pub fn syscall_ret(r: Result<isize, SyscallError>) -> (v: isize)
    ensures
        v == syscall_value(r),
{
    match r {
        Ok(v) => v,
        Err(e) => -(e.code() as isize),
    }
}

/// The thread-pointer operations of `arch_prctl`.
#[derive(Debug, Clone, Copy, PartialEq, Eq, Structural)]
pub enum ArchPrctlCode {
    /// Set the GS segment base.
    SetGs,
    /// Set the FS segment base.
    SetFs,
    /// Get the FS segment base.
    GetFs,
    /// Get the GS segment base.
    GetGs,
    /// Read the setting of the cpuid flag.
    GetCpuid,
    /// Enable or disable the cpuid instruction.
    SetCpuid,
}

/// The `arch_prctl` operation numbered `code`.
pub open spec fn arch_prctl_code(code: i32) -> Option<ArchPrctlCode> {
    if code == 0x1001 {
        Some(ArchPrctlCode::SetGs)
    } else if code == 0x1002 {
        Some(ArchPrctlCode::SetFs)
    } else if code == 0x1003 {
        Some(ArchPrctlCode::GetFs)
    } else if code == 0x1004 {
        Some(ArchPrctlCode::GetGs)
    } else if code == 0x1011 {
        Some(ArchPrctlCode::GetCpuid)
    } else if code == 0x1012 {
        Some(ArchPrctlCode::SetCpuid)
    } else {
        None
    }
}

impl ArchPrctlCode {
    /// The operation numbered `code`, if any.
    pub fn try_from_code(code: i32) -> (r: Option<ArchPrctlCode>)
        ensures
            r == arch_prctl_code(code),
    {
        match code {
            0x1001 => Some(ArchPrctlCode::SetGs),
            0x1002 => Some(ArchPrctlCode::SetFs),
            0x1003 => Some(ArchPrctlCode::GetFs),
            0x1004 => Some(ArchPrctlCode::GetGs),
            0x1011 => Some(ArchPrctlCode::GetCpuid),
            0x1012 => Some(ArchPrctlCode::SetCpuid),
            _ => None,
        }
    }

    /// Whether the operation is carried out: the four thread-pointer
    /// operations are, the cpuid ones are not.
    pub open spec fn spec_is_supported(self) -> bool {
        match self {
            ArchPrctlCode::GetCpuid | ArchPrctlCode::SetCpuid => false,
            _ => true,
        }
    }
}

/// Decides which thread-pointer operation an `arch_prctl` call asks for: the
/// operation where it is one of the four supported, else `ENOSYS`.
pub fn arch_prctl_op(code: i32) -> (r: Result<ArchPrctlCode, SyscallError>)
    ensures
        match arch_prctl_code(code) {
            Some(op) if op.spec_is_supported() => r == Ok::<ArchPrctlCode, SyscallError>(op),
            _ => r == Err::<ArchPrctlCode, SyscallError>(SyscallError::ENOSYS),
        },
{
    match ArchPrctlCode::try_from_code(code) {
        Some(ArchPrctlCode::GetCpuid) | Some(ArchPrctlCode::SetCpuid) | None => Err(
            SyscallError::ENOSYS,
        ),
        Some(op) => Ok(op),
    }
}

} // verus!
