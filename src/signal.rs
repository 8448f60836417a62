use vstd::prelude::*;

verus! {

/// The number of signal numbers, the invalid one included.
pub const MAX_SIG_NUM: usize = 64;

/// A signal number: 0 is the invalid sentinel, 1 to 31 are the standard
/// signals and 32 to 63 the real-time ones.
#[allow(missing_docs)]
#[derive(Eq, PartialEq, Structural, Debug, Copy, Clone)]
pub enum SignalNo {
    ERR,
    SIGHUP,
    SIGINT,
    SIGQUIT,
    SIGILL,
    SIGTRAP,
    SIGABRT,
    SIGBUS,
    SIGFPE,
    SIGKILL,
    SIGUSR1,
    SIGSEGV,
    SIGUSR2,
    SIGPIPE,
    SIGALRM,
    SIGTERM,
    SIGSTKFLT,
    SIGCHLD,
    SIGCONT,
    SIGSTOP,
    SIGTSTP,
    SIGTTIN,
    SIGTTOU,
    SIGURG,
    SIGXCPU,
    SIGXFSZ,
    SIGVTALRM,
    SIGPROF,
    SIGWINCH,
    SIGIO,
    SIGPWR,
    SIGSYS,
    SIGRTMIN,
    SIGRT1,
    SIGRT2,
    SIGRT3,
    SIGRT4,
    SIGRT5,
    SIGRT6,
    SIGRT7,
    SIGRT8,
    SIGRT9,
    SIGRT10,
    SIGRT11,
    SIGRT12,
    SIGRT13,
    SIGRT14,
    SIGRT15,
    SIGRT16,
    SIGRT17,
    SIGRT18,
    SIGRT19,
    SIGRT20,
    SIGRT21,
    SIGRT22,
    SIGRT23,
    SIGRT24,
    SIGRT25,
    SIGRT26,
    SIGRT27,
    SIGRT28,
    SIGRT29,
    SIGRT30,
    SIGRT31,
}

/// The number that a signal stands for.
pub open spec fn signal_num(s: SignalNo) -> nat {
    match s {
        SignalNo::ERR => 0,
        SignalNo::SIGHUP => 1,
        SignalNo::SIGINT => 2,
        SignalNo::SIGQUIT => 3,
        SignalNo::SIGILL => 4,
        SignalNo::SIGTRAP => 5,
        SignalNo::SIGABRT => 6,
        SignalNo::SIGBUS => 7,
        SignalNo::SIGFPE => 8,
        SignalNo::SIGKILL => 9,
        SignalNo::SIGUSR1 => 10,
        SignalNo::SIGSEGV => 11,
        SignalNo::SIGUSR2 => 12,
        SignalNo::SIGPIPE => 13,
        SignalNo::SIGALRM => 14,
        SignalNo::SIGTERM => 15,
        SignalNo::SIGSTKFLT => 16,
        SignalNo::SIGCHLD => 17,
        SignalNo::SIGCONT => 18,
        SignalNo::SIGSTOP => 19,
        SignalNo::SIGTSTP => 20,
        SignalNo::SIGTTIN => 21,
        SignalNo::SIGTTOU => 22,
        SignalNo::SIGURG => 23,
        SignalNo::SIGXCPU => 24,
        SignalNo::SIGXFSZ => 25,
        SignalNo::SIGVTALRM => 26,
        SignalNo::SIGPROF => 27,
        SignalNo::SIGWINCH => 28,
        SignalNo::SIGIO => 29,
        SignalNo::SIGPWR => 30,
        SignalNo::SIGSYS => 31,
        SignalNo::SIGRTMIN => 32,
        SignalNo::SIGRT1 => 33,
        SignalNo::SIGRT2 => 34,
        SignalNo::SIGRT3 => 35,
        SignalNo::SIGRT4 => 36,
        SignalNo::SIGRT5 => 37,
        SignalNo::SIGRT6 => 38,
        SignalNo::SIGRT7 => 39,
        SignalNo::SIGRT8 => 40,
        SignalNo::SIGRT9 => 41,
        SignalNo::SIGRT10 => 42,
        SignalNo::SIGRT11 => 43,
        SignalNo::SIGRT12 => 44,
        SignalNo::SIGRT13 => 45,
        SignalNo::SIGRT14 => 46,
        SignalNo::SIGRT15 => 47,
        SignalNo::SIGRT16 => 48,
        SignalNo::SIGRT17 => 49,
        SignalNo::SIGRT18 => 50,
        SignalNo::SIGRT19 => 51,
        SignalNo::SIGRT20 => 52,
        SignalNo::SIGRT21 => 53,
        SignalNo::SIGRT22 => 54,
        SignalNo::SIGRT23 => 55,
        SignalNo::SIGRT24 => 56,
        SignalNo::SIGRT25 => 57,
        SignalNo::SIGRT26 => 58,
        SignalNo::SIGRT27 => 59,
        SignalNo::SIGRT28 => 60,
        SignalNo::SIGRT29 => 61,
        SignalNo::SIGRT30 => 62,
        SignalNo::SIGRT31 => 63,
    }
}

impl SignalNo {
    /// The number of this signal.
    pub fn num(self) -> (r: usize)
        ensures
            r as nat == signal_num(self),
            r < MAX_SIG_NUM,
    {
        match self {
            SignalNo::ERR => 0,
            SignalNo::SIGHUP => 1,
            SignalNo::SIGINT => 2,
            SignalNo::SIGQUIT => 3,
            SignalNo::SIGILL => 4,
            SignalNo::SIGTRAP => 5,
            SignalNo::SIGABRT => 6,
            SignalNo::SIGBUS => 7,
            SignalNo::SIGFPE => 8,
            SignalNo::SIGKILL => 9,
            SignalNo::SIGUSR1 => 10,
            SignalNo::SIGSEGV => 11,
            SignalNo::SIGUSR2 => 12,
            SignalNo::SIGPIPE => 13,
            SignalNo::SIGALRM => 14,
            SignalNo::SIGTERM => 15,
            SignalNo::SIGSTKFLT => 16,
            SignalNo::SIGCHLD => 17,
            SignalNo::SIGCONT => 18,
            SignalNo::SIGSTOP => 19,
            SignalNo::SIGTSTP => 20,
            SignalNo::SIGTTIN => 21,
            SignalNo::SIGTTOU => 22,
            SignalNo::SIGURG => 23,
            SignalNo::SIGXCPU => 24,
            SignalNo::SIGXFSZ => 25,
            SignalNo::SIGVTALRM => 26,
            SignalNo::SIGPROF => 27,
            SignalNo::SIGWINCH => 28,
            SignalNo::SIGIO => 29,
            SignalNo::SIGPWR => 30,
            SignalNo::SIGSYS => 31,
            SignalNo::SIGRTMIN => 32,
            SignalNo::SIGRT1 => 33,
            SignalNo::SIGRT2 => 34,
            SignalNo::SIGRT3 => 35,
            SignalNo::SIGRT4 => 36,
            SignalNo::SIGRT5 => 37,
            SignalNo::SIGRT6 => 38,
            SignalNo::SIGRT7 => 39,
            SignalNo::SIGRT8 => 40,
            SignalNo::SIGRT9 => 41,
            SignalNo::SIGRT10 => 42,
            SignalNo::SIGRT11 => 43,
            SignalNo::SIGRT12 => 44,
            SignalNo::SIGRT13 => 45,
            SignalNo::SIGRT14 => 46,
            SignalNo::SIGRT15 => 47,
            SignalNo::SIGRT16 => 48,
            SignalNo::SIGRT17 => 49,
            SignalNo::SIGRT18 => 50,
            SignalNo::SIGRT19 => 51,
            SignalNo::SIGRT20 => 52,
            SignalNo::SIGRT21 => 53,
            SignalNo::SIGRT22 => 54,
            SignalNo::SIGRT23 => 55,
            SignalNo::SIGRT24 => 56,
            SignalNo::SIGRT25 => 57,
            SignalNo::SIGRT26 => 58,
            SignalNo::SIGRT27 => 59,
            SignalNo::SIGRT28 => 60,
            SignalNo::SIGRT29 => 61,
            SignalNo::SIGRT30 => 62,
            SignalNo::SIGRT31 => 63,
        }
    }

    /// The signal with number `num`, or `ERR` where no signal has that number.
    pub fn from_num(num: usize) -> (r: SignalNo)
        ensures
            r == signal_of(num),
            num < MAX_SIG_NUM ==> signal_num(r) == num,
            num >= MAX_SIG_NUM ==> r == SignalNo::ERR,
    {
        let r = match num {
            1 => SignalNo::SIGHUP,
            2 => SignalNo::SIGINT,
            3 => SignalNo::SIGQUIT,
            4 => SignalNo::SIGILL,
            5 => SignalNo::SIGTRAP,
            6 => SignalNo::SIGABRT,
            7 => SignalNo::SIGBUS,
            8 => SignalNo::SIGFPE,
            9 => SignalNo::SIGKILL,
            10 => SignalNo::SIGUSR1,
            11 => SignalNo::SIGSEGV,
            12 => SignalNo::SIGUSR2,
            13 => SignalNo::SIGPIPE,
            14 => SignalNo::SIGALRM,
            15 => SignalNo::SIGTERM,
            16 => SignalNo::SIGSTKFLT,
            17 => SignalNo::SIGCHLD,
            18 => SignalNo::SIGCONT,
            19 => SignalNo::SIGSTOP,
            20 => SignalNo::SIGTSTP,
            21 => SignalNo::SIGTTIN,
            22 => SignalNo::SIGTTOU,
            23 => SignalNo::SIGURG,
            24 => SignalNo::SIGXCPU,
            25 => SignalNo::SIGXFSZ,
            26 => SignalNo::SIGVTALRM,
            27 => SignalNo::SIGPROF,
            28 => SignalNo::SIGWINCH,
            29 => SignalNo::SIGIO,
            30 => SignalNo::SIGPWR,
            31 => SignalNo::SIGSYS,
            32 => SignalNo::SIGRTMIN,
            33 => SignalNo::SIGRT1,
            34 => SignalNo::SIGRT2,
            35 => SignalNo::SIGRT3,
            36 => SignalNo::SIGRT4,
            37 => SignalNo::SIGRT5,
            38 => SignalNo::SIGRT6,
            39 => SignalNo::SIGRT7,
            40 => SignalNo::SIGRT8,
            41 => SignalNo::SIGRT9,
            42 => SignalNo::SIGRT10,
            43 => SignalNo::SIGRT11,
            44 => SignalNo::SIGRT12,
            45 => SignalNo::SIGRT13,
            46 => SignalNo::SIGRT14,
            47 => SignalNo::SIGRT15,
            48 => SignalNo::SIGRT16,
            49 => SignalNo::SIGRT17,
            50 => SignalNo::SIGRT18,
            51 => SignalNo::SIGRT19,
            52 => SignalNo::SIGRT20,
            53 => SignalNo::SIGRT21,
            54 => SignalNo::SIGRT22,
            55 => SignalNo::SIGRT23,
            56 => SignalNo::SIGRT24,
            57 => SignalNo::SIGRT25,
            58 => SignalNo::SIGRT26,
            59 => SignalNo::SIGRT27,
            60 => SignalNo::SIGRT28,
            61 => SignalNo::SIGRT29,
            62 => SignalNo::SIGRT30,
            63 => SignalNo::SIGRT31,
            _ => SignalNo::ERR,
        };
        proof {
            if num < MAX_SIG_NUM {
                let c = choose|s: SignalNo| signal_num(s) == num;
                assert(signal_num(r) == num);
                lemma_signal_num_injective(c, r);
            }
        }
        r
    }
}

impl From<usize> for SignalNo {
    fn from(num: usize) -> (r: SignalNo) {
        SignalNo::from_num(num)
    }
}

impl vstd::std_specs::convert::FromSpecImpl<usize> for SignalNo {
    open spec fn obeys_from_spec() -> bool {
        true
    }

    open spec fn from_spec(num: usize) -> SignalNo {
        signal_of(num)
    }
}

/// The signal that `num` converts to: the one with that number, or `ERR`.
pub open spec fn signal_of(num: usize) -> SignalNo {
    if num < MAX_SIG_NUM {
        choose|s: SignalNo| signal_num(s) == num
    } else {
        SignalNo::ERR
    }
}

/// Distinct signals have distinct numbers.
pub proof fn lemma_signal_num_injective(a: SignalNo, b: SignalNo)
    requires
        signal_num(a) == signal_num(b),
    ensures
        a == b,
{
}

} // verus!
