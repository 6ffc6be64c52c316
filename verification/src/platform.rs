//! The system a process runs on: its operating system, its processor, the numbers
//! its C library gives to signals and flags, and the signals that become traps.

use crate::sys;
use vstd::prelude::*;

verus! {

/// An operating system that traps are handled on.
#[derive(Clone, Copy, Debug, PartialEq, Eq, Structural)]
pub enum Os {
    Linux,
    Android,
    Macos,
    Freebsd,
    Openbsd,
}

/// A processor architecture that traps are handled on.
#[derive(Clone, Copy, Debug, PartialEq, Eq, Structural)]
pub enum Arch {
    X86_64,
    Aarch64,
    S390x,
    Riscv64,
}

/// The numbers that a system's C library gives to the signals and flags of this
/// crate.
#[derive(Clone, Copy, Debug, PartialEq, Eq, Structural)]
pub struct SignalAbi {
    pub sigsegv: i32,
    pub sigill: i32,
    pub sigfpe: i32,
    pub sigbus: i32,
    pub sa_siginfo: i32,
    pub sa_nodefer: i32,
    pub sa_onstack: i32,
    pub sig_dfl: usize,
    pub sig_ign: usize,
    pub ss_disable: i32,
}

impl SignalAbi {
    /// The numbers can be told apart: no two signals share one, the two special
    /// dispositions differ, and the flag of a handler with three arguments is a
    /// flag at all.
    pub open spec fn wf(self) -> bool {
        &&& self.sigsegv != self.sigill
        &&& self.sigsegv != self.sigfpe
        &&& self.sigsegv != self.sigbus
        &&& self.sigill != self.sigfpe
        &&& self.sigill != self.sigbus
        &&& self.sigfpe != self.sigbus
        &&& self.sig_dfl != self.sig_ign
        &&& self.sa_siginfo != 0
    }

    /// The numbers are those of Linux and Android.
    pub open spec fn is_of_linux(self) -> bool {
        self == (SignalAbi {
            sigsegv: 11,
            sigill: 4,
            sigfpe: 8,
            sigbus: 7,
            sa_siginfo: 0x4,
            sa_nodefer: 0x4000_0000,
            sa_onstack: 0x0800_0000,
            sig_dfl: 0,
            sig_ign: 1,
            ss_disable: 2,
        })
    }

    /// The numbers are those of macOS, FreeBSD and OpenBSD.
    pub open spec fn is_of_bsd(self) -> bool {
        self == (SignalAbi {
            sigsegv: 11,
            sigill: 4,
            sigfpe: 8,
            sigbus: 10,
            sa_siginfo: 0x40,
            sa_nodefer: 0x10,
            sa_onstack: 0x1,
            sig_dfl: 0,
            sig_ign: 1,
            ss_disable: 4,
        })
    }

    /// The numbers are those of an operating system.
    pub open spec fn is_of(self, os: Os) -> bool {
        if os == Os::Linux || os == Os::Android {
            self.is_of_linux()
        } else {
            self.is_of_bsd()
        }
    }

    /// The numbers are those of a supported system.
    pub open spec fn is_of_supported_system(self) -> bool {
        self.is_of_linux() || self.is_of_bsd()
    }

    /// The numbers of the system that the crate is compiled for.
    pub fn host() -> (abi: SignalAbi)
        ensures
            abi.is_of_supported_system(),
            abi.wf(),
    {
        let differing = sys::differing_numbers();
        SignalAbi {
            sigsegv: sys::sigsegv(),
            sigill: sys::sigill(),
            sigfpe: sys::sigfpe(),
            sigbus: differing.sigbus,
            sa_siginfo: differing.sa_siginfo,
            sa_nodefer: differing.sa_nodefer,
            sa_onstack: differing.sa_onstack,
            sig_dfl: sys::sig_dfl(),
            sig_ign: sys::sig_ign(),
            ss_disable: differing.ss_disable,
        }
    }
}

/// The number of `SIGBUS` on Linux and Android, by which their numbers are told from
/// those of the other systems.
const LINUX_SIGBUS: i32 = 7;

/// The system that a process runs on.
#[derive(Clone, Copy, Debug, PartialEq, Eq, Structural)]
pub struct Platform {
    pub os: Os,
    pub arch: Arch,
    pub abi: SignalAbi,
}

impl Platform {
    /// The platform with the given operating system, processor and numbers, if the numbers
    /// are those of the operating system.
    pub fn new(os: Os, arch: Arch, abi: SignalAbi) -> (platform: Option<Platform>)
        requires
            abi.is_of_supported_system(),
        ensures
            platform == if abi.is_of(os) {
                Some(Platform { os, arch, abi })
            } else {
                None
            },
    {
        let linux_os: bool = os == Os::Linux || os == Os::Android;
        let linux_abi: bool = abi.sigbus == LINUX_SIGBUS;
        if linux_os == linux_abi {
            Some(Platform { os, arch, abi })
        } else {
            None
        }
    }

    /// The platform with the given operating system and processor, if the numbers of the
    /// system that the crate is compiled for are those of the operating system.
    pub fn host(os: Os, arch: Arch) -> (platform: Option<Platform>)
        ensures
            platform matches Some(p) ==> {
                &&& p.os == os
                &&& p.arch == arch
                &&& p.abi.is_of(os)
                &&& p.abi.wf()
            },
    {
        Platform::new(os, arch, SignalAbi::host())
    }

    /// Whether division by zero is reported with `SIGFPE`: it is on x86-64 and on
    /// s390x.
    pub open spec fn division_raises_sigfpe(self) -> bool {
        self.arch == Arch::X86_64 || self.arch == Arch::S390x
    }

    /// Whether an access to a guard page may be reported with `SIGBUS`: macOS and
    /// FreeBSD do so.
    pub open spec fn guard_page_raises_sigbus(self) -> bool {
        self.os == Os::Macos || self.os == Os::Freebsd
    }

    /// The signals that get a handler on this platform, in the order in which their
    /// handlers are installed, and later removed.
    pub open spec fn handled_signals(self) -> Seq<Signal> {
        seq![Signal::Segv, Signal::Ill]
            + (if self.division_raises_sigfpe() { seq![Signal::Fpe] } else { seq![] })
            + (if self.guard_page_raises_sigbus() { seq![Signal::Bus] } else { seq![] })
    }

    /// Whether a signal gets a handler on this platform.
    pub open spec fn handles(self, signal: Signal) -> bool {
        match signal {
            Signal::Segv => true,
            Signal::Ill => true,
            Signal::Fpe => self.division_raises_sigfpe(),
            Signal::Bus => self.guard_page_raises_sigbus(),
        }
    }
}

/// A signal that may stand for a trap of compiled code.
#[derive(Clone, Copy, Debug, PartialEq, Eq, Structural)]
pub enum Signal {
    /// An access out of bounds.
    Segv,
    /// An `unreachable` instruction.
    Ill,
    /// A division by zero.
    Fpe,
    /// An access to a guard page, on some systems.
    Bus,
}

impl Signal {
    /// Whether this signal reports an access to memory, whose address is then known.
    pub open spec fn spec_reports_address(self) -> bool {
        self == Signal::Segv || self == Signal::Bus
    }

    /// Whether this signal reports an access to memory, whose address is then known.
    pub fn reports_address(self) -> (reports: bool)
        ensures
            reports == self.spec_reports_address(),
    {
        match self {
            Signal::Segv | Signal::Bus => true,
            _ => false,
        }
    }

    /// The number of this signal.
    pub open spec fn spec_number(self, abi: SignalAbi) -> i32 {
        match self {
            Signal::Segv => abi.sigsegv,
            Signal::Ill => abi.sigill,
            Signal::Fpe => abi.sigfpe,
            Signal::Bus => abi.sigbus,
        }
    }

    /// The number of this signal.
    pub fn number(self, abi: &SignalAbi) -> (signum: i32)
        ensures
            signum == self.spec_number(*abi),
    {
        match self {
            Signal::Segv => abi.sigsegv,
            Signal::Ill => abi.sigill,
            Signal::Fpe => abi.sigfpe,
            Signal::Bus => abi.sigbus,
        }
    }

    /// The signal with this number, and `None` where no trap comes with it.
    pub fn from_number(abi: &SignalAbi, signum: i32) -> (signal: Option<Signal>)
        requires
            abi.wf(),
        ensures
            forall|s: Signal| signal == Some(s) <==> #[trigger] s.spec_number(*abi) == signum,
            signal == Some(Signal::Segv) <==> signum == abi.sigsegv,
            signal == Some(Signal::Ill) <==> signum == abi.sigill,
            signal == Some(Signal::Fpe) <==> signum == abi.sigfpe,
            signal == Some(Signal::Bus) <==> signum == abi.sigbus,
    {
        let signal: Option<Signal> = if signum == abi.sigsegv {
            Some(Signal::Segv)
        } else if signum == abi.sigbus {
            Some(Signal::Bus)
        } else if signum == abi.sigfpe {
            Some(Signal::Fpe)
        } else if signum == abi.sigill {
            Some(Signal::Ill)
        } else {
            None
        };
        assert(forall|s: Signal| signal == Some(s) <==> #[trigger] s.spec_number(*abi) == signum);
        signal
    }
}

/// Lists the signals that get a handler on a platform, in the order of their
/// installation.
pub fn foreach_handler(platform: &Platform) -> (signals: Vec<Signal>)
    ensures
        signals@ == platform.handled_signals(),
{
    let mut signals: Vec<Signal> = Vec::new();
    // Accesses out of bounds are handled with signals on all architectures.
    signals.push(Signal::Segv);
    // An `unreachable` instruction executes `ud2` or its like.
    signals.push(Signal::Ill);
    // x86-64 and s390x report a division by zero with SIGFPE.
    if platform.arch == Arch::X86_64 || platform.arch == Arch::S390x {
        signals.push(Signal::Fpe);
    }
    // On Darwin and FreeBSD accesses to a guard page are raised as SIGBUS.
    if platform.os == Os::Macos || platform.os == Os::Freebsd {
        signals.push(Signal::Bus);
    }
    signals
}

/// Different signals have different numbers.
pub proof fn law_numbers_identify_signals(abi: SignalAbi, one: Signal, other: Signal)
    requires
        abi.wf(),
    ensures
        one.spec_number(abi) == other.spec_number(abi) <==> one == other,
{
}

/// Each signal that a platform handles is listed, no other is, and none is listed
/// twice.
pub proof fn law_handlers_listed_once(platform: Platform)
    ensures
        platform.handled_signals().no_duplicates(),
        forall|signal: Signal| #[trigger]
            platform.handled_signals().contains(signal) <==> platform.handles(signal),
{
    let signals = platform.handled_signals();
    assert forall|signal: Signal| platform.handles(signal) implies #[trigger] signals.contains(
        signal,
    ) by {
        match signal {
            Signal::Segv => assert(signals[0] == signal),
            Signal::Ill => assert(signals[1] == signal),
            Signal::Fpe => assert(signals[2] == signal),
            Signal::Bus => assert(signals[signals.len() - 1] == signal),
        }
    }
}

} // verus!
