//! Constants of the C library, read through the `libc` crate.
//!
//! Some of their numbers differ between systems. Each function here returns the
//! numbers that `libc` gives for the system that the crate is compiled for, and
//! claims of them only what `libc` shows for all the supported systems: Linux and
//! Android on one side, macOS, FreeBSD and OpenBSD on the other.

use vstd::prelude::*;

verus! {

/// `libc::SIGSEGV`, the signal of an invalid memory reference: `libc` defines it
/// as 11 on all the supported systems.
#[verifier::external_body]
pub(crate) fn sigsegv() -> (signum: i32)
    ensures
        signum == 11,
{
    libc::SIGSEGV
}

/// `libc::SIGILL`, the signal of an illegal instruction: `libc` defines it as 4
/// on all the supported systems.
#[verifier::external_body]
pub(crate) fn sigill() -> (signum: i32)
    ensures
        signum == 4,
{
    libc::SIGILL
}

/// `libc::SIGFPE`, the signal of an erroneous arithmetic operation: `libc` defines
/// it as 8 on all the supported systems.
#[verifier::external_body]
pub(crate) fn sigfpe() -> (signum: i32)
    ensures
        signum == 8,
{
    libc::SIGFPE
}

/// `libc::SIG_DFL`, which stands in place of a handler's address for the default
/// disposition: `libc` defines it as 0 on every Unix.
#[verifier::external_body]
pub(crate) fn sig_dfl() -> (handler: usize)
    ensures
        handler == 0,
{
    libc::SIG_DFL
}

/// `libc::SIG_IGN`, which stands in place of a handler's address where a signal is
/// ignored: `libc` defines it as 1 on every Unix.
#[verifier::external_body]
pub(crate) fn sig_ign() -> (handler: usize)
    ensures
        handler == 1,
{
    libc::SIG_IGN
}

/// The constants whose numbers differ between the supported systems.
#[derive(Clone, Copy)]
pub(crate) struct DifferingNumbers {
    pub sigbus: i32,
    pub sa_siginfo: i32,
    pub sa_nodefer: i32,
    pub sa_onstack: i32,
    pub ss_disable: i32,
}

/// `libc::SIGBUS`, the signal of an access to an undefined part of an object;
/// `libc::SA_SIGINFO`, the flag of a handler with three arguments; `libc::SA_NODEFER`,
/// the flag that leaves a signal unblocked while its handler runs; `libc::SA_ONSTACK`,
/// the flag of a handler that runs on the alternate stack; and `libc::SS_DISABLE`, the
/// flag of an alternate stack that is switched off.
///
/// `libc` defines them as 7, 4, 0x4000_0000, 0x0800_0000 and 2 on Linux and Android, and
/// as 10, 0x40, 0x10, 1 and 4 on the BSDs and macOS. They are read together because a
/// system has all of its numbers from the same one of these two rows. Which row it is
/// depends on the system that the crate is compiled for and is not said here.
#[verifier::external_body]
pub(crate) fn differing_numbers() -> (numbers: DifferingNumbers)
    ensures
        numbers == (DifferingNumbers {
            sigbus: 7,
            sa_siginfo: 0x4,
            sa_nodefer: 0x4000_0000,
            sa_onstack: 0x0800_0000,
            ss_disable: 2,
        }) || numbers == (DifferingNumbers {
            sigbus: 10,
            sa_siginfo: 0x40,
            sa_nodefer: 0x10,
            sa_onstack: 0x1,
            ss_disable: 4,
        }),
{
    DifferingNumbers {
        sigbus: libc::SIGBUS,
        sa_siginfo: libc::SA_SIGINFO,
        sa_nodefer: libc::SA_NODEFER,
        sa_onstack: libc::SA_ONSTACK,
        ss_disable: libc::SS_DISABLE,
    }
}

} // verus!
