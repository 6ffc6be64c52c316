//! What comes of a call, for any call of each function of the crate.
//!
//! A law here takes the arguments of a call and what the call returned, and says what the
//! one has to do with the other: over the fields of both, with the numbers and the tests
//! on bits written out. Where a function may be called only with some arguments, a law says
//! which ones suffice.

use crate::action::{Forward, PreviousActions, SigAction};
use crate::altstack::{self, StackAction, StackDescription, StackEvent, StackFailure, StackState};
use crate::context::{get_pc_and_fp, set_pc, MachineContext};
use crate::handlers::{ConfigError, InstallAction, InstallFailure, Installer, TrapHandler};
use crate::handlers::{UninstallAction, UninstallFailure, Uninstaller};
use crate::platform::{foreach_handler, Arch, Os, Platform, Signal, SignalAbi};
use crate::trap::{self, Delivery, TrapAction, TrapEvent, TrapState, TrapTest};
use vstd::prelude::*;

verus! {

/// A signal is said to report an address exactly if it is `SIGSEGV` or `SIGBUS`.
pub proof fn law_reports_address(signal: Signal, reports: bool)
    requires
        call_ensures(Signal::reports_address, (signal,), reports),
    ensures
        reports <==> signal == Signal::Segv || signal == Signal::Bus,
{
}

/// The number of a signal is the one that the C library gives to it.
pub proof fn law_number(signal: Signal, abi: SignalAbi, signum: i32)
    requires
        call_ensures(Signal::number, (signal, &abi), signum),
    ensures
        signal == Signal::Segv ==> signum == abi.sigsegv,
        signal == Signal::Ill ==> signum == abi.sigill,
        signal == Signal::Fpe ==> signum == abi.sigfpe,
        signal == Signal::Bus ==> signum == abi.sigbus,
{
}

/// A number is taken for the signal that the C library gives it to, and for none if it
/// gives it to none of the four.
pub proof fn law_from_number(abi: SignalAbi, signum: i32, signal: Option<Signal>)
    requires
        abi.wf(),
        call_ensures(Signal::from_number, (&abi, signum), signal),
    ensures
        signum == abi.sigsegv ==> signal == Some(Signal::Segv),
        signum == abi.sigill ==> signal == Some(Signal::Ill),
        signum == abi.sigfpe ==> signal == Some(Signal::Fpe),
        signum == abi.sigbus ==> signal == Some(Signal::Bus),
        signum != abi.sigsegv && signum != abi.sigill && signum != abi.sigfpe && signum
            != abi.sigbus ==> signal is None,
{
    match signal {
        Some(Signal::Segv) | Some(Signal::Ill) | Some(Signal::Fpe) | Some(Signal::Bus) => {},
        None => {},
    }
}

/// Any number can be asked for its signal, where the C library gives no number to two
/// signals.
pub proof fn law_from_number_takes_any_number(abi: SignalAbi, signum: i32)
    requires
        abi.sigsegv != abi.sigill && abi.sigsegv != abi.sigfpe && abi.sigsegv != abi.sigbus,
        abi.sigill != abi.sigfpe && abi.sigill != abi.sigbus && abi.sigfpe != abi.sigbus,
        abi.sig_dfl != abi.sig_ign && abi.sa_siginfo != 0,
    ensures
        call_requires(Signal::from_number, (&abi, signum)),
{
}

/// A number read back gives the signal whose number it is.
pub proof fn law_number_read_back(
    signal: Signal,
    abi: SignalAbi,
    signum: i32,
    read: Option<Signal>,
)
    requires
        abi.wf(),
        call_ensures(Signal::number, (signal, &abi), signum),
        call_ensures(Signal::from_number, (&abi, signum), read),
    ensures
        read == Some(signal),
{
}

/// The listed signals are `SIGSEGV` and `SIGILL`, then `SIGFPE` on x86-64 and s390x only,
/// then `SIGBUS` on macOS and FreeBSD only.
pub proof fn law_foreach_handler(platform: Platform, signals: Vec<Signal>)
    requires
        call_ensures(foreach_handler, (&platform,), signals),
    ensures
        ({
            let fpe = platform.arch == Arch::X86_64 || platform.arch == Arch::S390x;
            let bus = platform.os == Os::Macos || platform.os == Os::Freebsd;
            &&& !fpe && !bus ==> signals@ == seq![Signal::Segv, Signal::Ill]
            &&& fpe && !bus ==> signals@ == seq![Signal::Segv, Signal::Ill, Signal::Fpe]
            &&& !fpe && bus ==> signals@ == seq![Signal::Segv, Signal::Ill, Signal::Bus]
            &&& fpe && bus ==> signals@ == seq![
                Signal::Segv,
                Signal::Ill,
                Signal::Fpe,
                Signal::Bus,
            ]
        }),
{
}

/// The numbers of the host are one of the two sets, all of them from the same one.
pub proof fn law_abi_of_host(abi: SignalAbi)
    requires
        call_ensures(SignalAbi::host, (), abi),
    ensures
        abi.sigsegv == 11 && abi.sigill == 4 && abi.sigfpe == 8,
        abi.sig_dfl == 0 && abi.sig_ign == 1,
        abi.sigbus == 7 || abi.sigbus == 10,
        abi.sigbus == 7 ==> abi.sa_siginfo == 0x4 && abi.sa_nodefer == 0x4000_0000
            && abi.sa_onstack == 0x0800_0000 && abi.ss_disable == 2,
        abi.sigbus == 10 ==> abi.sa_siginfo == 0x40 && abi.sa_nodefer == 0x10 && abi.sa_onstack
            == 0x1 && abi.ss_disable == 4,
{
}

/// A platform is made of what it is asked for, exactly if the numbers fit the operating
/// system: `SIGBUS` is 7 on Linux and Android, and 10 on macOS, FreeBSD and OpenBSD.
pub proof fn law_new_platform(os: Os, arch: Arch, abi: SignalAbi, platform: Option<Platform>)
    requires
        abi.is_of_supported_system(),
        call_ensures(Platform::new, (os, arch, abi), platform),
    ensures
        call_requires(Platform::new, (os, arch, abi)),
        platform matches Some(p) ==> p.os == os && p.arch == arch && p.abi == abi,
        os == Os::Linux || os == Os::Android ==> (platform is Some <==> abi.sigbus == 7),
        os == Os::Macos || os == Os::Freebsd || os == Os::Openbsd ==> (platform is Some
            <==> abi.sigbus == 10),
{
}

/// A platform of the host is one of the operating system and the processor that it is asked
/// for, with the numbers of that operating system.
pub proof fn law_platform_of_host(os: Os, arch: Arch, platform: Option<Platform>)
    requires
        call_ensures(Platform::host, (os, arch), platform),
    ensures
        platform matches Some(p) ==> {
            &&& p.os == os
            &&& p.arch == arch
            &&& p.abi.sigsegv == 11 && p.abi.sigill == 4 && p.abi.sigfpe == 8
            &&& p.abi.sig_dfl == 0 && p.abi.sig_ign == 1
            &&& os == Os::Linux || os == Os::Android ==> p.abi.sigbus == 7 && p.abi.sa_siginfo
                == 0x4 && p.abi.sa_nodefer == 0x4000_0000 && p.abi.sa_onstack == 0x0800_0000
                && p.abi.ss_disable == 2
            &&& os == Os::Macos || os == Os::Freebsd || os == Os::Openbsd ==> p.abi.sigbus == 10
                && p.abi.sa_siginfo == 0x40 && p.abi.sa_nodefer == 0x10 && p.abi.sa_onstack == 0x1
                && p.abi.ss_disable == 4
        },
{
}

/// The default disposition and the ignored one are set again as they were. Any other is a
/// handler, which is called with three arguments exactly if `SA_SIGINFO` is among its
/// flags, and with one exactly if it is not, whatever the other flags are.
pub proof fn law_forward<R: Copy>(action: SigAction<R>, abi: SignalAbi, forward: Forward<R>)
    requires
        call_ensures(SigAction::<R>::forward, (&action, &abi), forward),
    ensures
        ({
            let handled = action.sa_sigaction != abi.sig_dfl && action.sa_sigaction != abi.sig_ign;
            let siginfo = action.sa_flags & abi.sa_siginfo != 0;
            &&& forward is Reinstate <==> !handled
            &&& forward is CallSigaction <==> handled && siginfo
            &&& forward is CallHandler <==> handled && !siginfo
            &&& forward matches Forward::Reinstate { action: reinstated } ==> reinstated == action
            &&& forward matches Forward::CallSigaction { handler } ==> handler
                == action.sa_sigaction
            &&& forward matches Forward::CallHandler { handler } ==> handler == action.sa_sigaction
        }),
{
}

/// Two dispositions with one handler and one `SA_SIGINFO` bit are forwarded to alike.
pub proof fn law_forward_by_handler_and_siginfo<R: Copy>(
    one: SigAction<R>,
    other: SigAction<R>,
    abi: SignalAbi,
    forward_one: Forward<R>,
    forward_other: Forward<R>,
)
    requires
        one.sa_sigaction == other.sa_sigaction,
        one.sa_flags & abi.sa_siginfo == other.sa_flags & abi.sa_siginfo,
        call_ensures(SigAction::<R>::forward, (&one, &abi), forward_one),
        call_ensures(SigAction::<R>::forward, (&other, &abi), forward_other),
    ensures
        forward_one == forward_other || (forward_one is Reinstate && forward_other is Reinstate),
{
}

/// The disposition by which traps are handled has the given function and the given rest,
/// and its flags are the three that it needs, with no bit besides.
pub proof fn law_for_traps<R>(abi: SignalAbi, entry: usize, rest: R, action: SigAction<R>)
    requires
        call_ensures(SigAction::<R>::for_traps, (&abi, entry, rest), action),
    ensures
        action.sa_sigaction == entry,
        action.rest == rest,
        action.sa_flags == abi.sa_siginfo | abi.sa_nodefer | abi.sa_onstack,
{
}

/// New slots are all empty.
pub proof fn law_empty_slots<R>(slots: PreviousActions<R>)
    requires
        call_ensures(PreviousActions::<R>::empty, (), slots),
    ensures
        slots.sigsegv is None,
        slots.sigbus is None,
        slots.sigill is None,
        slots.sigfpe is None,
{
}

/// What is read for a signal is what its own slot holds.
pub proof fn law_get_slot<R: Copy>(
    slots: PreviousActions<R>,
    signal: Signal,
    action: Option<SigAction<R>>,
)
    requires
        call_ensures(PreviousActions::<R>::get, (&slots, signal), action),
    ensures
        signal == Signal::Segv ==> action == slots.sigsegv,
        signal == Signal::Bus ==> action == slots.sigbus,
        signal == Signal::Ill ==> action == slots.sigill,
        signal == Signal::Fpe ==> action == slots.sigfpe,
{
}

/// What is put in for a signal comes into its own slot, and no other slot changes.
pub proof fn law_set_slot<R: Copy>(signal: Signal, action: SigAction<R>)
    ensures
        forall|slots: &mut PreviousActions<R>|
            #![trigger call_ensures(PreviousActions::<R>::set, (slots, signal, action), ())]
            call_ensures(PreviousActions::<R>::set, (slots, signal, action), ()) ==> {
                let (before, after) = (*slots, *final(slots));
                let new = Some(action);
                &&& after.sigsegv == (if signal == Signal::Segv { new } else { before.sigsegv })
                &&& after.sigbus == (if signal == Signal::Bus { new } else { before.sigbus })
                &&& after.sigill == (if signal == Signal::Ill { new } else { before.sigill })
                &&& after.sigfpe == (if signal == Signal::Fpe { new } else { before.sigfpe })
            },
{
}

/// A context lacks an address to test only on s390x, and there only for a late signal at
/// address 0.
pub proof fn law_has_trap_pc(cx: MachineContext, signal: Signal, found: bool)
    requires
        call_ensures(MachineContext::has_trap_pc, (&cx, signal), found),
    ensures
        !found <==> (signal == Signal::Ill || signal == Signal::Fpe) && (cx
            matches MachineContext::LinuxS390x { psw_addr, .. } && psw_addr == 0),
{
}

/// Only contexts of macOS can be redirected, all of AArch64 and those of x86-64 with a
/// stack pointer that is not null.
pub proof fn law_can_resume(cx: MachineContext, can: bool)
    requires
        call_ensures(MachineContext::can_resume, (&cx,), can),
    ensures
        can <==> cx is MacosAarch64 || (cx matches MachineContext::MacosX86_64 { rsp, .. } && rsp
            != 0),
{
}

/// The address and the frame pointer of a context are all 64 bits of its registers. Only on
/// s390x, and there only for `SIGILL` and `SIGFPE`, is the address one less.
///
/// A register that the C library declares as signed has the same remainder as the address
/// that is read from it, after division by 2 to the 64.
pub proof fn law_get_pc_and_fp(cx: MachineContext, signal: Signal, pc_and_fp: (u64, u64))
    requires
        !((signal == Signal::Ill || signal == Signal::Fpe) && (cx
            matches MachineContext::LinuxS390x { psw_addr, .. } && psw_addr == 0)),
        call_ensures(get_pc_and_fp, (&cx, signal), pc_and_fp),
    ensures
        call_requires(get_pc_and_fp, (&cx, signal)),
        ({
            let (pc, fp) = pc_and_fp;
            let wrap = 0x1_0000_0000_0000_0000int;
            match cx {
                MachineContext::LinuxX86_64 { gregs } => {
                    &&& pc == gregs@[16] || pc == gregs@[16] + wrap
                    &&& fp == gregs@[10] || fp == gregs@[10] + wrap
                },
                MachineContext::LinuxAarch64 { pc: saved, regs } => pc == saved && fp == regs@[29],
                MachineContext::LinuxS390x { psw_addr, frame_word } => {
                    &&& signal == Signal::Segv || signal == Signal::Bus ==> pc == psw_addr
                    &&& signal == Signal::Ill || signal == Signal::Fpe ==> pc == psw_addr - 1
                    &&& fp == frame_word
                },
                MachineContext::LinuxRiscv64 { mc_gregs } => pc == mc_gregs@[0] && fp
                    == mc_gregs@[8],
                MachineContext::MacosX86_64 { rip, rbp, .. } => pc == rip && fp == rbp,
                MachineContext::MacosAarch64 { pc: saved, fp: saved_fp, .. } => pc == saved && fp
                    == saved_fp,
                MachineContext::FreebsdX86_64 { mc_rip, mc_rbp } => {
                    &&& pc == mc_rip || pc == mc_rip + wrap
                    &&& fp == mc_rbp || fp == mc_rbp + wrap
                },
                MachineContext::FreebsdAarch64 { gp_elr, gp_x } => {
                    &&& pc == gp_elr || pc == gp_elr + wrap
                    &&& fp == gp_x@[29] || fp == gp_x@[29] + wrap
                },
                MachineContext::OpenbsdX86_64 { sc_rip, sc_rbp } => {
                    &&& pc == sc_rip || pc == sc_rip + wrap
                    &&& fp == sc_rbp || fp == sc_rbp + wrap
                },
            }
        }),
{
}

/// Contexts of AArch64 Linux with different program counters give different addresses, and
/// those with different frame pointers give different frame pointers.
pub proof fn law_contexts_are_told_apart(
    one: MachineContext,
    other: MachineContext,
    signal: Signal,
    result_one: (u64, u64),
    result_other: (u64, u64),
)
    requires
        one is LinuxAarch64,
        other is LinuxAarch64,
        call_ensures(get_pc_and_fp, (&one, signal), result_one),
        call_ensures(get_pc_and_fp, (&other, signal), result_other),
    ensures
        result_one.0 == result_other.0 <==> one->LinuxAarch64_pc == other->LinuxAarch64_pc,
        result_one.1 == result_other.1 <==> one->regs@[29] == other->regs@[29],
{
}

/// A redirected context has the new address and the new argument in full and the frame
/// pointer that it had. On AArch64 no other register changes; on x86-64 the stack pointer is
/// moved down by 8 if it was a multiple of 16, and is left alone if it was not.
pub proof fn law_set_pc(pc: usize, arg1: usize)
    ensures
        forall|cx: &mut MachineContext|
            #![trigger call_ensures(set_pc, (cx, pc, arg1), ())]
            call_ensures(set_pc, (cx, pc, arg1), ()) && *cx is MacosX86_64 && (*cx)->rsp != 0
                ==> {
                &&& call_requires(set_pc, (cx, pc, arg1))
                &&& *final(cx) is MacosX86_64
                &&& (*final(cx))->rip == pc
                &&& (*final(cx))->rdi == arg1
                &&& (*final(cx))->rbp == (*cx)->rbp
                &&& (*cx)->rsp % 16 == 0 ==> (*final(cx))->rsp == (*cx)->rsp - 8
                &&& (*cx)->rsp % 16 != 0 ==> (*final(cx))->rsp == (*cx)->rsp
            },
        forall|cx: &mut MachineContext|
            #![trigger call_ensures(set_pc, (cx, pc, arg1), ())]
            call_ensures(set_pc, (cx, pc, arg1), ()) && *cx is MacosAarch64 ==> {
                &&& call_requires(set_pc, (cx, pc, arg1))
                &&& *final(cx) is MacosAarch64
                &&& (*final(cx))->MacosAarch64_pc == pc
                &&& (*final(cx))->fp == (*cx)->fp
                &&& (*final(cx))->x@[0] == arg1
                &&& forall|i: int|
                    1 <= i < 29 ==> #[trigger] (*final(cx))->x@[i] == (*cx)->x@[i]
            },
{
}

/// A stack is adequate exactly if it is switched on and has at least 64k, whatever its
/// address, its other flags and the page size are.
pub proof fn law_adequate(stack: StackDescription, abi: SignalAbi, adequate: bool)
    requires
        call_ensures(StackDescription::adequate, (&stack, &abi), adequate),
    ensures
        adequate <==> stack.ss_size >= 65536 && stack.ss_flags & abi.ss_disable == 0,
{
}

/// The registered stack is kept exactly if it is switched on and has at least 64k. One that
/// is smaller or switched off is replaced: 64k and a page are mapped. If the query failed,
/// the thread panics.
pub proof fn law_stack_after_query(
    abi: SignalAbi,
    page_size: usize,
    rc: i32,
    old_stack: StackDescription,
    decision: (StackState, StackAction),
)
    requires
        page_size + 65536 <= usize::MAX,
        call_ensures(
            altstack::lazy_per_thread_init,
            (&abi, page_size, StackState::Querying, StackEvent::Queried { rc, old_stack }),
            decision,
        ),
    ensures
        call_requires(
            altstack::lazy_per_thread_init,
            (&abi, page_size, StackState::Querying, StackEvent::Queried { rc, old_stack }),
        ),
        rc != 0 ==> decision.1 == StackAction::Panic(StackFailure::Query),
        rc == 0 && old_stack.ss_size >= 65536 && old_stack.ss_flags & abi.ss_disable == 0
            ==> decision.1 == StackAction::Done(None),
        rc == 0 && (old_stack.ss_size < 65536 || old_stack.ss_flags & abi.ss_disable != 0)
            ==> (decision.1 matches StackAction::Mmap { len } && len == page_size + 65536),
{
}

/// What a thread does next is the transition of its state by the event.
pub proof fn law_lazy_per_thread_init(
    abi: SignalAbi,
    page_size: usize,
    state: StackState,
    event: StackEvent,
    decision: (StackState, StackAction),
)
    requires
        altstack::may_happen(abi, page_size, state, event),
        call_ensures(
            altstack::lazy_per_thread_init,
            (&abi, page_size, state, event),
            decision,
        ),
    ensures
        call_requires(altstack::lazy_per_thread_init, (&abi, page_size, state, event)),
        decision == altstack::next(abi, page_size, state, event),
{
}

/// The words of each failure of a thread to get its stack.
pub proof fn law_stack_messages(failure: StackFailure, text: &'static str)
    requires
        call_ensures(StackFailure::message, (failure,), text),
    ensures
        failure == StackFailure::Query ==> text@ == "learning about sigaltstack failed"@,
        failure == StackFailure::Mmap ==> text@ == "failed to allocate memory for sigaltstack"@,
        failure == StackFailure::Mprotect ==> text@
            == "mprotect to configure memory for sigaltstack failed"@,
        failure == StackFailure::Register ==> text@ == "registering new sigaltstack failed"@,
        failure == StackFailure::Munmap ==> text@ == "munmap failed during thread shutdown"@,
{
}

/// An installation is refused exactly if mach ports are asked for and the system is macOS;
/// on every other system both values are accepted. It begins with nothing kept.
pub proof fn law_new_handler<R: Copy>(
    platform: Platform,
    macos_use_mach_ports: bool,
    entry: usize,
    rest: R,
    result: Result<Installer<R>, ConfigError>,
)
    requires
        call_ensures(
            TrapHandler::<R>::new,
            (platform, macos_use_mach_ports, entry, rest),
            result,
        ),
    ensures
        platform.os == Os::Macos && macos_use_mach_ports <==> result is Err,
        platform.os == Os::Linux ==> result is Ok,
        platform.os == Os::Android ==> result is Ok,
        platform.os == Os::Freebsd ==> result is Ok,
        platform.os == Os::Openbsd ==> result is Ok,
        result matches Err(error) ==> error == ConfigError::MachPorts,
        result matches Ok(installer) ==> {
            &&& installer@.platform == platform
            &&& installer@.entry == entry
            &&& installer@.rest == rest
            &&& installer@.next == 0
            &&& installer@.previous.sigsegv is None
            &&& installer@.previous.sigbus is None
            &&& installer@.previous.sigill is None
            &&& installer@.previous.sigfpe is None
        },
{
}

/// A configuration is refused exactly if it asks for mach ports and the system is macOS; on
/// every other system both values are accepted.
pub proof fn law_validate_config<R: Copy>(
    handler: TrapHandler<R>,
    macos_use_mach_ports: bool,
    result: Result<(), ConfigError>,
)
    requires
        call_ensures(TrapHandler::<R>::validate_config, (&handler, macos_use_mach_ports), result),
    ensures
        handler@.platform.os == Os::Macos && macos_use_mach_ports <==> result is Err,
        handler@.platform.os == Os::Linux ==> result is Ok,
        handler@.platform.os == Os::Android ==> result is Ok,
        handler@.platform.os == Os::Freebsd ==> result is Ok,
        handler@.platform.os == Os::Openbsd ==> result is Ok,
{
}

/// An installation asks for the signal that is next in turn to get the function of the
/// installation with the three flags that it needs, and is ready once every signal has had
/// its turn.
pub proof fn law_install_action<R: Copy>(installer: Installer<R>, action: InstallAction<R>)
    requires
        call_ensures(Installer::<R>::action, (&installer,), action),
    ensures
        ({
            let signals = installer@.platform.handled_signals();
            let abi = installer@.platform.abi;
            &&& installer@.next >= signals.len() ==> action is Ready
            &&& installer@.next < signals.len() ==> {
                &&& action matches InstallAction::Sigaction { signal, action: record }
                &&& signal == signals[installer@.next as int]
                &&& record.sa_sigaction == installer@.entry
                &&& record.sa_flags == abi.sa_siginfo | abi.sa_nodefer | abi.sa_onstack
                &&& record.rest == installer@.rest
            }
        }),
{
}

/// A step of an installation.
///
/// If `sigaction` failed, the installation stays as it is and panics. Otherwise what was
/// replaced is kept for the signal whose turn it was, and for no other, and the turn is that
/// of the signal after it, or of none.
pub proof fn law_install_completed<R: Copy>(
    rc: i32,
    old_action: SigAction<R>,
    action: InstallAction<R>,
)
    ensures
        forall|installer: &mut Installer<R>|
            #![trigger call_ensures(
                Installer::<R>::completed,
                (installer, rc, old_action),
                action,
            )]
            ({
                let before = (*installer)@;
                let signals = before.platform.handled_signals();
                &&& call_ensures(Installer::<R>::completed, (installer, rc, old_action), action)
                &&& before.next < signals.len()
                &&& rc == 0 ==> old_action.sa_sigaction != before.entry
            }) ==> ({
                let before = (*installer)@;
                let after = (*final(installer))@;
                let signals = before.platform.handled_signals();
                let signal = signals[before.next as int];
                let abi = before.platform.abi;
                &&& call_requires(Installer::<R>::completed, (installer, rc, old_action))
                &&& rc != 0 ==> after == before && action == InstallAction::<R>::Panic(
                    InstallFailure::Install,
                )
                &&& after.platform == before.platform
                &&& after.entry == before.entry
                &&& after.rest == before.rest
                &&& rc == 0 ==> after.next == before.next + 1
                &&& rc == 0 ==> after.previous.slot(signal) == Some(old_action)
                &&& rc == 0 ==> forall|s: Signal|
                    s != signal ==> #[trigger] after.previous.slot(s) == before.previous.slot(s)
                &&& rc == 0 && after.next >= signals.len() ==> action is Ready
                &&& rc == 0 && after.next < signals.len() ==> action
                    == (InstallAction::<R>::Sigaction {
                    signal: signals[after.next as int],
                    action: SigAction {
                        sa_flags: abi.sa_siginfo | abi.sa_nodefer | abi.sa_onstack,
                        sa_sigaction: before.entry,
                        rest: before.rest,
                    },
                })
            }),
{
}

/// What an installation says it has replaced, and what it hands to the installed handlers,
/// is what it has kept.
pub proof fn law_finished_installation<R: Copy>(
    installer: Installer<R>,
    previous: PreviousActions<R>,
    handler: TrapHandler<R>,
)
    requires
        installer@.next >= installer@.platform.handled_signals().len(),
        call_ensures(Installer::<R>::previous, (&installer,), previous),
        call_ensures(Installer::<R>::finish, (installer,), handler),
    ensures
        call_requires(Installer::<R>::finish, (installer,)),
        previous == installer@.previous,
        handler@.previous == previous,
        handler@.platform == installer@.platform,
        handler@.entry == installer@.entry,
{
}

/// A removal begins with the handlers as they are, all of them still installed, and asks for
/// the signal that is next in turn to get what was kept for it.
pub proof fn law_removal_action<R: Copy>(
    handler: TrapHandler<R>,
    begun: Uninstaller<R>,
    uninstaller: Uninstaller<R>,
    action: UninstallAction<R>,
)
    requires
        call_ensures(TrapHandler::<R>::uninstall, (handler,), begun),
        call_ensures(Uninstaller::<R>::action, (&uninstaller,), action),
    ensures
        begun@.handler == handler@,
        begun@.next == 0,
        ({
            let kept = uninstaller@.handler.previous;
            let signals = uninstaller@.handler.platform.handled_signals();
            &&& uninstaller@.next >= signals.len() ==> action is Removed
            &&& uninstaller@.next < signals.len() ==> {
                &&& action matches UninstallAction::Sigaction { signal, action: restored }
                &&& signal == signals[uninstaller@.next as int]
                &&& signal == Signal::Segv ==> restored == kept.sigsegv->0
                &&& signal == Signal::Bus ==> restored == kept.sigbus->0
                &&& signal == Signal::Ill ==> restored == kept.sigill->0
                &&& signal == Signal::Fpe ==> restored == kept.sigfpe->0
            }
        }),
{
}

/// A step of a removal.
///
/// If `sigaction` failed, or replaced something else than the function that handles traps,
/// the removal stays as it is and aborts, each with its own reason. Otherwise the turn is
/// that of the next signal, or of none.
pub proof fn law_removal_completed<R: Copy>(
    rc: i32,
    displaced: SigAction<R>,
    action: UninstallAction<R>,
)
    ensures
        forall|uninstaller: &mut Uninstaller<R>|
            #![trigger call_ensures(
                Uninstaller::<R>::completed,
                (uninstaller, rc, displaced),
                action,
            )]
            ({
                let before = (*uninstaller)@;
                &&& call_ensures(Uninstaller::<R>::completed, (uninstaller, rc, displaced), action)
                &&& before.next < before.handler.platform.handled_signals().len()
            }) ==> ({
                let before = (*uninstaller)@;
                let after = (*final(uninstaller))@;
                let handler = before.handler;
                let signals = handler.platform.handled_signals();
                let ours = displaced.sa_sigaction == handler.entry;
                &&& call_requires(Uninstaller::<R>::completed, (uninstaller, rc, displaced))
                &&& after.handler == handler
                &&& rc != 0 ==> after.next == before.next && action
                    == UninstallAction::<R>::Abort(UninstallFailure::Reinstall)
                &&& rc == 0 && !ours ==> after.next == before.next && action
                    == UninstallAction::<R>::Abort(UninstallFailure::NotLastInstalled)
                &&& rc == 0 && ours ==> after.next == before.next + 1
                &&& rc == 0 && ours && after.next >= signals.len() ==> action is Removed
                &&& rc == 0 && ours && after.next < signals.len() ==> action
                    == (UninstallAction::<R>::Sigaction {
                    signal: signals[after.next as int],
                    action: handler.previous.slot(signals[after.next as int])->0,
                })
            }),
{
}

/// The words of each failure to install or to remove the handlers.
pub proof fn law_handler_messages(
    install: InstallFailure,
    install_text: &'static str,
    uninstall: UninstallFailure,
    uninstall_text: &'static str,
)
    requires
        call_ensures(InstallFailure::message, (install,), install_text),
        call_ensures(UninstallFailure::message, (uninstall,), uninstall_text),
    ensures
        install_text@ == "unable to install signal handler"@,
        uninstall == UninstallFailure::Reinstall ==> uninstall_text@
            == "unable to reinstall signal handler"@,
        uninstall == UninstallFailure::NotLastInstalled ==> uninstall_text@ == "
Wasmtime's signal handler was not the last signal handler to be installed
in the process so it's not certain how to unload signal handlers. In this
situation the Engine::unload_process_handlers API is not applicable and requires
perhaps initializing libraries in a different order. The process will be aborted
now.
"@,
{
}

/// A delivery is made of the signal and the address as they came, and of what the signal's
/// own slot holds.
pub proof fn law_new_delivery<R: Copy>(
    previous: PreviousActions<R>,
    signal: Signal,
    si_addr: usize,
    delivery: Delivery<R>,
)
    requires
        call_ensures(Delivery::<R>::new, (&previous, signal, si_addr), delivery),
    ensures
        delivery.signal == signal,
        delivery.si_addr == si_addr,
        signal == Signal::Segv ==> delivery.previous == previous.sigsegv,
        signal == Signal::Bus ==> delivery.previous == previous.sigbus,
        signal == Signal::Ill ==> delivery.previous == previous.sigill,
        signal == Signal::Fpe ==> delivery.previous == previous.sigfpe,
{
}

/// A trap is recorded with exactly the address in the signal's information for `SIGSEGV` and
/// `SIGBUS`, and with no address for `SIGILL` and `SIGFPE`; the instruction, the frame
/// pointer and the trap are those of the test.
pub proof fn law_trap_is_recorded<R: Copy, T>(
    platform: Platform,
    delivery: Delivery<R>,
    pc: u64,
    fp: u64,
    jmp_buf: usize,
    trap: T,
    decision: (TrapState, TrapAction<R, T>),
)
    requires
        call_ensures(
            trap::trap_handler::<R, T>,
            (
                &platform,
                &delivery,
                TrapState::Testing { pc, fp },
                TrapEvent::Tested(TrapTest::Trap { jmp_buf, trap }),
            ),
            decision,
        ),
    ensures
        call_requires(
            trap::trap_handler::<R, T>,
            (
                &platform,
                &delivery,
                TrapState::Testing { pc, fp },
                TrapEvent::Tested(TrapTest::Trap { jmp_buf, trap }),
            ),
        ),
        decision.0 == (TrapState::Recording { jmp_buf }),
        decision.1 matches TrapAction::SetJitTrap {
            pc: recorded_pc,
            fp: recorded_fp,
            faulting_addr,
            trap: recorded,
        } && recorded_pc == pc && recorded_fp == fp && recorded == trap && (delivery.signal
            == Signal::Segv || delivery.signal == Signal::Bus ==> faulting_addr == Some(
            delivery.si_addr,
        )) && (delivery.signal == Signal::Ill || delivery.signal == Signal::Fpe ==> faulting_addr
            is None),
{
}

/// What is done next with a signal is the transition of its state by the event.
pub proof fn law_trap_handler<R: Copy, T>(
    platform: Platform,
    delivery: Delivery<R>,
    state: TrapState,
    event: TrapEvent<T>,
    decision: (TrapState, TrapAction<R, T>),
)
    requires
        trap::may_happen(delivery, state, event),
        call_ensures(
            trap::trap_handler::<R, T>,
            (&platform, &delivery, state, event),
            decision,
        ),
    ensures
        call_requires(trap::trap_handler::<R, T>, (&platform, &delivery, state, event)),
        decision == trap::next(platform, delivery, state, event),
{
}

} // verus!
