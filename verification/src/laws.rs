//! What each operation does, said in its inputs and its results alone.
//!
//! The contracts of this crate speak of the definitions that stand beside the functions.
//! The laws here say what those definitions come to: over the fields of the values that go
//! in and come out, with the numbers and the tests on bits written out.

use crate::action::{Forward, PreviousActions, SigAction};
use crate::altstack::{
    self, Stack, StackAction, StackDescription, StackEvent, StackFailure, StackState,
};
use crate::context::{self, MachineContext};
use crate::handlers::{self, InstallAction, InstallFailure, InstallerView, TrapHandlerView};
use crate::handlers::{UninstallAction, UninstallFailure, UninstallerView};
use crate::platform::{Arch, Os, Platform, Signal, SignalAbi};
use crate::process::{after_handling, after_sigaction, not_installed};
use crate::trap::{self, Delivery, TrapAction, TrapEvent, TrapState, TrapTest};
use vstd::prelude::*;

verus! {

/// Each signal has the number that the C library gives to it, and the four numbers can be
/// told apart exactly if they differ.
pub proof fn law_signal_numbers(abi: SignalAbi)
    ensures
        Signal::Segv.spec_number(abi) == abi.sigsegv,
        Signal::Ill.spec_number(abi) == abi.sigill,
        Signal::Fpe.spec_number(abi) == abi.sigfpe,
        Signal::Bus.spec_number(abi) == abi.sigbus,
        abi.wf() <==> {
            &&& abi.sigsegv != abi.sigill && abi.sigsegv != abi.sigfpe && abi.sigsegv != abi.sigbus
            &&& abi.sigill != abi.sigfpe && abi.sigill != abi.sigbus && abi.sigfpe != abi.sigbus
            &&& abi.sig_dfl != abi.sig_ign
            &&& abi.sa_siginfo != 0
        },
{
}

/// The numbers of a supported system are one of two sets, and `SIGBUS` tells which: Linux
/// and Android have it as 7, macOS, FreeBSD and OpenBSD as 10.
pub proof fn law_numbers_of_systems(abi: SignalAbi, os: Os)
    requires
        abi.is_of_supported_system(),
    ensures
        abi.sigsegv == 11 && abi.sigill == 4 && abi.sigfpe == 8,
        abi.sig_dfl == 0 && abi.sig_ign == 1,
        abi.sigbus == 7 || abi.sigbus == 10,
        abi.sigbus == 7 <==> abi.sa_siginfo == 0x4,
        abi.sigbus == 7 <==> abi.sa_nodefer == 0x4000_0000,
        abi.sigbus == 7 <==> abi.sa_onstack == 0x0800_0000,
        abi.sigbus == 7 <==> abi.ss_disable == 2,
        abi.sigbus == 10 <==> abi.sa_siginfo == 0x40,
        abi.sigbus == 10 <==> abi.sa_nodefer == 0x10,
        abi.sigbus == 10 <==> abi.sa_onstack == 0x1,
        abi.sigbus == 10 <==> abi.ss_disable == 4,
        os == Os::Linux ==> (abi.is_of(os) <==> abi.sigbus == 7),
        os == Os::Android ==> (abi.is_of(os) <==> abi.sigbus == 7),
        os == Os::Macos ==> (abi.is_of(os) <==> abi.sigbus == 10),
        os == Os::Freebsd ==> (abi.is_of(os) <==> abi.sigbus == 10),
        os == Os::Openbsd ==> (abi.is_of(os) <==> abi.sigbus == 10),
{
}

/// Handlers are installed for `SIGSEGV` and then `SIGILL` everywhere, next for `SIGFPE` on
/// x86-64 and s390x only, and last for `SIGBUS` on macOS and FreeBSD only.
pub proof fn law_handled_signals(platform: Platform)
    ensures
        ({
            let signals = platform.handled_signals();
            let fpe = platform.arch == Arch::X86_64 || platform.arch == Arch::S390x;
            let bus = platform.os == Os::Macos || platform.os == Os::Freebsd;
            &&& signals.len() == 2 + (if fpe { 1int } else { 0int }) + (if bus { 1int } else { 0 })
            &&& signals[0] == Signal::Segv
            &&& signals[1] == Signal::Ill
            &&& fpe ==> signals[2] == Signal::Fpe
            &&& bus ==> signals[signals.len() - 1] == Signal::Bus
            &&& platform.handles(Signal::Segv)
            &&& platform.handles(Signal::Ill)
            &&& platform.handles(Signal::Fpe) <==> fpe
            &&& platform.handles(Signal::Bus) <==> bus
        }),
{
}

/// An address comes with `SIGSEGV` and `SIGBUS` and with no other signal.
pub proof fn law_signals_with_an_address(signal: Signal)
    ensures
        signal.spec_reports_address() <==> signal == Signal::Segv || signal == Signal::Bus,
{
}

/// A signal goes on to a disposition in one of three ways.
///
/// The default disposition and the ignored one are set again as they were. A handler is
/// called with three arguments exactly if `SA_SIGINFO` is among its flags, and with one
/// argument exactly if it is not, whatever its other flags are; and it is the handler of
/// that disposition that is called.
pub proof fn law_ways_to_forward<R>(abi: SignalAbi, action: SigAction<R>)
    ensures
        action.sa_sigaction == abi.sig_dfl || action.sa_sigaction == abi.sig_ign
            ==> action.spec_forward(abi) == (Forward::Reinstate { action }),
        action.sa_sigaction != abi.sig_dfl && action.sa_sigaction != abi.sig_ign && action.sa_flags
            & abi.sa_siginfo != 0 ==> action.spec_forward(abi) == (Forward::<R>::CallSigaction {
            handler: action.sa_sigaction,
        }),
        action.sa_sigaction != abi.sig_dfl && action.sa_sigaction != abi.sig_ign && action.sa_flags
            & abi.sa_siginfo == 0 ==> action.spec_forward(abi) == (Forward::<R>::CallHandler {
            handler: action.sa_sigaction,
        }),
{
}

/// Two handlers with the same `SA_SIGINFO` bit are called in the same way, and flags that
/// do not contain that bit make no difference.
pub proof fn law_only_siginfo_counts<R>(
    abi: SignalAbi,
    one: SigAction<R>,
    other: SigAction<R>,
    flags: i32,
)
    requires
        one.sa_sigaction == other.sa_sigaction,
        other.sa_flags == one.sa_flags | flags,
        flags & abi.sa_siginfo == 0,
    ensures
        one.spec_forward(abi) is CallSigaction <==> other.spec_forward(abi) is CallSigaction,
        one.spec_forward(abi) is CallHandler <==> other.spec_forward(abi) is CallHandler,
        one.spec_forward(abi) is Reinstate <==> other.spec_forward(abi) is Reinstate,
{
    let a = one.sa_flags;
    let s = abi.sa_siginfo;
    assert((a | flags) & s == a & s) by (bit_vector)
        requires
            flags & s == 0i32,
    ;
}

/// The disposition by which traps are handled: its handler is `entry`, its flags are the
/// three that it needs and nothing besides, and the rest is as given.
pub proof fn law_trap_disposition<R>(abi: SignalAbi, entry: usize, rest: R, flag: i32)
    ensures
        ({
            let action = SigAction::<R>::spec_for_traps(abi, entry, rest);
            &&& action.sa_sigaction == entry
            &&& action.rest == rest
            &&& action.sa_flags & abi.sa_siginfo == abi.sa_siginfo
            &&& action.sa_flags & abi.sa_nodefer == abi.sa_nodefer
            &&& action.sa_flags & abi.sa_onstack == abi.sa_onstack
            &&& flag & abi.sa_siginfo == 0 && flag & abi.sa_nodefer == 0 && flag & abi.sa_onstack
                == 0 ==> action.sa_flags & flag == 0
        }),
{
    let a = abi.sa_siginfo;
    let b = abi.sa_nodefer;
    let c = abi.sa_onstack;
    assert((a | b | c) & a == a && (a | b | c) & b == b && (a | b | c) & c == c) by (bit_vector);
    assert(flag & a == 0 && flag & b == 0 && flag & c == 0 ==> (a | b | c) & flag == 0)
        by (bit_vector);
}

/// Each signal has the slot that is named after it, and to fill one fills no other.
pub proof fn law_slots<R>(slots: PreviousActions<R>, signal: Signal, action: SigAction<R>)
    ensures
        slots.slot(Signal::Segv) == slots.sigsegv,
        slots.slot(Signal::Bus) == slots.sigbus,
        slots.slot(Signal::Ill) == slots.sigill,
        slots.slot(Signal::Fpe) == slots.sigfpe,
        ({
            let filled = slots.with(signal, action);
            &&& filled.sigsegv == (if signal == Signal::Segv { Some(action) } else { slots.sigsegv })
            &&& filled.sigbus == (if signal == Signal::Bus { Some(action) } else { slots.sigbus })
            &&& filled.sigill == (if signal == Signal::Ill { Some(action) } else { slots.sigill })
            &&& filled.sigfpe == (if signal == Signal::Fpe { Some(action) } else { slots.sigfpe })
        }),
        ({
            let empty = PreviousActions::<R>::spec_empty();
            empty.sigsegv is None && empty.sigbus is None && empty.sigill is None
                && empty.sigfpe is None
        }),
{
}

/// A register keeps all of its bits when it is read as an address: the address is the
/// register's value, up to a multiple of 2 to the 64.
pub proof fn law_registers_keep_their_bits(register: i64)
    ensures
        0 <= register ==> context::register_address(register) == register,
        register < 0 ==> context::register_address(register) == register
            + 0x1_0000_0000_0000_0000,
{
}

/// The address of the instruction is all of the platform's program counter. Only on s390x,
/// and there only for `SIGILL` and `SIGFPE`, is it one less.
pub proof fn law_pc_of_each_context(cx: MachineContext, signal: Signal)
    ensures
        match cx {
            MachineContext::LinuxX86_64 { gregs } => cx.trap_pc(signal) == gregs@[16] + (
            if gregs@[16] < 0 { 0x1_0000_0000_0000_0000int } else { 0int }),
            MachineContext::LinuxAarch64 { pc, regs: _ } => cx.trap_pc(signal) == pc,
            MachineContext::LinuxS390x { psw_addr, frame_word: _ } => cx.trap_pc(signal)
                == psw_addr - (if signal == Signal::Ill || signal == Signal::Fpe { 1int } else {
                0int
            }),
            MachineContext::LinuxRiscv64 { mc_gregs } => cx.trap_pc(signal) == mc_gregs@[0],
            MachineContext::MacosX86_64 { rip, rbp: _, rsp: _, rdi: _ } => cx.trap_pc(signal)
                == rip,
            MachineContext::MacosAarch64 { pc, fp: _, x: _ } => cx.trap_pc(signal) == pc,
            MachineContext::FreebsdX86_64 { mc_rip, mc_rbp: _ } => cx.trap_pc(signal) == mc_rip + (
            if mc_rip < 0 { 0x1_0000_0000_0000_0000int } else { 0int }),
            MachineContext::FreebsdAarch64 { gp_elr, gp_x: _ } => cx.trap_pc(signal) == gp_elr + (
            if gp_elr < 0 { 0x1_0000_0000_0000_0000int } else { 0int }),
            MachineContext::OpenbsdX86_64 { sc_rip, sc_rbp: _ } => cx.trap_pc(signal) == sc_rip + (
            if sc_rip < 0 { 0x1_0000_0000_0000_0000int } else { 0int }),
        },
{
}

/// The frame pointer is all of the platform's frame pointer register; on s390x it is the
/// word in memory that stands for it.
pub proof fn law_fp_of_each_context(cx: MachineContext)
    ensures
        match cx {
            MachineContext::LinuxX86_64 { gregs } => cx.frame_pointer() == gregs@[10] + (
            if gregs@[10] < 0 { 0x1_0000_0000_0000_0000int } else { 0int }),
            MachineContext::LinuxAarch64 { pc: _, regs } => cx.frame_pointer() == regs@[29],
            MachineContext::LinuxS390x { psw_addr: _, frame_word } => cx.frame_pointer()
                == frame_word,
            MachineContext::LinuxRiscv64 { mc_gregs } => cx.frame_pointer() == mc_gregs@[8],
            MachineContext::MacosX86_64 { rip: _, rbp, rsp: _, rdi: _ } => cx.frame_pointer()
                == rbp,
            MachineContext::MacosAarch64 { pc: _, fp, x: _ } => cx.frame_pointer() == fp,
            MachineContext::FreebsdX86_64 { mc_rip: _, mc_rbp } => cx.frame_pointer() == mc_rbp + (
            if mc_rbp < 0 { 0x1_0000_0000_0000_0000int } else { 0int }),
            MachineContext::FreebsdAarch64 { gp_elr: _, gp_x } => cx.frame_pointer() == gp_x@[29]
                + (if gp_x@[29] < 0 { 0x1_0000_0000_0000_0000int } else { 0int }),
            MachineContext::OpenbsdX86_64 { sc_rip: _, sc_rbp } => cx.frame_pointer() == sc_rbp + (
            if sc_rbp < 0 { 0x1_0000_0000_0000_0000int } else { 0int }),
        },
{
}

/// Only contexts of macOS can be redirected, all of AArch64 and those of x86-64 with a
/// stack pointer that is not null.
pub proof fn law_contexts_that_can_be_redirected(cx: MachineContext)
    ensures
        cx.is_macos() <==> cx is MacosX86_64 || cx is MacosAarch64,
        cx.can_resume_elsewhere() <==> cx is MacosAarch64 || (cx matches MachineContext::MacosX86_64 {
            rsp,
            ..
        } && rsp != 0),
        cx matches MachineContext::MacosX86_64 { rdi, .. } ==> cx.first_argument() == Some(rdi),
        cx matches MachineContext::MacosAarch64 { x, .. } ==> cx.first_argument() == Some(x@[0]),
{
}

/// A redirected x86-64 context has the new address and argument in full, the frame pointer
/// that it had, and a stack pointer that is 8 less if it was a multiple of 16 and the same
/// if it was not.
pub proof fn law_redirection_on_x86_64(
    before: MachineContext,
    after: MachineContext,
    pc: usize,
    arg1: usize,
)
    requires
        before is MacosX86_64,
        before.can_resume_elsewhere(),
        context::resumes_in(before, after, pc, arg1),
    ensures
        after is MacosX86_64,
        after->rip == pc,
        after->rdi == arg1,
        after->rbp == before->rbp,
        before->rsp % 16 == 0 ==> after->rsp == before->rsp - 8,
        before->rsp % 16 != 0 ==> after->rsp == before->rsp,
{
}

/// A redirected AArch64 context has the new address and argument in full, the frame pointer
/// that it had, and every register but the first as it was.
pub proof fn law_redirection_on_aarch64(
    before: MachineContext,
    after: MachineContext,
    pc: usize,
    arg1: usize,
)
    requires
        before is MacosAarch64,
        context::resumes_in(before, after, pc, arg1),
    ensures
        after is MacosAarch64,
        after->MacosAarch64_pc == pc,
        after->fp == before->fp,
        after->x@.len() == 29,
        after->x@[0] == arg1,
        forall|i: int| 1 <= i < 29 ==> #[trigger] after->x@[i] == before->x@[i],
{
}

/// What may come in the handling of a signal: first whether compiled code is executing,
/// then any outcome of the test, then that the trap is recorded. A context is left out only
/// on s390x, and there only for a late signal at address 0.
pub proof fn law_trap_events<R, T>(
    delivery: Delivery<R>,
    cx: MachineContext,
    test: TrapTest<T>,
    pc: u64,
    fp: u64,
    jmp_buf: usize,
)
    ensures
        trap::may_happen(delivery, TrapState::Delivered, TrapEvent::<T>::Activation(None)),
        trap::may_happen(delivery, TrapState::Testing { pc, fp }, TrapEvent::Tested(test)),
        trap::may_happen(delivery, TrapState::Recording { jmp_buf }, TrapEvent::<T>::Recorded),
        trap::may_happen(delivery, TrapState::Delivered, TrapEvent::<T>::Activation(Some(cx)))
            <==> !(cx matches MachineContext::LinuxS390x { psw_addr, .. } && psw_addr == 0 && (
        delivery.signal == Signal::Ill || delivery.signal == Signal::Fpe)),
{
}

/// A signal that comes while compiled code is executing is tested at the address that its
/// registers give, and that address and the frame pointer are kept.
pub proof fn law_active_signal_is_tested<R, T>(
    platform: Platform,
    delivery: Delivery<R>,
    cx: MachineContext,
)
    requires
        trap::may_happen(delivery, TrapState::Delivered, TrapEvent::<T>::Activation(Some(cx))),
    ensures
        ({
            let decision = trap::next(
                platform,
                delivery,
                TrapState::Delivered,
                TrapEvent::<T>::Activation(Some(cx)),
            );
            &&& decision.0 matches TrapState::Testing { pc, fp }
            &&& decision.1 matches TrapAction::TestIfTrap { pc: tested }
            &&& tested == pc
            &&& pc == cx.trap_pc(delivery.signal)
            &&& fp == cx.frame_pointer()
        }),
{
}

/// A trap is recorded with the address and the frame pointer that were tested, with the
/// trap that the test found, and, for `SIGSEGV` and `SIGBUS`, with exactly the address in
/// the signal's information; for `SIGILL` and `SIGFPE` with none. What to jump to is kept.
pub proof fn law_recorded_trap<R, T>(
    platform: Platform,
    delivery: Delivery<R>,
    pc: u64,
    fp: u64,
    jmp_buf: usize,
    trap: T,
)
    ensures
        ({
            let decision = trap::next(
                platform,
                delivery,
                TrapState::Testing { pc, fp },
                TrapEvent::Tested(TrapTest::Trap { jmp_buf, trap }),
            );
            &&& decision.0 == (TrapState::Recording { jmp_buf })
            &&& decision.1 matches TrapAction::SetJitTrap {
                pc: recorded_pc,
                fp: recorded_fp,
                faulting_addr,
                trap: recorded_trap,
            }
            &&& recorded_pc == pc
            &&& recorded_fp == fp
            &&& recorded_trap == trap
            &&& delivery.signal == Signal::Segv ==> faulting_addr == Some(delivery.si_addr)
            &&& delivery.signal == Signal::Bus ==> faulting_addr == Some(delivery.si_addr)
            &&& delivery.signal == Signal::Ill ==> faulting_addr is None
            &&& delivery.signal == Signal::Fpe ==> faulting_addr is None
        }),
{
}

/// The whole handling of a trap, from its delivery on: the recorded addresses are those of
/// the registers and of the signal's information.
pub proof fn law_trap_from_delivery_on<R, T>(
    platform: Platform,
    delivery: Delivery<R>,
    cx: MachineContext,
    jmp_buf: usize,
    trap: T,
)
    requires
        cx.trap_pc(delivery.signal) >= 0,
    ensures
        ({
            let test = TrapTest::Trap { jmp_buf, trap };
            let actions = trap::actions_after(
                platform,
                delivery,
                TrapState::Delivered,
                seq![
                    TrapEvent::Activation(Some(cx)),
                    TrapEvent::Tested(test),
                    TrapEvent::Recorded,
                ],
            );
            &&& actions.len() == 3
            &&& actions[0] matches TrapAction::TestIfTrap { pc: tested }
            &&& tested == cx.trap_pc(delivery.signal)
            &&& actions[1] matches TrapAction::SetJitTrap {
                pc,
                fp,
                faulting_addr,
                trap: recorded,
            }
            &&& pc == cx.trap_pc(delivery.signal)
            &&& fp == cx.frame_pointer()
            &&& recorded == trap
            &&& faulting_addr == (if delivery.signal == Signal::Segv || delivery.signal
                == Signal::Bus {
                Some(delivery.si_addr)
            } else {
                None
            })
            &&& actions[2] == (if platform.os == Os::Macos {
                TrapAction::<R, T>::ResumeInShim { jmp_buf }
            } else {
                TrapAction::<R, T>::Longjmp { jmp_buf }
            })
        }),
{
    reveal_with_fuel(trap::actions_after, 4);
    let events = seq![
        TrapEvent::Activation(Some(cx)),
        TrapEvent::Tested(TrapTest::Trap { jmp_buf, trap }),
        TrapEvent::Recorded,
    ];
    assert(events.drop_first()[0] == events[1]);
    assert(events.drop_first().drop_first()[0] == events[2]);
    assert(events.drop_first().drop_first().drop_first().len() == 0);
}

/// After a trap is recorded the handler is left towards the buffer that the test gave: on
/// macOS by a return into the function that jumps there, elsewhere by a jump.
pub proof fn law_left_after_recording<R, T>(
    platform: Platform,
    delivery: Delivery<R>,
    jmp_buf: usize,
)
    ensures
        ({
            let decision = trap::next(
                platform,
                delivery,
                TrapState::Recording { jmp_buf },
                TrapEvent::<T>::Recorded,
            );
            &&& decision.0 is Finished
            &&& platform.os == Os::Macos ==> decision.1 == (TrapAction::<R, T>::ResumeInShim {
                jmp_buf,
            })
            &&& platform.os != Os::Macos ==> decision.1 == (TrapAction::<R, T>::Longjmp {
                jmp_buf,
            })
        }),
{
}

/// What the embedder handled is done. What is not for compiled code goes on to the
/// disposition that was kept: it is set again if it is the default or the ignored one, and
/// otherwise its handler is called, with three arguments exactly if it has the flag
/// `SA_SIGINFO`. Where none was kept there is nothing to go on to.
pub proof fn law_other_signals<R, T>(
    platform: Platform,
    delivery: Delivery<R>,
    pc: u64,
    fp: u64,
)
    ensures
        trap::next(
            platform,
            delivery,
            TrapState::Testing { pc, fp },
            TrapEvent::Tested(TrapTest::<T>::HandledByEmbedder),
        ) == (TrapState::Finished, TrapAction::<R, T>::Return),
        trap::next(
            platform,
            delivery,
            TrapState::Testing { pc, fp },
            TrapEvent::Tested(TrapTest::<T>::NotWasm),
        ) == trap::next(
            platform,
            delivery,
            TrapState::Delivered,
            TrapEvent::<T>::Activation(None),
        ),
        ({
            let decision = trap::next(
                platform,
                delivery,
                TrapState::Delivered,
                TrapEvent::<T>::Activation(None),
            );
            let abi = platform.abi;
            &&& decision.0 is Finished
            &&& match delivery.previous {
                None => decision.1 is NoDisposition,
                Some(previous) => {
                    &&& decision.1 matches TrapAction::Forward { signal, forward }
                    &&& signal == delivery.signal
                    &&& if previous.sa_sigaction == abi.sig_dfl || previous.sa_sigaction
                        == abi.sig_ign {
                        forward == (Forward::Reinstate { action: previous })
                    } else if previous.sa_flags & abi.sa_siginfo != 0 {
                        forward == (Forward::<R>::CallSigaction { handler: previous.sa_sigaction })
                    } else {
                        forward == (Forward::<R>::CallHandler { handler: previous.sa_sigaction })
                    }
                },
            }
        }),
{
}

/// The handler is left with every action but the test and the recording.
pub proof fn law_actions_that_leave<R, T>(action: TrapAction<R, T>)
    ensures
        action.leaves_handler() <==> action is Longjmp || action is ResumeInShim || action is Return
            || action is Forward || action is NoDisposition,
{
}

/// Of the actions of the handling, only to set a disposition again touches the dispositions
/// of the process, and it touches that one only.
pub proof fn law_dispositions_after_handling<R, T>(
    table: spec_fn(Signal) -> SigAction<R>,
    action: TrapAction<R, T>,
    rc: i32,
    s: Signal,
)
    ensures
        action matches TrapAction::Forward {
            signal,
            forward: Forward::Reinstate { action: reinstated },
        } ==> after_handling(table, action, rc)(s) == (if rc == 0 && signal == s {
            reinstated
        } else {
            table(s)
        }),
        !(action matches TrapAction::Forward { signal: _, forward: Forward::Reinstate { action: _ } })
            ==> after_handling(table, action, rc)(s) == table(s),
{
}

/// `sigaction` changes the disposition of one signal, if it succeeds.
pub proof fn law_dispositions_after_sigaction<R>(
    table: spec_fn(Signal) -> SigAction<R>,
    signal: Signal,
    action: SigAction<R>,
    rc: i32,
    other: Signal,
)
    ensures
        rc == 0 ==> after_sigaction(table, signal, action, rc)(signal) == action,
        rc != 0 ==> after_sigaction(table, signal, action, rc)(signal) == table(signal),
        other != signal ==> after_sigaction(table, signal, action, rc)(other) == table(other),
{
}

/// The registered stack is kept exactly if it is switched on and has at least 64k; a
/// smaller one, or one that is switched off, is replaced by a mapping of 64k and a page. A
/// query that fails decides nothing else.
pub proof fn law_registered_stack_is_kept_or_replaced(
    abi: SignalAbi,
    page_size: usize,
    rc: i32,
    old_stack: StackDescription,
)
    requires
        page_size + 65536 <= usize::MAX,
    ensures
        ({
            let event = StackEvent::Queried { rc, old_stack };
            let decision = altstack::next(abi, page_size, StackState::Querying, event);
            let len = (page_size + 65536) as usize;
            &&& altstack::may_happen(abi, page_size, StackState::Querying, event)
            &&& rc != 0 ==> decision == (
                StackState::Settled { owned: None },
                StackAction::Panic(StackFailure::Query),
            )
            &&& rc == 0 && old_stack.ss_size >= 65536 && old_stack.ss_flags & abi.ss_disable == 0
                ==> decision == (StackState::Settled { owned: None }, StackAction::Done(None))
            &&& rc == 0 && old_stack.ss_size < 65536 ==> decision == (
                StackState::Mapping { mmap_size: len },
                StackAction::Mmap { len },
            )
            &&& rc == 0 && old_stack.ss_flags & abi.ss_disable != 0 ==> decision == (
                StackState::Mapping { mmap_size: len },
                StackAction::Mmap { len },
            )
        }),
{
}

/// A stack is adequate by its flag and its size alone, and a larger one is no worse.
pub proof fn law_adequate_stacks(abi: SignalAbi, one: StackDescription, other: StackDescription)
    ensures
        one.is_adequate(abi) <==> one.ss_size >= 65536 && one.ss_flags & abi.ss_disable == 0,
        one.is_adequate(abi) && other.ss_flags == one.ss_flags && other.ss_size >= one.ss_size
            ==> other.is_adequate(abi),
{
}

/// What follows each outcome on the way to a stack: the 64k that begin one page above the
/// mapping become accessible and are then registered, the mapping as a whole is owned, and
/// every failure ends with its own panic and with nothing owned.
pub proof fn law_steps_to_a_stack(
    abi: SignalAbi,
    page_size: usize,
    ptr: usize,
    mmap_size: usize,
    stack: Stack,
    stack_ptr: usize,
    rc: i32,
)
    requires
        ptr + page_size <= usize::MAX,
    ensures
        ({
            let nothing = StackState::Settled { owned: None };
            let start = (ptr + page_size) as usize;
            let mapping = StackState::Mapping { mmap_size };
            let protecting = StackState::Protecting { stack, stack_ptr };
            let registering = StackState::Registering { stack };
            &&& altstack::next(abi, page_size, StackState::Start, StackEvent::Begin) == (
                StackState::Querying,
                StackAction::Query,
            )
            &&& altstack::next(abi, page_size, mapping, StackEvent::Mapped(Some(ptr))) == (
                StackState::Protecting {
                    stack: Stack { mmap_ptr: ptr, mmap_size },
                    stack_ptr: start,
                },
                StackAction::Mprotect { addr: start, len: 65536 },
            )
            &&& altstack::next(abi, page_size, mapping, StackEvent::Mapped(None)) == (
                nothing,
                StackAction::Panic(StackFailure::Mmap),
            )
            &&& altstack::next(abi, page_size, protecting, StackEvent::Protected { done: true })
                == (
                registering,
                StackAction::Register(
                    StackDescription { ss_sp: stack_ptr, ss_flags: 0, ss_size: 65536 },
                ),
            )
            &&& altstack::next(abi, page_size, protecting, StackEvent::Protected { done: false })
                == (nothing, StackAction::Panic(StackFailure::Mprotect))
            &&& altstack::next(abi, page_size, registering, StackEvent::Registered { rc }) == (
            if rc == 0 {
                (StackState::Settled { owned: Some(stack) }, StackAction::Done(Some(stack)))
            } else {
                (nothing, StackAction::Panic(StackFailure::Register))
            })
        }),
{
}

/// What follows at the end of a thread: the mapping that it owns is unmapped from its start
/// and in its whole length, and a thread that owns none unmaps nothing.
pub proof fn law_steps_at_exit(abi: SignalAbi, page_size: usize, stack: Stack, done: bool)
    ensures
        altstack::next(
            abi,
            page_size,
            StackState::Settled { owned: Some(stack) },
            StackEvent::ThreadExit,
        ) == (
            StackState::Unmapping,
            StackAction::Munmap { addr: stack.mmap_ptr, len: stack.mmap_size },
        ),
        altstack::next(
            abi,
            page_size,
            StackState::Settled { owned: None },
            StackEvent::ThreadExit,
        ) == (StackState::Ended, StackAction::Exit),
        altstack::next(abi, page_size, StackState::Start, StackEvent::ThreadExit) == (
            StackState::Ended,
            StackAction::Exit,
        ),
        altstack::next(abi, page_size, StackState::Unmapping, StackEvent::Unmapped { done }) == (
            StackState::Ended,
            if done {
                StackAction::Exit
            } else {
                StackAction::DebugPanic(StackFailure::Munmap)
            },
        ),
{
}

/// What may come on a thread: each outcome of the action before it, and nothing else. A
/// thread begins once, and ends before it has begun or when it is settled.
pub proof fn law_stack_events(
    abi: SignalAbi,
    page_size: usize,
    state: StackState,
    old_stack: StackDescription,
    rc: i32,
    ptr: usize,
    done: bool,
)
    ensures
        altstack::may_happen(abi, page_size, state, StackEvent::Begin) <==> state is Start,
        altstack::may_happen(abi, page_size, state, StackEvent::Queried { rc, old_stack }) <==> {
            &&& state is Querying
            &&& rc != 0 || (old_stack.ss_size >= 65536 && old_stack.ss_flags & abi.ss_disable
                == 0) || page_size + 65536 <= usize::MAX
        },
        altstack::may_happen(abi, page_size, state, StackEvent::Mapped(Some(ptr))) <==> state
            is Mapping && ptr + page_size <= usize::MAX,
        altstack::may_happen(abi, page_size, state, StackEvent::Mapped(None)) <==> state is Mapping,
        altstack::may_happen(abi, page_size, state, StackEvent::Protected { done }) <==> state
            is Protecting,
        altstack::may_happen(abi, page_size, state, StackEvent::Registered { rc }) <==> state
            is Registering,
        altstack::may_happen(abi, page_size, state, StackEvent::ThreadExit) <==> state is Start
            || state is Settled,
        altstack::may_happen(abi, page_size, state, StackEvent::Unmapped { done }) <==> state
            is Unmapping,
{
}

/// A configuration is refused exactly if it uses mach ports and the system is macOS: on
/// every other system both values are accepted, and without mach ports every system is.
pub proof fn law_config(platform: Platform, macos_use_mach_ports: bool)
    ensures
        !handlers::config_is_valid(platform, macos_use_mach_ports) <==> macos_use_mach_ports
            && platform.os == Os::Macos,
        platform.os == Os::Linux ==> handlers::config_is_valid(platform, macos_use_mach_ports),
        platform.os == Os::Android ==> handlers::config_is_valid(platform, macos_use_mach_ports),
        platform.os == Os::Freebsd ==> handlers::config_is_valid(platform, macos_use_mach_ports),
        platform.os == Os::Openbsd ==> handlers::config_is_valid(platform, macos_use_mach_ports),
        platform.os == Os::Macos ==> (handlers::config_is_valid(platform, macos_use_mach_ports)
            <==> !macos_use_mach_ports),
{
}

/// An installation begins with nothing installed and nothing kept.
pub proof fn law_installation_begins<R>(platform: Platform, entry: usize, rest: R)
    ensures
        ({
            let start = InstallerView::start(platform, entry, rest);
            &&& start.platform == platform
            &&& start.entry == entry
            &&& start.rest == rest
            &&& start.next == 0
            &&& start.previous.sigsegv is None
            &&& start.previous.sigbus is None
            &&& start.previous.sigill is None
            &&& start.previous.sigfpe is None
            &&& start.wf()
            &&& start.action() matches InstallAction::Sigaction { signal, .. } && signal
                == Signal::Segv
        }),
{
}

/// A step of an installation.
///
/// It asks for the signal that is next in turn, with the function and the rest of the
/// installation. If that succeeds, exactly what was replaced goes into the slot of exactly
/// that signal, and the turn is that of the signal after it, or of none. If it fails, the
/// installation stays as it is and panics.
pub proof fn law_installation_step<R>(view: InstallerView<R>, rc: i32, old_action: SigAction<R>)
    requires
        view.next < view.platform.handled_signals().len(),
    ensures
        ({
            let signals = view.platform.handled_signals();
            let signal = signals[view.next as int];
            let (after, action) = view.completed(rc, old_action);
            &&& !view.is_complete()
            &&& view.action() matches InstallAction::Sigaction { signal: asked, action: record }
            &&& asked == signal
            &&& record.sa_sigaction == view.entry
            &&& record.rest == view.rest
            &&& record.sa_flags == view.platform.abi.sa_siginfo | view.platform.abi.sa_nodefer
                | view.platform.abi.sa_onstack
            &&& view.may_replace(rc, old_action) <==> rc != 0 || old_action.sa_sigaction
                != view.entry
            &&& after.platform == view.platform
            &&& after.entry == view.entry
            &&& after.rest == view.rest
            &&& rc != 0 ==> after == view && action == InstallAction::<R>::Panic(
                InstallFailure::Install,
            )
            &&& rc == 0 ==> after.next == view.next + 1
            &&& rc == 0 ==> after.previous.slot(signal) == Some(old_action)
            &&& rc == 0 ==> forall|s: Signal|
                s != signal ==> #[trigger] after.previous.slot(s) == view.previous.slot(s)
            &&& rc == 0 && view.next + 1 == signals.len() ==> action is Ready
            &&& rc == 0 && view.next + 1 < signals.len() ==> action
                == (InstallAction::Sigaction::<R> {
                signal: signals[view.next as int + 1],
                action: record,
            })
        }),
{
}

/// An installation is complete, and ready, exactly when every signal has had its turn.
pub proof fn law_installation_complete<R>(view: InstallerView<R>)
    ensures
        view.is_complete() <==> view.next >= view.platform.handled_signals().len(),
        view.is_complete() <==> view.action() is Ready,
{
}

/// A step of a removal.
///
/// It asks for the signal that is next in turn, with the disposition that was kept for it.
/// If that succeeds and replaces the function that handles traps, the turn is that of the
/// signal after it, or of none. If it fails, or replaces something else, the removal stays
/// as it is and aborts, each with its own reason.
pub proof fn law_removal_step<R>(view: UninstallerView<R>, rc: i32, displaced: SigAction<R>)
    requires
        view.next < view.handler.platform.handled_signals().len(),
    ensures
        ({
            let handler = view.handler;
            let signals = handler.platform.handled_signals();
            let signal = signals[view.next as int];
            let (after, action) = view.completed(rc, displaced);
            &&& !view.is_complete()
            &&& view.action() == (UninstallAction::Sigaction {
                signal,
                action: handler.previous.slot(signal)->0,
            })
            &&& after.handler == handler
            &&& rc != 0 ==> after == view && action == UninstallAction::<R>::Abort(
                UninstallFailure::Reinstall,
            )
            &&& rc == 0 && displaced.sa_sigaction != handler.entry ==> after == view && action
                == UninstallAction::<R>::Abort(UninstallFailure::NotLastInstalled)
            &&& rc == 0 && displaced.sa_sigaction == handler.entry ==> after.next == view.next + 1
            &&& rc == 0 && displaced.sa_sigaction == handler.entry && view.next + 1
                == signals.len() ==> action is Removed
            &&& rc == 0 && displaced.sa_sigaction == handler.entry && view.next + 1
                < signals.len() ==> action == (UninstallAction::Sigaction {
                signal: signals[view.next as int + 1],
                action: handler.previous.slot(signals[view.next as int + 1])->0,
            })
        }),
{
}

/// A removal is complete exactly when every signal has had its turn.
pub proof fn law_removal_complete<R>(view: UninstallerView<R>)
    ensures
        view.is_complete() <==> view.next >= view.handler.platform.handled_signals().len(),
        view.is_complete() <==> view.action() is Removed,
{
}

/// Installed handlers keep a disposition for every signal that they handle and for no
/// other, and it is never the function that handles traps.
pub proof fn law_installed_handlers<R>(handler: TrapHandlerView<R>)
    ensures
        handler.wf() <==> {
            let fpe = handler.platform.arch == Arch::X86_64 || handler.platform.arch
                == Arch::S390x;
            let bus = handler.platform.os == Os::Macos || handler.platform.os == Os::Freebsd;
            let kept = |slot: Option<SigAction<R>>| slot is Some && slot->0.sa_sigaction
                != handler.entry;
            &&& kept(handler.previous.sigsegv)
            &&& kept(handler.previous.sigill)
            &&& if fpe { kept(handler.previous.sigfpe) } else { handler.previous.sigfpe is None }
            &&& if bus { kept(handler.previous.sigbus) } else { handler.previous.sigbus is None }
        },
{
    assert(handler.previous.slot(Signal::Segv) == handler.previous.sigsegv);
    assert(handler.previous.slot(Signal::Ill) == handler.previous.sigill);
    assert(handler.previous.slot(Signal::Fpe) == handler.previous.sigfpe);
    assert(handler.previous.slot(Signal::Bus) == handler.previous.sigbus);
}

/// Handlers are not installed exactly if no signal that they handle has their function.
pub proof fn law_not_installed<R>(
    platform: Platform,
    entry: usize,
    table: spec_fn(Signal) -> SigAction<R>,
)
    ensures
        not_installed(platform, entry, table) <==> {
            &&& table(Signal::Segv).sa_sigaction != entry
            &&& table(Signal::Ill).sa_sigaction != entry
            &&& platform.arch == Arch::X86_64 || platform.arch == Arch::S390x ==> table(
                Signal::Fpe,
            ).sa_sigaction != entry
            &&& platform.os == Os::Macos || platform.os == Os::Freebsd ==> table(
                Signal::Bus,
            ).sa_sigaction != entry
        },
{
}

} // verus!
