use wasm_signals::action::{Forward, PreviousActions, SigAction};
use wasm_signals::context::MachineContext;
use wasm_signals::platform::{Arch, Os, Platform, Signal, SignalAbi};
use wasm_signals::trap::{
    trap_handler, Delivery, TrapAction, TrapEvent, TrapState, TrapTest,
};

fn linux() -> MachineContext {
    let mut gregs = [0i64; 23];
    gregs[16] = 0x4000;
    gregs[10] = 0x5000;
    MachineContext::LinuxX86_64 { gregs }
}

fn macos() -> MachineContext {
    MachineContext::MacosAarch64 { pc: 0x4000, fp: 0x5000, x: [0; 29] }
}

fn action(sa_flags: i32, sa_sigaction: usize) -> SigAction<u8> {
    SigAction { sa_flags, sa_sigaction, rest: 9 }
}

fn delivery(signal: Signal, previous: SigAction<u8>) -> Delivery<u8> {
    Delivery { signal, si_addr: 0x6000, previous: Some(previous) }
}

fn passed(signal: Signal, forward: Forward<u8>) -> TrapAction<u8, char> {
    TrapAction::Forward { signal, forward }
}

fn run(
    os: Os,
    delivery: &Delivery<u8>,
    activation: Option<(MachineContext, TrapTest<char>)>,
) -> Vec<TrapAction<u8, char>> {
    let platform = Platform { os, arch: Arch::X86_64, abi: SignalAbi::host() };
    let (context, mut test) = match activation {
        Some((context, test)) => (Some(context), Some(test)),
        None => (None, None),
    };
    let mut event = TrapEvent::Activation(context);
    let mut state = TrapState::Delivered;
    let mut actions = Vec::new();
    loop {
        let (next, action) = trap_handler(&platform, delivery, state, event);
        state = next;
        event = match action {
            TrapAction::TestIfTrap { .. } => TrapEvent::Tested(test.take().unwrap()),
            TrapAction::SetJitTrap { .. } => TrapEvent::Recorded,
            _ => {
                actions.push(action);
                assert_eq!(state, TrapState::Finished);
                return actions;
            }
        };
        actions.push(action);
    }
}

#[test]
fn without_activation_the_signal_is_forwarded() {
    let d = delivery(Signal::Segv, action(0, 0x77));
    assert_eq!(run(Os::Linux, &d, None), vec![passed(Signal::Segv, Forward::CallHandler { handler: 0x77 })]);
}

#[test]
fn other_code_forwards_the_signal() {
    let d = delivery(Signal::Segv, action(libc::SA_SIGINFO, 0x77));
    assert_eq!(
        run(Os::Linux, &d, Some((linux(), TrapTest::NotWasm))),
        vec![
            TrapAction::TestIfTrap { pc: 0x4000 },
            passed(Signal::Segv, Forward::CallSigaction { handler: 0x77 }),
        ]
    );
}

#[test]
fn embedder_handles_the_signal() {
    let d = delivery(Signal::Ill, action(0, 0x77));
    assert_eq!(
        run(Os::Linux, &d, Some((linux(), TrapTest::HandledByEmbedder))),
        vec![TrapAction::TestIfTrap { pc: 0x4000 }, TrapAction::Return]
    );
}

#[test]
fn trap_is_recorded_before_the_jump() {
    for signal in [Signal::Segv, Signal::Bus] {
        let d = delivery(signal, action(0, 0x77));
        assert_eq!(
            run(Os::Linux, &d, Some((linux(), TrapTest::Trap { jmp_buf: 0x99, trap: 't' }))),
            vec![
                TrapAction::TestIfTrap { pc: 0x4000 },
                TrapAction::SetJitTrap {
                    pc: 0x4000,
                    fp: 0x5000,
                    faulting_addr: Some(0x6000),
                    trap: 't',
                },
                TrapAction::Longjmp { jmp_buf: 0x99 },
            ]
        );
    }
}

#[test]
fn other_signals_report_no_address() {
    for signal in [Signal::Ill, Signal::Fpe] {
        let d = delivery(signal, action(0, 0x77));
        let actions = run(Os::Linux, &d, Some((linux(), TrapTest::Trap { jmp_buf: 0x99, trap: 't' })));
        assert_eq!(
            actions[1],
            TrapAction::SetJitTrap { pc: 0x4000, fp: 0x5000, faulting_addr: None, trap: 't' }
        );
    }
}

#[test]
fn macos_returns_into_the_shim() {
    for context in
        [macos(), MachineContext::MacosX86_64 { rip: 0x4000, rbp: 0x5000, rsp: 8, rdi: 0 }]
    {
        let d = delivery(Signal::Bus, action(0, 0x77));
        let actions = run(Os::Macos, &d, Some((context, TrapTest::Trap { jmp_buf: 0x99, trap: 't' })));
        assert_eq!(actions.len(), 3);
        assert_eq!(actions[2], TrapAction::ResumeInShim { jmp_buf: 0x99 });
    }
}

#[test]
fn late_signals_of_s390x_are_tested_one_byte_back() {
    let context = MachineContext::LinuxS390x { psw_addr: 0x4000, frame_word: 0x5000 };
    let d = delivery(Signal::Fpe, action(0, 0x77));
    let actions = run(Os::Linux, &d, Some((context, TrapTest::NotWasm)));
    assert_eq!(actions[0], TrapAction::TestIfTrap { pc: 0x3fff });
}

#[test]
fn default_and_ignored_dispositions_are_reinstated() {
    let abi = SignalAbi::host();
    for handler in [libc::SIG_DFL, libc::SIG_IGN] {
        // Neither is ever called as a function, whatever the flags say.
        for flags in [0, libc::SA_ONSTACK, libc::SA_SIGINFO] {
            let previous = action(flags, handler);
            assert_eq!(previous.forward(&abi), Forward::Reinstate { action: previous });
        }
    }
}

#[test]
fn handlers_get_the_arguments_they_take() {
    let abi = SignalAbi::host();
    assert_eq!(action(0, 2).forward(&abi), Forward::CallHandler { handler: 2 });
    assert_eq!(
        action(libc::SA_SIGINFO | libc::SA_NODEFER, 2).forward(&abi),
        Forward::CallSigaction { handler: 2 }
    );
}

#[test]
fn trap_handlers_chain() {
    let abi = SignalAbi::host();
    let ours = SigAction::for_traps(&abi, 0x1234, 9u8);
    assert_eq!(ours.sa_flags, libc::SA_SIGINFO | libc::SA_NODEFER | libc::SA_ONSTACK);
    assert_eq!(ours.sa_sigaction, 0x1234);
    assert_eq!(ours.rest, 9);
    assert_eq!(ours.forward(&abi), Forward::CallSigaction { handler: 0x1234 });
}

#[test]
fn missing_handler_is_reinstated_for_a_whole_delivery() {
    for handler in [libc::SIG_DFL, libc::SIG_IGN] {
        let previous = action(libc::SA_SIGINFO, handler);
        let d = delivery(Signal::Segv, previous);
        let reinstated = || passed(Signal::Segv, Forward::Reinstate { action: previous });
        assert_eq!(run(Os::Linux, &d, None), vec![reinstated()]);
        let actions = run(Os::Linux, &d, Some((linux(), TrapTest::NotWasm)));
        assert_eq!(actions[1], reinstated());
    }
}

#[test]
fn delivery_finds_its_previous_disposition() {
    let mut previous = PreviousActions::empty();
    previous.set(Signal::Segv, action(0, 1));
    previous.set(Signal::Ill, action(0, 2));
    previous.set(Signal::Fpe, action(0, 3));
    let d = Delivery::new(&previous, Signal::Ill, 0x6000);
    assert_eq!(d, delivery(Signal::Ill, action(0, 2)));
    let d = Delivery::new(&previous, Signal::Fpe, 0x6000);
    assert_eq!(d, delivery(Signal::Fpe, action(0, 3)));
    let d = Delivery::new(&previous, Signal::Bus, 0x6000);
    assert_eq!(d, Delivery { signal: Signal::Bus, si_addr: 0x6000, previous: None });
}

#[test]
fn unknown_disposition_matters_only_when_a_signal_is_passed_on() {
    let d = Delivery { signal: Signal::Bus, si_addr: 0x6000, previous: None };
    assert_eq!(run(Os::Linux, &d, None), vec![TrapAction::NoDisposition]);
    let actions = run(Os::Linux, &d, Some((linux(), TrapTest::NotWasm)));
    assert_eq!(actions[1], TrapAction::NoDisposition);
    let actions = run(Os::Linux, &d, Some((linux(), TrapTest::HandledByEmbedder)));
    assert_eq!(actions[1], TrapAction::Return);
    let trap = TrapTest::Trap { jmp_buf: 0x99, trap: 't' };
    let actions = run(Os::Linux, &d, Some((linux(), trap)));
    assert_eq!(actions[2], TrapAction::Longjmp { jmp_buf: 0x99 });
}

#[test]
fn failed_accesses_report_their_address() {
    assert!(Signal::Segv.reports_address());
    assert!(Signal::Bus.reports_address());
    assert!(!Signal::Ill.reports_address());
    assert!(!Signal::Fpe.reports_address());
}

#[test]
fn slots_are_separate() {
    let signals = [Signal::Segv, Signal::Ill, Signal::Fpe, Signal::Bus];
    for signal in signals {
        let mut slots = PreviousActions::<u8>::empty();
        slots.set(signal, action(1, 5));
        slots.set(signal, action(2, 6));
        for other in signals {
            let expected = if other == signal { Some(action(2, 6)) } else { None };
            assert_eq!(slots.get(other), expected);
        }
    }
}
