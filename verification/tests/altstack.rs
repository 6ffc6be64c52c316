use wasm_signals::altstack::{
    lazy_per_thread_init, Stack, StackAction, StackDescription, StackEvent, StackFailure,
    StackState, MIN_STACK_SIZE,
};
use wasm_signals::platform::SignalAbi;

const PAGE: usize = 4096;

fn run(events: &[StackEvent]) -> Vec<StackAction> {
    let abi = SignalAbi::host();
    let mut state = StackState::Start;
    let mut actions = Vec::new();
    for event in events {
        let (next, action) = lazy_per_thread_init(&abi, PAGE, state, *event);
        state = next;
        actions.push(action);
    }
    actions
}

fn queried(ss_flags: i32, ss_size: usize) -> StackEvent {
    StackEvent::Queried { rc: 0, old_stack: StackDescription { ss_sp: 0x100, ss_flags, ss_size } }
}

#[test]
fn minimum_size() {
    assert_eq!(MIN_STACK_SIZE, 65_536);
}

#[test]
fn adequate_stack_is_kept() {
    let actions = run(&[StackEvent::Begin, queried(0, MIN_STACK_SIZE)]);
    assert_eq!(actions, vec![StackAction::Query, StackAction::Done(None)]);
    let actions = run(&[StackEvent::Begin, queried(0, MIN_STACK_SIZE + 1)]);
    assert_eq!(actions, vec![StackAction::Query, StackAction::Done(None)]);
}

#[test]
fn stack_in_use_is_adequate() {
    let actions = run(&[StackEvent::Begin, queried(libc::SS_ONSTACK, MIN_STACK_SIZE)]);
    assert_eq!(actions, vec![StackAction::Query, StackAction::Done(None)]);
}

#[test]
fn small_or_disabled_stack_is_replaced() {
    for old in [queried(0, MIN_STACK_SIZE - 1), queried(libc::SS_DISABLE, MIN_STACK_SIZE)] {
        let actions = run(&[
            StackEvent::Begin,
            old,
            StackEvent::Mapped(Some(0x10_0000)),
            StackEvent::Protected { done: true },
            StackEvent::Registered { rc: 0 },
        ]);
        let stack_ptr = 0x10_1000;
        let new_stack =
            StackDescription { ss_sp: stack_ptr, ss_flags: 0, ss_size: MIN_STACK_SIZE };
        assert_eq!(
            actions,
            vec![
                StackAction::Query,
                StackAction::Mmap { len: 69_632 },
                StackAction::Mprotect { addr: stack_ptr, len: 65_536 },
                StackAction::Register(new_stack),
                StackAction::Done(Some(Stack { mmap_ptr: 0x10_0000, mmap_size: 69_632 })),
            ]
        );
        // What was registered is adequate.
        assert!(new_stack.adequate(&SignalAbi::host()));
    }
}

#[test]
fn failed_query_panics() {
    let old_stack = StackDescription { ss_sp: 0, ss_flags: 0, ss_size: MIN_STACK_SIZE };
    let actions = run(&[StackEvent::Begin, StackEvent::Queried { rc: -1, old_stack }]);
    assert_eq!(actions[1], StackAction::Panic(StackFailure::Query));
}

#[test]
fn failed_mapping_panics() {
    let actions = run(&[StackEvent::Begin, queried(0, 0), StackEvent::Mapped(None)]);
    assert_eq!(actions[2], StackAction::Panic(StackFailure::Mmap));
}

#[test]
fn failed_protection_panics() {
    let actions = run(&[
        StackEvent::Begin,
        queried(0, 0),
        StackEvent::Mapped(Some(PAGE)),
        StackEvent::Protected { done: false },
    ]);
    assert_eq!(actions[3], StackAction::Panic(StackFailure::Mprotect));
}

#[test]
fn failed_registration_panics() {
    let actions = run(&[
        StackEvent::Begin,
        queried(0, 0),
        StackEvent::Mapped(Some(PAGE)),
        StackEvent::Protected { done: true },
        StackEvent::Registered { rc: -1 },
    ]);
    assert_eq!(actions[4], StackAction::Panic(StackFailure::Register));
}

#[test]
fn failures_have_their_messages() {
    assert_eq!(StackFailure::Query.message(), "learning about sigaltstack failed");
    assert_eq!(StackFailure::Mmap.message(), "failed to allocate memory for sigaltstack");
    assert_eq!(
        StackFailure::Mprotect.message(),
        "mprotect to configure memory for sigaltstack failed"
    );
    assert_eq!(StackFailure::Register.message(), "registering new sigaltstack failed");
    assert_eq!(StackFailure::Munmap.message(), "munmap failed during thread shutdown");
}

#[test]
fn disabled_empty_stack_is_replaced_by_one_of_64k() {
    let actions = run(&[
        StackEvent::Begin,
        queried(libc::SS_DISABLE, 0),
        StackEvent::Mapped(Some(0x10_0000)),
        StackEvent::Protected { done: true },
        StackEvent::Registered { rc: 0 },
    ]);
    let new_stack = StackDescription { ss_sp: 0x10_1000, ss_flags: 0, ss_size: 65_536 };
    assert_eq!(actions[3], StackAction::Register(new_stack));
}

fn exit_of_a_thread_with_a_stack(done: bool) -> Vec<StackAction> {
    run(&[
        StackEvent::Begin,
        queried(0, 0),
        StackEvent::Mapped(Some(0x10_0000)),
        StackEvent::Protected { done: true },
        StackEvent::Registered { rc: 0 },
        StackEvent::ThreadExit,
        StackEvent::Unmapped { done },
    ])
}

#[test]
fn whole_mapping_is_unmapped_at_exit() {
    let actions = exit_of_a_thread_with_a_stack(true);
    assert_eq!(actions[1], StackAction::Mmap { len: 69_632 });
    assert_eq!(actions[5], StackAction::Munmap { addr: 0x10_0000, len: 69_632 });
    assert_eq!(actions[6], StackAction::Exit);
    let unmapped = actions.iter().filter(|a| matches!(a, StackAction::Munmap { .. })).count();
    assert_eq!(unmapped, 1);
}

#[test]
fn failed_unmapping_panics_in_a_debug_build() {
    let actions = exit_of_a_thread_with_a_stack(false);
    assert_eq!(actions[6], StackAction::DebugPanic(StackFailure::Munmap));
}

#[test]
fn nothing_is_unmapped_where_nothing_is_owned() {
    assert_eq!(run(&[StackEvent::ThreadExit]), vec![StackAction::Exit]);
    let actions = run(&[StackEvent::Begin, queried(0, MIN_STACK_SIZE), StackEvent::ThreadExit]);
    assert_eq!(actions, vec![StackAction::Query, StackAction::Done(None), StackAction::Exit]);
    let actions = run(&[
        StackEvent::Begin,
        queried(0, 0),
        StackEvent::Mapped(None),
        StackEvent::ThreadExit,
    ]);
    assert_eq!(actions[3], StackAction::Exit);
}

#[test]
fn thread_owns_what_it_is_told_to_own() {
    let abi = SignalAbi::host();
    let stack = Stack { mmap_ptr: 0x10_0000, mmap_size: 69_632 };
    let (state, action) = lazy_per_thread_init(
        &abi,
        PAGE,
        StackState::Registering { stack },
        StackEvent::Registered { rc: 0 },
    );
    assert_eq!(state, StackState::Settled { owned: Some(stack) });
    assert_eq!(action, StackAction::Done(Some(stack)));
    let (state, _) =
        lazy_per_thread_init(&abi, PAGE, StackState::Querying, queried(0, MIN_STACK_SIZE));
    assert_eq!(state, StackState::Settled { owned: None });
}
