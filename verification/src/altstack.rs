//! The alternate signal stack of a thread.
//!
//! The stack that Rust's standard library registers for signal handlers is not always
//! large enough for the handling of traps. A thread that has no large enough stack
//! gets one of its own, with a guard page below it.
//!
//! The module decides what to do; its caller makes the system calls. The caller keeps one
//! [`StackState`] for each thread, [`StackState::Start`] at first. When the thread is to
//! get its stack, the caller passes [`StackEvent::Begin`] to [`lazy_per_thread_init`],
//! performs each action that it asks for, and hands the outcome back as the next event.
//! When the thread ends, the caller passes [`StackEvent::ThreadExit`]. A thread gets its
//! stack at most once.

use crate::platform::SignalAbi;
use vstd::prelude::*;

verus! {

/// The size of the alternate stack, without its guard page: 64k. Large enough to run the
/// signal handlers, whose main need is the allocation of a backtrace; for some allocators
/// 16k is not.
pub const MIN_STACK_SIZE: usize = 64 * 1024;

/// An alternate stack, as the system call `sigaltstack` describes it.
#[derive(Clone, Copy, Debug, PartialEq, Eq, Structural)]
pub struct StackDescription {
    pub ss_sp: usize,
    pub ss_flags: i32,
    pub ss_size: usize,
}

impl StackDescription {
    /// Whether handlers can run on this stack: it is switched on and large enough.
    pub open spec fn is_adequate(self, abi: SignalAbi) -> bool {
        self.ss_flags & abi.ss_disable == 0 && self.ss_size >= MIN_STACK_SIZE
    }

    /// Whether handlers can run on this stack.
    pub fn adequate(&self, abi: &SignalAbi) -> (adequate: bool)
        ensures
            adequate == self.is_adequate(*abi),
    {
        self.ss_flags & abi.ss_disable == 0 && self.ss_size >= MIN_STACK_SIZE
    }
}

/// A mapping of memory that holds an alternate stack and its guard page.
#[derive(Clone, Copy, Debug, PartialEq, Eq, Structural)]
pub struct Stack {
    pub mmap_ptr: usize,
    pub mmap_size: usize,
}

/// How far a thread has come.
#[derive(Clone, Copy, Debug, PartialEq, Eq, Structural)]
pub enum StackState {
    /// It has not asked for a stack.
    Start,
    /// It has asked for the registered stack.
    Querying,
    /// It has asked for memory.
    Mapping { mmap_size: usize },
    /// It has asked for access to the memory above the guard page.
    Protecting { stack: Stack, stack_ptr: usize },
    /// It has asked to register the new stack.
    Registering { stack: Stack },
    /// It has all that it needs, or has failed to get it, and goes about its work. It owns
    /// the stack that was made for it, if one was.
    Settled { owned: Option<Stack> },
    /// It ends and has asked to unmap what it owns.
    Unmapping,
    /// It has ended.
    Ended,
}

/// The outcome of an action.
#[derive(Clone, Copy, Debug, PartialEq, Eq, Structural)]
pub enum StackEvent {
    /// The thread is to get its stack.
    Begin,
    /// `sigaltstack` returned `rc` and described the registered stack as `old_stack`.
    Queried { rc: i32, old_stack: StackDescription },
    /// The memory was mapped at an address, or not at all.
    Mapped(Option<usize>),
    /// The access was changed, or not.
    Protected { done: bool },
    /// `sigaltstack` returned `rc`.
    Registered { rc: i32 },
    /// The thread ends.
    ThreadExit,
    /// The memory was unmapped, or not.
    Unmapped { done: bool },
}

/// What to do next.
#[derive(Clone, Copy, Debug, PartialEq, Eq, Structural)]
pub enum StackAction {
    /// Ask `sigaltstack` for the registered stack.
    Query,
    /// Map `len` bytes of private, anonymous memory, with no access to it.
    Mmap { len: usize },
    /// Allow reads and writes of `len` bytes from `addr`.
    Mprotect { addr: usize, len: usize },
    /// Register the stack with `sigaltstack`.
    Register(StackDescription),
    /// Nothing more for now. The thread owns the stack that was made for it, if one was.
    Done(Option<Stack>),
    /// Panic.
    Panic(StackFailure),
    /// Unmap `len` bytes from `addr`.
    Munmap { addr: usize, len: usize },
    /// Nothing more at all.
    Exit,
    /// Panic if this is a debug build.
    DebugPanic(StackFailure),
}

/// What went wrong.
#[derive(Clone, Copy, Debug, PartialEq, Eq, Structural)]
pub enum StackFailure {
    Query,
    Mmap,
    Mprotect,
    Register,
    Munmap,
}

impl StackFailure {
    /// The words to panic with. Those of a `sigaltstack` that failed are followed by
    /// the system's last error.
    pub fn message(self) -> (text: &'static str)
        ensures
            text@ == match self {
                StackFailure::Query => "learning about sigaltstack failed"@,
                StackFailure::Mmap => "failed to allocate memory for sigaltstack"@,
                StackFailure::Mprotect => "mprotect to configure memory for sigaltstack failed"@,
                StackFailure::Register => "registering new sigaltstack failed"@,
                StackFailure::Munmap => "munmap failed during thread shutdown"@,
            },
    {
        match self {
            StackFailure::Query => "learning about sigaltstack failed",
            StackFailure::Mmap => "failed to allocate memory for sigaltstack",
            StackFailure::Mprotect => "mprotect to configure memory for sigaltstack failed",
            StackFailure::Register => "registering new sigaltstack failed",
            StackFailure::Munmap => "munmap failed during thread shutdown",
        }
    }
}

/// Whether an event may come in a state: it is an outcome of the action that the state
/// waits for, or, between actions, the thread's own doing, and the addresses that it leads
/// to exist.
///
/// A thread asks for its stack only once: to begin again would be to give up the owner of
/// a stack that is still registered. A page must fit into the address space together with
/// the stack, and a mapping must end inside it.
pub open spec fn may_happen(
    abi: SignalAbi,
    page_size: usize,
    state: StackState,
    event: StackEvent,
) -> bool {
    match (state, event) {
        (StackState::Start, StackEvent::Begin) => true,
        (StackState::Start, StackEvent::ThreadExit) => true,
        (StackState::Querying, StackEvent::Queried { rc, old_stack }) => rc == 0
            && !old_stack.is_adequate(abi) ==> page_size + MIN_STACK_SIZE <= usize::MAX,
        (StackState::Mapping { .. }, StackEvent::Mapped(Some(ptr))) => ptr + page_size
            <= usize::MAX,
        (StackState::Mapping { .. }, StackEvent::Mapped(None)) => true,
        (StackState::Protecting { .. }, StackEvent::Protected { .. }) => true,
        (StackState::Registering { .. }, StackEvent::Registered { .. }) => true,
        (StackState::Settled { .. }, StackEvent::ThreadExit) => true,
        (StackState::Unmapping, StackEvent::Unmapped { .. }) => true,
        _ => false,
    }
}

/// A thread that has failed to get a stack: it owns none.
pub open spec fn failed(failure: StackFailure) -> (StackState, StackAction) {
    (StackState::Settled { owned: None }, StackAction::Panic(failure))
}

/// A thread that needs no more, with the stack that was made for it.
pub open spec fn settled(owned: Option<Stack>) -> (StackState, StackAction) {
    (StackState::Settled { owned }, StackAction::Done(owned))
}

/// The state and the action that follow an event.
pub open spec fn next(
    abi: SignalAbi,
    page_size: usize,
    state: StackState,
    event: StackEvent,
) -> (StackState, StackAction) {
    match (state, event) {
        (StackState::Start, StackEvent::Begin) => (StackState::Querying, StackAction::Query),
        (StackState::Querying, StackEvent::Queried { rc, old_stack }) => if rc != 0 {
            failed(StackFailure::Query)
        } else if old_stack.is_adequate(abi) {
            settled(None)
        } else {
            let mmap_size = (page_size + MIN_STACK_SIZE) as usize;
            (StackState::Mapping { mmap_size }, StackAction::Mmap { len: mmap_size })
        },
        (StackState::Mapping { .. }, StackEvent::Mapped(None)) => failed(StackFailure::Mmap),
        (StackState::Mapping { mmap_size }, StackEvent::Mapped(Some(ptr))) => {
            let stack = Stack { mmap_ptr: ptr, mmap_size };
            let stack_ptr = (ptr + page_size) as usize;
            (
                StackState::Protecting { stack, stack_ptr },
                StackAction::Mprotect { addr: stack_ptr, len: MIN_STACK_SIZE },
            )
        },
        (StackState::Protecting { stack, stack_ptr }, StackEvent::Protected { done }) => if done {
            let new_stack = StackDescription {
                ss_sp: stack_ptr,
                ss_flags: 0,
                ss_size: MIN_STACK_SIZE,
            };
            (StackState::Registering { stack }, StackAction::Register(new_stack))
        } else {
            failed(StackFailure::Mprotect)
        },
        (StackState::Registering { stack }, StackEvent::Registered { rc }) => if rc == 0 {
            settled(Some(stack))
        } else {
            failed(StackFailure::Register)
        },
        (StackState::Settled { owned: Some(stack) }, StackEvent::ThreadExit) => (
            StackState::Unmapping,
            StackAction::Munmap { addr: stack.mmap_ptr, len: stack.mmap_size },
        ),
        (StackState::Unmapping, StackEvent::Unmapped { done: false }) => (
            StackState::Ended,
            StackAction::DebugPanic(StackFailure::Munmap),
        ),
        // The thread ends and owns nothing, or no longer.
        _ => (StackState::Ended, StackAction::Exit),
    }
}

/// Decides what a thread does next about its alternate signal stack, after what it has
/// done so far and what came of that: from the time it is to get a stack that is large
/// enough until it ends.
pub fn lazy_per_thread_init(
    abi: &SignalAbi,
    page_size: usize,
    state: StackState,
    event: StackEvent,
) -> (decision: (StackState, StackAction))
    requires
        may_happen(*abi, page_size, state, event),
    ensures
        decision == next(*abi, page_size, state, event),
{
    match event {
        StackEvent::Begin => (StackState::Querying, StackAction::Query),
        StackEvent::Queried { rc, old_stack } => {
            if rc != 0 {
                fail(StackFailure::Query)
            } else if old_stack.adequate(abi) {
                // A stack that is registered and big enough needs no replacement.
                (StackState::Settled { owned: None }, StackAction::Done(None))
            } else {
                // Failing that, allocate a stack and a page to guard it.
                let mmap_size: usize = page_size + MIN_STACK_SIZE;
                (StackState::Mapping { mmap_size }, StackAction::Mmap { len: mmap_size })
            }
        },
        StackEvent::Mapped(mapped) => match (state, mapped) {
            (StackState::Mapping { mmap_size }, Some(ptr)) => {
                let stack = Stack { mmap_ptr: ptr, mmap_size };
                let stack_ptr: usize = ptr + page_size;
                (
                    StackState::Protecting { stack, stack_ptr },
                    StackAction::Mprotect { addr: stack_ptr, len: MIN_STACK_SIZE },
                )
            },
            _ => fail(StackFailure::Mmap),
        },
        StackEvent::Protected { done } => match state {
            StackState::Protecting { stack, stack_ptr } if done => {
                let new_stack = StackDescription {
                    ss_sp: stack_ptr,
                    ss_flags: 0,
                    ss_size: MIN_STACK_SIZE,
                };
                (StackState::Registering { stack }, StackAction::Register(new_stack))
            },
            _ => fail(StackFailure::Mprotect),
        },
        StackEvent::Registered { rc } => match state {
            StackState::Registering { stack } if rc == 0 => (
                StackState::Settled { owned: Some(stack) },
                StackAction::Done(Some(stack)),
            ),
            _ => fail(StackFailure::Register),
        },
        StackEvent::ThreadExit => match state {
            StackState::Settled { owned: Some(stack) } => (
                StackState::Unmapping,
                StackAction::Munmap { addr: stack.mmap_ptr, len: stack.mmap_size },
            ),
            _ => (StackState::Ended, StackAction::Exit),
        },
        StackEvent::Unmapped { done } => if done {
            (StackState::Ended, StackAction::Exit)
        } else {
            (StackState::Ended, StackAction::DebugPanic(StackFailure::Munmap))
        },
    }
}

/// A thread that has failed to get a stack.
fn fail(failure: StackFailure) -> (decision: (StackState, StackAction))
    ensures
        decision == failed(failure),
{
    (StackState::Settled { owned: None }, StackAction::Panic(failure))
}

/// How many events are left to come at most.
pub open spec fn remaining_steps(state: StackState) -> nat {
    match state {
        StackState::Start => 7,
        StackState::Querying => 6,
        StackState::Mapping { .. } => 5,
        StackState::Protecting { .. } => 4,
        StackState::Registering { .. } => 3,
        StackState::Settled { .. } => 2,
        StackState::Unmapping => 1,
        StackState::Ended => 0,
    }
}

/// A thread comes to its end: each event brings it closer to its last state. On the way
/// it settles exactly when it is told that there is nothing more to do for now or that it
/// failed, and it then owns exactly what it was told to own.
pub proof fn law_thread_comes_to_an_end(
    abi: SignalAbi,
    page_size: usize,
    state: StackState,
    event: StackEvent,
)
    requires
        may_happen(abi, page_size, state, event),
    ensures
        ({
            let (after, action) = next(abi, page_size, state, event);
            &&& remaining_steps(after) < remaining_steps(state)
            &&& after is Settled <==> action is Done || action is Panic
            &&& after matches StackState::Settled { owned } ==> owned == (if action is Done {
                action->Done_0
            } else {
                None
            })
        }),
{
}

/// Memory is unmapped only when a thread ends, and then exactly what the thread owns.
/// After that the thread unmaps nothing again.
pub proof fn law_only_owned_memory_is_unmapped(
    abi: SignalAbi,
    page_size: usize,
    state: StackState,
    event: StackEvent,
)
    requires
        may_happen(abi, page_size, state, event),
    ensures
        next(abi, page_size, state, event).1 is Munmap <==> event is ThreadExit && state
            matches StackState::Settled { owned: Some(_) },
        next(abi, page_size, state, event).1 matches StackAction::Munmap { addr, len } ==> state
            == (StackState::Settled { owned: Some(Stack { mmap_ptr: addr, mmap_size: len }) }),
        state is Unmapping || state is Ended ==> !(next(abi, page_size, state, event).1 is Munmap)
            && next(abi, page_size, state, event).0 is Ended,
{
}

/// Whether each of a sequence of events may happen in its turn, from a state on.
pub open spec fn may_happen_in_turn(
    abi: SignalAbi,
    page_size: usize,
    state: StackState,
    events: Seq<StackEvent>,
) -> bool
    decreases events.len(),
{
    events.len() == 0 || {
        &&& may_happen(abi, page_size, state, events.first())
        &&& may_happen_in_turn(
            abi,
            page_size,
            next(abi, page_size, state, events.first()).0,
            events.drop_first(),
        )
    }
}

/// The actions that a sequence of events leads to, from a state on.
pub open spec fn actions_after(
    abi: SignalAbi,
    page_size: usize,
    state: StackState,
    events: Seq<StackEvent>,
) -> Seq<StackAction>
    decreases events.len(),
{
    if events.len() == 0 {
        seq![]
    } else {
        let decision = next(abi, page_size, state, events.first());
        seq![decision.1] + actions_after(abi, page_size, decision.0, events.drop_first())
    }
}

/// The state that a sequence of events leads to.
pub open spec fn state_after(
    abi: SignalAbi,
    page_size: usize,
    state: StackState,
    events: Seq<StackEvent>,
) -> StackState
    decreases events.len(),
{
    if events.len() == 0 {
        state
    } else {
        state_after(
            abi,
            page_size,
            next(abi, page_size, state, events.first()).0,
            events.drop_first(),
        )
    }
}

/// A thread whose stack is switched on and large enough keeps it: nothing is mapped,
/// nothing is registered and nothing is owned, and when the thread ends nothing is
/// unmapped.
pub proof fn law_adequate_stack_is_kept(
    abi: SignalAbi,
    page_size: usize,
    old_stack: StackDescription,
)
    requires
        old_stack.is_adequate(abi),
    ensures
        ({
            let events = seq![
                StackEvent::Begin,
                StackEvent::Queried { rc: 0, old_stack },
                StackEvent::ThreadExit,
            ];
            &&& may_happen_in_turn(abi, page_size, StackState::Start, events)
            &&& actions_after(abi, page_size, StackState::Start, events) == seq![
                StackAction::Query,
                StackAction::Done(None),
                StackAction::Exit,
            ]
        }),
{
    reveal_with_fuel(may_happen_in_turn, 4);
    reveal_with_fuel(actions_after, 4);
    let events = seq![
        StackEvent::Begin,
        StackEvent::Queried { rc: 0, old_stack },
        StackEvent::ThreadExit,
    ];
    assert(events.drop_first()[0] == events[1]);
    assert(events.drop_first().drop_first()[0] == events[2]);
}

/// The events of a thread that makes a stack of its own: it learns that the registered
/// one is `old_stack`, its memory is mapped at `ptr`, and every action succeeds.
pub open spec fn new_stack_events(old_stack: StackDescription, ptr: usize) -> Seq<StackEvent> {
    seq![
        StackEvent::Begin,
        StackEvent::Queried { rc: 0, old_stack },
        StackEvent::Mapped(Some(ptr)),
        StackEvent::Protected { done: true },
        StackEvent::Registered { rc: 0 },
    ]
}

/// A thread without an adequate stack ends up with one that has a guard page.
///
/// The mapping consists of one page and, from the page's end on, the stack. Exactly
/// the stack is made accessible and registered, so that the page below it, where the
/// stack would overflow to, stays without access. The registered stack is adequate,
/// and the whole mapping, no more and no less, is what the thread comes to own.
pub proof fn law_new_stack_is_guarded(
    abi: SignalAbi,
    page_size: usize,
    old_stack: StackDescription,
    ptr: usize,
)
    requires
        !old_stack.is_adequate(abi),
        ptr + page_size + MIN_STACK_SIZE <= usize::MAX,
    ensures
        may_happen_in_turn(abi, page_size, StackState::Start, new_stack_events(old_stack, ptr)),
        ({
            let actions = actions_after(
                abi,
                page_size,
                StackState::Start,
                new_stack_events(old_stack, ptr),
            );
            &&& actions.len() == 5
            &&& actions[0] is Query
            &&& actions[1] matches StackAction::Mmap { len: mapped_len }
            &&& actions[2] matches StackAction::Mprotect { addr, len }
            &&& actions[3] matches StackAction::Register(registered)
            &&& actions[4] matches StackAction::Done(Some(owned))
            // The stack lies at the end of the mapping, one page above its start.
            &&& addr == ptr + page_size
            &&& addr + len == ptr + mapped_len
            // What is registered is what was made accessible.
            &&& registered.ss_sp == addr
            &&& registered.ss_size == len
            &&& registered.is_adequate(abi)
            // What is owned is what was mapped.
            &&& owned.mmap_ptr == ptr
            &&& owned.mmap_size == mapped_len
            &&& state_after(
                abi,
                page_size,
                StackState::Start,
                new_stack_events(old_stack, ptr),
            ) == (StackState::Settled { owned: Some(owned) })
        }),
{
    reveal_with_fuel(may_happen_in_turn, 6);
    reveal_with_fuel(actions_after, 6);
    reveal_with_fuel(state_after, 6);
    let e0 = new_stack_events(old_stack, ptr);
    let e1 = e0.drop_first();
    let e2 = e1.drop_first();
    let e3 = e2.drop_first();
    let e4 = e3.drop_first();
    assert(e1[0] == e0[1] && e2[0] == e0[2] && e3[0] == e0[3] && e4[0] == e0[4]);
    assert(e4.drop_first() =~= seq![]);
    assert(forall|flag: i32| 0i32 & flag == 0) by (bit_vector);
}

/// The whole life of a thread with a stack of its own: what was mapped is unmapped, all of
/// it with its guard page, once, when the thread ends and not before.
#[verifier::spinoff_prover]
pub proof fn law_new_stack_is_unmapped_at_exit(
    abi: SignalAbi,
    page_size: usize,
    old_stack: StackDescription,
    ptr: usize,
    done: bool,
)
    requires
        !old_stack.is_adequate(abi),
        ptr + page_size + MIN_STACK_SIZE <= usize::MAX,
    ensures
        ({
            let events = new_stack_events(old_stack, ptr) + seq![
                StackEvent::ThreadExit,
                StackEvent::Unmapped { done },
            ];
            let len = (page_size + MIN_STACK_SIZE) as usize;
            let stack_ptr = (ptr + page_size) as usize;
            &&& may_happen_in_turn(abi, page_size, StackState::Start, events)
            &&& actions_after(abi, page_size, StackState::Start, events) == seq![
                StackAction::Query,
                StackAction::Mmap { len },
                StackAction::Mprotect { addr: stack_ptr, len: MIN_STACK_SIZE },
                StackAction::Register(
                    StackDescription { ss_sp: stack_ptr, ss_flags: 0, ss_size: MIN_STACK_SIZE },
                ),
                StackAction::Done(Some(Stack { mmap_ptr: ptr, mmap_size: len })),
                StackAction::Munmap { addr: ptr, len },
                if done {
                    StackAction::Exit
                } else {
                    StackAction::DebugPanic(StackFailure::Munmap)
                },
            ]
        }),
{
    reveal_with_fuel(may_happen_in_turn, 8);
    reveal_with_fuel(actions_after, 8);
    let e0 = new_stack_events(old_stack, ptr) + seq![
        StackEvent::ThreadExit,
        StackEvent::Unmapped { done },
    ];
    let e1 = e0.drop_first();
    let e2 = e1.drop_first();
    let e3 = e2.drop_first();
    let e4 = e3.drop_first();
    let e5 = e4.drop_first();
    let e6 = e5.drop_first();
    assert(e1[0] == e0[1] && e2[0] == e0[2] && e3[0] == e0[3] && e4[0] == e0[4] && e5[0] == e0[5]
        && e6[0] == e0[6]);
    assert(e6.drop_first() =~= seq![]);
}

/// A thread asks for its stack at most once.
///
/// It may begin only while it has not asked before. For a thread with a stack of its own
/// there is a reason: to ask again would find the registered stack adequate and would end
/// with no stack owned, so that the memory of the registered stack would lose its owner
/// and be unmapped while handlers still run on it.
pub proof fn law_second_initialization_is_excluded(
    abi: SignalAbi,
    page_size: usize,
    old_stack: StackDescription,
    ptr: usize,
)
    requires
        !old_stack.is_adequate(abi),
        ptr + page_size + MIN_STACK_SIZE <= usize::MAX,
    ensures
        forall|state: StackState| #[trigger]
            may_happen(abi, page_size, state, StackEvent::Begin) <==> state is Start,
        forall|state: StackState, event: StackEvent|
            may_happen(abi, page_size, state, event) ==> !((#[trigger] next(
                abi,
                page_size,
                state,
                event,
            )).0 is Start),
        ({
            let actions = actions_after(
                abi,
                page_size,
                StackState::Start,
                new_stack_events(old_stack, ptr),
            );
            &&& actions[3] matches StackAction::Register(registered)
            &&& actions[4] matches StackAction::Done(Some(owned))
            &&& owned.mmap_ptr <= registered.ss_sp
            &&& registered.ss_sp + registered.ss_size <= owned.mmap_ptr + owned.mmap_size
            &&& next(
                abi,
                page_size,
                StackState::Querying,
                StackEvent::Queried { rc: 0, old_stack: registered },
            ) == settled(None)
        }),
{
    law_new_stack_is_guarded(abi, page_size, old_stack, ptr);
}

/// A failure ends the initialization with a panic, and the thread then owns nothing:
/// memory that was already mapped for it stays mapped.
pub proof fn law_failure_leaves_nothing_owned(
    abi: SignalAbi,
    page_size: usize,
    state: StackState,
    event: StackEvent,
)
    requires
        may_happen(abi, page_size, state, event),
        next(abi, page_size, state, event).1 is Panic,
    ensures
        next(
            abi,
            page_size,
            next(abi, page_size, state, event).0,
            StackEvent::ThreadExit,
        ) == (StackState::Ended, StackAction::Exit),
{
}

} // verus!
