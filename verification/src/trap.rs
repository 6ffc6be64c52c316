//! What becomes of a signal that was delivered to the handler for traps.
//!
//! The module decides what to do; its caller looks up the state of the thread, jumps,
//! returns and calls other handlers. The caller starts in [`TrapState::Delivered`] with
//! [`TrapEvent::Activation`], performs each action that [`trap_handler`] asks for, and
//! hands the outcome back as the next event, until the action is one that leaves the
//! handler.

use crate::action::{Forward, PreviousActions, SigAction};
use crate::context::{get_pc_and_fp, MachineContext};
use crate::platform::{Os, Platform, Signal, SignalAbi};
use vstd::prelude::*;

verus! {

/// A signal with what the kernel tells about it, and with the disposition it had
/// before the handler for traps was installed, if that is known.
#[derive(Debug, PartialEq, Eq)]
pub struct Delivery<R> {
    pub signal: Signal,
    /// The address in the signal's information. It counts only for a signal that reports
    /// one.
    pub si_addr: usize,
    pub previous: Option<SigAction<R>>,
}

impl<R: Copy> Delivery<R> {
    /// A signal that was delivered with an address, while `previous` holds the
    /// dispositions from before.
    pub fn new(previous: &PreviousActions<R>, signal: Signal, si_addr: usize) -> (delivery:
        Delivery<R>)
        ensures
            delivery == (Delivery { signal, si_addr, previous: previous.slot(signal) }),
    {
        Delivery { signal, si_addr, previous: previous.get(signal) }
    }
}

/// What the thread's activation of compiled code says about a faulting instruction.
#[derive(Debug, PartialEq, Eq)]
pub enum TrapTest<T> {
    /// It is not compiled code.
    NotWasm,
    /// The embedder's own handler took care of the signal.
    HandledByEmbedder,
    /// It is a trap, from which execution resumes at `jmp_buf`.
    Trap { jmp_buf: usize, trap: T },
}

/// How far the handling of a signal has come.
#[derive(Clone, Copy, Debug, PartialEq, Eq, Structural)]
pub enum TrapState {
    /// The signal was delivered.
    Delivered,
    /// The instruction at `pc` is being tested.
    Testing { pc: u64, fp: u64 },
    /// The trap is being recorded.
    Recording { jmp_buf: usize },
    /// The handler has been left.
    Finished,
}

/// The outcome of an action.
#[derive(Debug, PartialEq, Eq)]
pub enum TrapEvent<T> {
    /// The registers that were saved with the signal, if the thread is executing
    /// compiled code.
    Activation(Option<MachineContext>),
    /// The instruction was tested.
    Tested(TrapTest<T>),
    /// The trap was recorded.
    Recorded,
}

/// What to do next.
#[derive(Debug, PartialEq, Eq)]
pub enum TrapAction<R, T> {
    /// Ask the activation whether the instruction at `pc` is a trap.
    TestIfTrap { pc: u64 },
    /// Record a trap with the activation.
    SetJitTrap { pc: u64, fp: u64, faulting_addr: Option<usize>, trap: T },
    /// Jump to `jmp_buf`, out of the handler.
    Longjmp { jmp_buf: usize },
    /// Change the context to resume in a function that jumps to `jmp_buf`, then return.
    ///
    /// A jump out of the handler would leave macOS in the belief that the alternate
    /// stack is still in use, and it would not be used for the next signal. To return
    /// from the handler clears that up.
    ResumeInShim { jmp_buf: usize },
    /// Return: the signal has been handled.
    Return,
    /// Hand `signal` to the disposition from before, then return.
    Forward { signal: Signal, forward: Forward<R> },
    /// Panic: the signal is to be handed to the disposition from before, and there is
    /// none, because no handler for traps was installed for this signal.
    NoDisposition,
}

impl<R, T> TrapAction<R, T> {
    /// Whether the handler is left with this action.
    pub open spec fn leaves_handler(self) -> bool {
        match self {
            TrapAction::TestIfTrap { .. } => false,
            TrapAction::SetJitTrap { .. } => false,
            _ => true,
        }
    }
}

/// The address whose access caused the signal, where the signal reports one.
pub open spec fn faulting_addr<R>(delivery: Delivery<R>) -> Option<usize> {
    if delivery.signal.spec_reports_address() {
        Some(delivery.si_addr)
    } else {
        None
    }
}

/// What is done with a signal that is not for compiled code.
pub open spec fn passed_on<R, T>(abi: SignalAbi, delivery: Delivery<R>) -> TrapAction<R, T> {
    match delivery.previous {
        Some(action) => TrapAction::Forward {
            signal: delivery.signal,
            forward: action.spec_forward(abi),
        },
        None => TrapAction::NoDisposition,
    }
}

/// Whether an event may come in a state: it is an outcome of the action that the state
/// waits for, and the faulting instruction of compiled code has an address.
pub open spec fn may_happen<R, T>(
    delivery: Delivery<R>,
    state: TrapState,
    event: TrapEvent<T>,
) -> bool {
    match state {
        TrapState::Delivered => event matches TrapEvent::Activation(context) && (context
            matches Some(cx) ==> cx.trap_pc(delivery.signal) >= 0),
        TrapState::Testing { .. } => event is Tested,
        TrapState::Recording { .. } => event is Recorded,
        TrapState::Finished => false,
    }
}

/// The state and the action that follow an event.
pub open spec fn next<R, T>(
    platform: Platform,
    delivery: Delivery<R>,
    state: TrapState,
    event: TrapEvent<T>,
) -> (TrapState, TrapAction<R, T>) {
    match (state, event) {
        (TrapState::Delivered, TrapEvent::Activation(Some(cx))) => {
            let pc = cx.trap_pc(delivery.signal) as u64;
            let fp = cx.frame_pointer();
            (TrapState::Testing { pc, fp }, TrapAction::TestIfTrap { pc })
        },
        (TrapState::Testing { .. }, TrapEvent::Tested(TrapTest::HandledByEmbedder)) => (
            TrapState::Finished,
            TrapAction::Return,
        ),
        (TrapState::Testing { pc, fp }, TrapEvent::Tested(TrapTest::Trap { jmp_buf, trap })) => (
            TrapState::Recording { jmp_buf },
            TrapAction::SetJitTrap { pc, fp, faulting_addr: faulting_addr(delivery), trap },
        ),
        (TrapState::Recording { jmp_buf }, TrapEvent::Recorded) => (
            TrapState::Finished,
            if platform.os == Os::Macos {
                TrapAction::ResumeInShim { jmp_buf }
            } else {
                TrapAction::Longjmp { jmp_buf }
            },
        ),
        // The signal is not for any compiled code.
        _ => (TrapState::Finished, passed_on(platform.abi, delivery)),
    }
}

/// Decides what to do next with a signal, after what has been done so far and what came
/// of that.
pub fn trap_handler<R: Copy, T>(
    platform: &Platform,
    delivery: &Delivery<R>,
    state: TrapState,
    event: TrapEvent<T>,
) -> (decision: (TrapState, TrapAction<R, T>))
    requires
        may_happen(*delivery, state, event),
    ensures
        decision == next(*platform, *delivery, state, event),
{
    match (state, event) {
        (TrapState::Delivered, TrapEvent::Activation(Some(cx))) => {
            let (pc, fp) = get_pc_and_fp(&cx, delivery.signal);
            (TrapState::Testing { pc, fp }, TrapAction::TestIfTrap { pc })
        },
        (TrapState::Testing { pc, fp }, TrapEvent::Tested(test)) => match test {
            TrapTest::NotWasm => (TrapState::Finished, pass_on(&platform.abi, delivery)),
            TrapTest::HandledByEmbedder => (TrapState::Finished, TrapAction::Return),
            TrapTest::Trap { jmp_buf, trap } => {
                let faulting_addr: Option<usize> = if delivery.signal.reports_address() {
                    Some(delivery.si_addr)
                } else {
                    None
                };
                (
                    TrapState::Recording { jmp_buf },
                    TrapAction::SetJitTrap { pc, fp, faulting_addr, trap },
                )
            },
        },
        (TrapState::Recording { jmp_buf }, TrapEvent::Recorded) => {
            let action = if platform.os == Os::Macos {
                TrapAction::ResumeInShim { jmp_buf }
            } else {
                TrapAction::Longjmp { jmp_buf }
            };
            (TrapState::Finished, action)
        },
        _ => (TrapState::Finished, pass_on(&platform.abi, delivery)),
    }
}

/// Decides how a signal that is not for compiled code goes on.
fn pass_on<R: Copy, T>(abi: &SignalAbi, delivery: &Delivery<R>) -> (action: TrapAction<R, T>)
    ensures
        action == passed_on::<R, T>(*abi, *delivery),
{
    match &delivery.previous {
        Some(action) => TrapAction::Forward {
            signal: delivery.signal,
            forward: action.forward(abi),
        },
        None => TrapAction::NoDisposition,
    }
}

/// How many events are left to come at most.
pub open spec fn remaining_steps(state: TrapState) -> nat {
    match state {
        TrapState::Delivered => 3,
        TrapState::Testing { .. } => 2,
        TrapState::Recording { .. } => 1,
        TrapState::Finished => 0,
    }
}

/// The handling of a signal ends: each event brings it closer to its last state, and it
/// gets there exactly when the handler is left.
pub proof fn law_handling_ends<R, T>(
    platform: Platform,
    delivery: Delivery<R>,
    state: TrapState,
    event: TrapEvent<T>,
)
    requires
        may_happen(delivery, state, event),
    ensures
        remaining_steps(next(platform, delivery, state, event).0) < remaining_steps(state),
        next(platform, delivery, state, event).0 is Finished <==> next(
            platform,
            delivery,
            state,
            event,
        ).1.leaves_handler(),
{
}

/// The events of a signal, given whether the thread executes compiled code and, if so,
/// its registers and what the test of the faulting instruction says.
pub open spec fn events_of<T>(activation: Option<(MachineContext, TrapTest<T>)>) -> Seq<
    TrapEvent<T>,
> {
    match activation {
        None => seq![TrapEvent::Activation(None)],
        Some((cx, test)) => seq![TrapEvent::Activation(Some(cx)), TrapEvent::Tested(test)] + (
        if test is Trap {
            seq![TrapEvent::Recorded]
        } else {
            seq![]
        }),
    }
}

/// Whether each of a sequence of events may happen in its turn, from a state on.
pub open spec fn may_happen_in_turn<R, T>(
    platform: Platform,
    delivery: Delivery<R>,
    state: TrapState,
    events: Seq<TrapEvent<T>>,
) -> bool
    decreases events.len(),
{
    events.len() == 0 || {
        &&& may_happen(delivery, state, events.first())
        &&& may_happen_in_turn(
            platform,
            delivery,
            next(platform, delivery, state, events.first()).0,
            events.drop_first(),
        )
    }
}

/// The actions that a sequence of events leads to, from a state on.
pub open spec fn actions_after<R, T>(
    platform: Platform,
    delivery: Delivery<R>,
    state: TrapState,
    events: Seq<TrapEvent<T>>,
) -> Seq<TrapAction<R, T>>
    decreases events.len(),
{
    if events.len() == 0 {
        seq![]
    } else {
        let decision = next(platform, delivery, state, events.first());
        seq![decision.1] + actions_after(platform, delivery, decision.0, events.drop_first())
    }
}

/// The whole handling of a signal.
///
/// If no compiled code is executing, or if the faulting instruction is none, the signal
/// goes on to the disposition from before. If the embedder handled it, the handler
/// returns. If it is a trap, the trap is recorded first, with the address of the
/// instruction, the frame pointer and, for a failed access to memory, the address of
/// that access; only then is the handler left, by a jump or, on macOS, by a return into
/// a function that jumps.
pub proof fn law_handling_of_a_signal<R, T>(
    platform: Platform,
    delivery: Delivery<R>,
    activation: Option<(MachineContext, TrapTest<T>)>,
)
    requires
        activation matches Some((cx, _)) ==> cx.trap_pc(delivery.signal) >= 0,
    ensures
        may_happen_in_turn(platform, delivery, TrapState::Delivered, events_of(activation)),
        ({
            let passed_on = passed_on::<R, T>(platform.abi, delivery);
            actions_after(platform, delivery, TrapState::Delivered, events_of(activation))
                == match activation {
                None => seq![passed_on],
                Some((cx, test)) => {
                    let pc = cx.trap_pc(delivery.signal) as u64;
                    let fp = cx.frame_pointer();
                    let faulting_addr = faulting_addr(delivery);
                    seq![TrapAction::TestIfTrap { pc }] + match test {
                        TrapTest::NotWasm => seq![passed_on],
                        TrapTest::HandledByEmbedder => seq![TrapAction::Return],
                        TrapTest::Trap { jmp_buf, trap } => seq![
                            TrapAction::SetJitTrap { pc, fp, faulting_addr, trap },
                            if platform.os == Os::Macos {
                                TrapAction::ResumeInShim { jmp_buf }
                            } else {
                                TrapAction::Longjmp { jmp_buf }
                            },
                        ],
                    }
                },
            }
        }),
{
    reveal_with_fuel(may_happen_in_turn, 4);
    reveal_with_fuel(actions_after, 4);
    let events = events_of(activation);
    if activation is Some {
        assert(events.drop_first()[0] == events[1]);
        if (activation->0).1 is Trap {
            assert(events.drop_first().drop_first()[0] == events[2]);
        }
    }
}

/// A signal goes on to the disposition from before exactly if it is not for compiled
/// code, and then only once and last. Only there does it matter whether a disposition is
/// known: the handling of a trap never needs one.
pub proof fn law_passed_on_iff_not_for_wasm<R, T>(
    platform: Platform,
    delivery: Delivery<R>,
    activation: Option<(MachineContext, TrapTest<T>)>,
)
    requires
        activation matches Some((cx, _)) ==> cx.trap_pc(delivery.signal) >= 0,
    ensures
        ({
            let actions = actions_after(
                platform,
                delivery,
                TrapState::Delivered,
                events_of(activation),
            );
            let for_wasm = activation is Some && !((activation->0).1 is NotWasm);
            &&& !for_wasm ==> actions.last() == passed_on::<R, T>(platform.abi, delivery)
            &&& for_wasm ==> !(actions.last() is Forward) && !(actions.last() is NoDisposition)
            &&& forall|i: int|
                0 <= i < actions.len() - 1 ==> !((#[trigger] actions[i]) is Forward) && !(
                actions[i] is NoDisposition)
        }),
{
    law_handling_of_a_signal(platform, delivery, activation);
}

/// Without a handler from before, a signal that is not for compiled code is never handed
/// to a function: its disposition becomes the current one again.
pub proof fn law_no_handler_reinstates<R, T>(
    platform: Platform,
    delivery: Delivery<R>,
    activation: Option<(MachineContext, TrapTest<T>)>,
)
    requires
        activation matches Some((cx, test)) ==> cx.trap_pc(delivery.signal) >= 0
            && test is NotWasm,
        delivery.previous matches Some(action) && action.has_no_handler(platform.abi),
    ensures
        actions_after(
            platform,
            delivery,
            TrapState::Delivered,
            events_of(activation),
        ).last() == (TrapAction::<R, T>::Forward {
            signal: delivery.signal,
            forward: Forward::Reinstate { action: delivery.previous->0 },
        }),
{
    law_handling_of_a_signal(platform, delivery, activation);
}

} // verus!
