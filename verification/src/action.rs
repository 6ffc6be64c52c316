//! Dispositions of signals, as the system call `sigaction` sets and reports them.

use crate::platform::{Signal, SignalAbi};
use vstd::prelude::*;

verus! {

/// The disposition of a signal: what the system call `sigaction` takes and gives.
///
/// `rest` is what the decisions of this crate do not look at, such as the signals that
/// are blocked while a handler runs. It is handed back as it came.
#[derive(Clone, Copy, Debug, PartialEq, Eq)]
pub struct SigAction<R> {
    pub sa_flags: i32,
    pub sa_sigaction: usize,
    pub rest: R,
}

/// How a signal that is not a trap goes on to the disposition from before.
#[derive(Debug, PartialEq, Eq)]
pub enum Forward<R> {
    /// Call the handler with the signal's number, its information and its context.
    CallSigaction { handler: usize },
    /// Make `action`, the disposition from before, the current one again with `sigaction`,
    /// and return: the faulting instruction is then executed again, and the signal takes
    /// its usual effect.
    Reinstate { action: SigAction<R> },
    /// Call the handler with the signal's number.
    CallHandler { handler: usize },
}

impl<R> SigAction<R> {
    /// Whether the disposition is a handler with three arguments.
    pub open spec fn takes_siginfo(self, abi: SignalAbi) -> bool {
        self.sa_flags & abi.sa_siginfo != 0
    }

    /// Whether the disposition names no handler: the signal has its default effect or
    /// none.
    pub open spec fn has_no_handler(self, abi: SignalAbi) -> bool {
        self.sa_sigaction == abi.sig_dfl || self.sa_sigaction == abi.sig_ign
    }

    /// How a signal goes on to this disposition.
    pub open spec fn spec_forward(self, abi: SignalAbi) -> Forward<R> {
        if self.has_no_handler(abi) {
            Forward::Reinstate { action: self }
        } else if self.takes_siginfo(abi) {
            Forward::CallSigaction { handler: self.sa_sigaction }
        } else {
            Forward::CallHandler { handler: self.sa_sigaction }
        }
    }

    /// How a signal goes on to this disposition.
    ///
    /// If there is no handler, the process is to crash, whatever the flags say: the
    /// disposition becomes the current one again, and the faulting instruction is
    /// executed once more. A handler either crashes, repairs what is wrong and returns, or
    /// causes a crash by itself.
    pub fn forward(&self, abi: &SignalAbi) -> (forward: Forward<R>) where R: Copy
        ensures
            forward == self.spec_forward(*abi),
    {
        if self.sa_sigaction == abi.sig_dfl || self.sa_sigaction == abi.sig_ign {
            Forward::Reinstate { action: *self }
        } else if self.sa_flags & abi.sa_siginfo != 0 {
            Forward::CallSigaction { handler: self.sa_sigaction }
        } else {
            Forward::CallHandler { handler: self.sa_sigaction }
        }
    }

    /// The disposition by which traps are handled: the function at `entry`, called with
    /// three arguments, on the alternate stack, and again if it faults itself.
    pub open spec fn spec_for_traps(abi: SignalAbi, entry: usize, rest: R) -> SigAction<R> {
        SigAction {
            sa_flags: abi.sa_siginfo | abi.sa_nodefer | abi.sa_onstack,
            sa_sigaction: entry,
            rest,
        }
    }

    /// The disposition by which traps are handled.
    pub fn for_traps(abi: &SignalAbi, entry: usize, rest: R) -> (action: SigAction<R>)
        ensures
            action == SigAction::<R>::spec_for_traps(*abi, entry, rest),
    {
        SigAction {
            // SA_SIGINFO gives the handler the information and the context of the fault.
            //
            // SA_NODEFER lets the handler be entered again if it crashes.
            //
            // SA_ONSTACK runs the handler on the alternate stack, so that it can run in
            // response to an overflow of the main stack.
            sa_flags: abi.sa_siginfo | abi.sa_nodefer | abi.sa_onstack,
            sa_sigaction: entry,
            rest,
        }
    }
}

/// The dispositions that signals had before their handlers for traps were installed,
/// each in its own slot.
#[derive(Clone, Copy, Debug, PartialEq, Eq)]
pub struct PreviousActions<R> {
    pub sigsegv: Option<SigAction<R>>,
    pub sigbus: Option<SigAction<R>>,
    pub sigill: Option<SigAction<R>>,
    pub sigfpe: Option<SigAction<R>>,
}

impl<R> PreviousActions<R> {
    /// The slot of a signal.
    pub open spec fn slot(self, signal: Signal) -> Option<SigAction<R>> {
        match signal {
            Signal::Segv => self.sigsegv,
            Signal::Bus => self.sigbus,
            Signal::Ill => self.sigill,
            Signal::Fpe => self.sigfpe,
        }
    }

    /// These slots, with a disposition put into the slot of a signal.
    pub open spec fn with(self, signal: Signal, action: SigAction<R>) -> PreviousActions<R> {
        match signal {
            Signal::Segv => PreviousActions { sigsegv: Some(action), ..self },
            Signal::Bus => PreviousActions { sigbus: Some(action), ..self },
            Signal::Ill => PreviousActions { sigill: Some(action), ..self },
            Signal::Fpe => PreviousActions { sigfpe: Some(action), ..self },
        }
    }

    /// Slots with nothing in them.
    pub open spec fn spec_empty() -> PreviousActions<R> {
        PreviousActions { sigsegv: None, sigbus: None, sigill: None, sigfpe: None }
    }

    /// Slots with nothing in them.
    pub fn empty() -> (slots: PreviousActions<R>)
        ensures
            slots == PreviousActions::<R>::spec_empty(),
    {
        PreviousActions { sigsegv: None, sigbus: None, sigill: None, sigfpe: None }
    }
}

impl<R: Copy> PreviousActions<R> {
    /// What is in the slot of a signal.
    pub fn get(&self, signal: Signal) -> (action: Option<SigAction<R>>)
        ensures
            action == self.slot(signal),
    {
        match signal {
            Signal::Segv => self.sigsegv,
            Signal::Bus => self.sigbus,
            Signal::Fpe => self.sigfpe,
            Signal::Ill => self.sigill,
        }
    }

    /// Puts a disposition into the slot of a signal.
    pub fn set(&mut self, signal: Signal, action: SigAction<R>)
        ensures
            *final(self) == old(self).with(signal, action),
    {
        match signal {
            Signal::Segv => {
                self.sigsegv = Some(action);
            },
            Signal::Bus => {
                self.sigbus = Some(action);
            },
            Signal::Fpe => {
                self.sigfpe = Some(action);
            },
            Signal::Ill => {
                self.sigill = Some(action);
            },
        }
    }
}

/// A slot holds what was last put into it, and no other slot is touched by that.
pub proof fn law_slots_are_separate<R>(
    slots: PreviousActions<R>,
    signal: Signal,
    action: SigAction<R>,
)
    ensures
        slots.with(signal, action).slot(signal) == Some(action),
        forall|other: Signal| other != signal ==> #[trigger] slots.with(signal, action).slot(other)
            == slots.slot(other),
        forall|other: Signal| #[trigger] PreviousActions::<R>::spec_empty().slot(other) is None,
{
}

/// The default disposition and the ignored one are never called as functions.
pub proof fn law_only_handlers_are_called<R>(abi: SignalAbi, action: SigAction<R>)
    ensures
        action.spec_forward(abi) is Reinstate <==> action.has_no_handler(abi),
        action.spec_forward(abi) matches Forward::Reinstate { action: reinstated } ==> reinstated
            == action,
        action.spec_forward(abi) matches Forward::CallSigaction { handler } ==> handler
            != abi.sig_dfl && handler != abi.sig_ign,
        action.spec_forward(abi) matches Forward::CallHandler { handler } ==> handler
            != abi.sig_dfl && handler != abi.sig_ign,
{
}

/// The disposition by which traps are handled has all three of its flags, whatever their
/// numbers are.
pub proof fn law_trap_flags_are_set<R>(abi: SignalAbi, entry: usize, rest: R)
    ensures
        ({
            let sa_flags = SigAction::<R>::spec_for_traps(abi, entry, rest).sa_flags;
            &&& sa_flags & abi.sa_siginfo == abi.sa_siginfo
            &&& sa_flags & abi.sa_nodefer == abi.sa_nodefer
            &&& sa_flags & abi.sa_onstack == abi.sa_onstack
        }),
{
    let a = abi.sa_siginfo;
    let b = abi.sa_nodefer;
    let c = abi.sa_onstack;
    assert((a | b | c) & a == a && (a | b | c) & b == b && (a | b | c) & c == c) by (bit_vector);
}

/// A signal that is forwarded to a disposition by which traps are handled reaches that
/// handler with all three arguments.
pub proof fn law_trap_handlers_chain<R>(abi: SignalAbi, entry: usize, rest: R)
    requires
        abi.wf(),
        entry != abi.sig_dfl,
        entry != abi.sig_ign,
    ensures
        SigAction::<R>::spec_for_traps(abi, entry, rest).spec_forward(abi)
            == (Forward::<R>::CallSigaction { handler: entry }),
{
    law_trap_flags_are_set(abi, entry, rest);
}

} // verus!
