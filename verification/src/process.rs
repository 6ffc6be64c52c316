//! What the installation and the removal of the handlers do to a process.
//!
//! The dispositions of a process are a function from signals to dispositions. The system
//! call `sigaction` either fails, or it replaces the disposition of a single signal and
//! reports what it replaced.

use crate::action::{law_trap_handlers_chain, Forward, SigAction};
use crate::handlers::{
    InstallAction, InstallFailure, InstallerView, TrapHandlerView, UninstallAction, UninstallFailure,
    UninstallerView,
};
use crate::platform::{law_handlers_listed_once, Platform, Signal};
use crate::trap::{self, passed_on, Delivery, TrapAction, TrapEvent, TrapState};
use vstd::prelude::*;

verus! {

/// The dispositions after `sigaction` returned `rc` for a signal that was to get `action`.
pub open spec fn after_sigaction<R>(
    table: spec_fn(Signal) -> SigAction<R>,
    signal: Signal,
    action: SigAction<R>,
    rc: i32,
) -> spec_fn(Signal) -> SigAction<R> {
    |s: Signal|
        if s == signal && rc == 0 {
            action
        } else {
            table(s)
        }
}

/// The handlers of the function at `entry` are not installed: it is not the handler of any
/// signal that the platform handles.
pub open spec fn not_installed<R>(
    platform: Platform,
    entry: usize,
    table: spec_fn(Signal) -> SigAction<R>,
) -> bool {
    forall|s: Signal| platform.handles(s) ==> (#[trigger] table(s)).sa_sigaction != entry
}

/// The end of an installation or a removal: the last action, how far it came, and the
/// dispositions of the process.
pub struct Outcome<A, V, R> {
    pub action: A,
    pub view: V,
    pub table: spec_fn(Signal) -> SigAction<R>,
}

/// Runs an installation to its end, in a process with the dispositions `table` in which
/// `sigaction` returns `rc(signal)` for a signal.
pub open spec fn install_all<R>(
    installer: InstallerView<R>,
    table: spec_fn(Signal) -> SigAction<R>,
    rc: spec_fn(Signal) -> i32,
) -> Outcome<InstallAction<R>, InstallerView<R>, R>
    decreases installer.platform.handled_signals().len() - installer.next,
{
    match installer.action() {
        InstallAction::Sigaction { signal, action } => {
            let table_after = after_sigaction(table, signal, action, rc(signal));
            let (view, next_action) = installer.completed(rc(signal), table(signal));
            if rc(signal) != 0 {
                Outcome { action: next_action, view, table: table_after }
            } else {
                install_all(view, table_after, rc)
            }
        },
        last_action => Outcome { action: last_action, view: installer, table },
    }
}

/// Runs a removal to its end, in a process with the dispositions `table` in which
/// `sigaction` returns `rc(signal)` for a signal.
pub open spec fn uninstall_all<R>(
    uninstaller: UninstallerView<R>,
    table: spec_fn(Signal) -> SigAction<R>,
    rc: spec_fn(Signal) -> i32,
) -> Outcome<UninstallAction<R>, UninstallerView<R>, R>
    decreases uninstaller.handler.platform.handled_signals().len() - uninstaller.next,
{
    match uninstaller.action() {
        UninstallAction::Sigaction { signal, action } => {
            let table_after = after_sigaction(table, signal, action, rc(signal));
            let (view, next_action) = uninstaller.completed(rc(signal), table(signal));
            if next_action is Abort {
                Outcome { action: next_action, view, table: table_after }
            } else {
                uninstall_all(view, table_after, rc)
            }
        },
        last_action => Outcome { action: last_action, view: uninstaller, table },
    }
}

/// A part of a list of distinct signals consists of its first signal and of the others,
/// and the first is not among those.
proof fn lemma_first_of_part(signals: Seq<Signal>, from: int, to: int)
    requires
        0 <= from < to <= signals.len(),
        signals.no_duplicates(),
    ensures
        forall|s: Signal| #[trigger]
            signals.subrange(from, to).contains(s) <==> s == signals[from] || signals.subrange(
                from + 1,
                to,
            ).contains(s),
        !signals.subrange(from + 1, to).contains(signals[from]),
{
    let part = signals.subrange(from, to);
    let others = signals.subrange(from + 1, to);
    assert forall|s: Signal| #[trigger] part.contains(s) <==> s == signals[from]
        || others.contains(s) by {
        assert(part[0] == signals[from]);
        if others.contains(s) {
            let i = choose|i: int| 0 <= i < others.len() && others[i] == s;
            assert(part[i + 1] == s);
        }
        if part.contains(s) && s != signals[from] {
            let i = choose|i: int| 0 <= i < part.len() && part[i] == s;
            assert(others[i - 1] == s);
        }
    }
    if others.contains(signals[from]) {
        let i = choose|i: int| 0 <= i < others.len() && others[i] == signals[from];
        assert(signals[from + 1 + i] == signals[from]);
    }
}

/// What the rest of an installation does.
proof fn lemma_install_all<R>(
    installer: InstallerView<R>,
    table: spec_fn(Signal) -> SigAction<R>,
    rc: spec_fn(Signal) -> i32,
)
    requires
        installer.next <= installer.platform.handled_signals().len(),
    ensures
        ({
            let end = install_all(installer, table, rc);
            let signals = installer.platform.handled_signals();
            let done = signals.subrange(installer.next as int, end.view.next as int);
            &&& installer.next <= end.view.next <= signals.len()
            &&& end.view.platform == installer.platform
            &&& end.view.entry == installer.entry
            &&& end.view.rest == installer.rest
            &&& end.action == (if end.view.is_complete() {
                InstallAction::<R>::Ready
            } else {
                InstallAction::<R>::Panic(InstallFailure::Install)
            })
            &&& forall|i: int|
                installer.next <= i < end.view.next ==> rc(#[trigger] signals[i]) == 0
            &&& !end.view.is_complete() ==> rc(end.view.signal()) != 0
            &&& forall|s: Signal| #[trigger]
                (end.table)(s) == (if done.contains(s) {
                    installer.trap_action()
                } else {
                    table(s)
                })
            &&& forall|s: Signal| #[trigger]
                end.view.previous.slot(s) == (if done.contains(s) {
                    Some(table(s))
                } else {
                    installer.previous.slot(s)
                })
        }),
    decreases installer.platform.handled_signals().len() - installer.next,
{
    let signals = installer.platform.handled_signals();
    law_handlers_listed_once(installer.platform);
    if !installer.is_complete() {
        let signal = installer.signal();
        if rc(signal) == 0 {
            let table_after = after_sigaction(table, signal, installer.trap_action(), 0);
            lemma_install_all(installer.replaced(table(signal)), table_after, rc);
            let end = install_all(installer, table, rc);
            lemma_first_of_part(signals, installer.next as int, end.view.next as int);
        }
    }
}

/// What the rest of a removal does.
proof fn lemma_uninstall_all<R>(
    uninstaller: UninstallerView<R>,
    table: spec_fn(Signal) -> SigAction<R>,
    rc: spec_fn(Signal) -> i32,
)
    requires
        uninstaller.wf(),
    ensures
        ({
            let end = uninstall_all(uninstaller, table, rc);
            let handler = uninstaller.handler;
            let signals = handler.platform.handled_signals();
            let done = signals.subrange(uninstaller.next as int, end.view.next as int);
            let last = end.view.signal();
            &&& uninstaller.next <= end.view.next <= signals.len()
            &&& end.view.handler == handler
            &&& end.action == (if end.view.is_complete() {
                UninstallAction::<R>::Removed
            } else if rc(last) != 0 {
                UninstallAction::<R>::Abort(UninstallFailure::Reinstall)
            } else {
                UninstallAction::<R>::Abort(UninstallFailure::NotLastInstalled)
            })
            &&& forall|i: int|
                uninstaller.next <= i < end.view.next ==> rc(#[trigger] signals[i]) == 0 && table(
                    signals[i],
                ).sa_sigaction == handler.entry
            &&& !end.view.is_complete() ==> rc(last) != 0 || table(last).sa_sigaction
                != handler.entry
            &&& forall|s: Signal| #[trigger]
                (end.table)(s) == (if done.contains(s) || (!end.view.is_complete() && s == last
                    && rc(s) == 0) {
                    handler.previous.slot(s)->0
                } else {
                    table(s)
                })
        }),
    decreases uninstaller.handler.platform.handled_signals().len() - uninstaller.next,
{
    let handler = uninstaller.handler;
    let signals = handler.platform.handled_signals();
    law_handlers_listed_once(handler.platform);
    if !uninstaller.is_complete() {
        let signal = uninstaller.signal();
        if rc(signal) == 0 && table(signal).sa_sigaction == handler.entry {
            let table_after = after_sigaction(table, signal, uninstaller.previous_action(), 0);
            lemma_uninstall_all(uninstaller.restored(), table_after, rc);
            let end = uninstall_all(uninstaller, table, rc);
            lemma_first_of_part(signals, uninstaller.next as int, end.view.next as int);
        }
    }
}

/// An installation goes through the signals that the platform handles, in their order,
/// up to the first one for which `sigaction` fails.
///
/// The signals before that one have the disposition by which traps are handled, and what
/// they had before is kept; every other signal is left alone. If there is no such
/// failure, the handlers are ready. Otherwise the process is to panic, and what has been
/// installed stays.
pub proof fn law_installation<R>(
    platform: Platform,
    entry: usize,
    rest: R,
    table: spec_fn(Signal) -> SigAction<R>,
    rc: spec_fn(Signal) -> i32,
)
    requires
        not_installed(platform, entry, table),
    ensures
        ({
            let end = install_all(InstallerView::start(platform, entry, rest), table, rc);
            let signals = platform.handled_signals();
            let installed = signals.take(end.view.next as int);
            &&& end.view.wf()
            &&& forall|i: int| 0 <= i < end.view.next ==> rc(#[trigger] signals[i]) == 0
            &&& end.view.next < signals.len() ==> rc(signals[end.view.next as int]) != 0
            &&& end.action == (if end.view.next == signals.len() {
                InstallAction::<R>::Ready
            } else {
                InstallAction::<R>::Panic(InstallFailure::Install)
            })
            &&& forall|s: Signal| #[trigger]
                (end.table)(s) == (if installed.contains(s) {
                    SigAction::spec_for_traps(platform.abi, entry, rest)
                } else {
                    table(s)
                })
            &&& forall|s: Signal| #[trigger]
                end.view.previous.slot(s) == (if installed.contains(s) {
                    Some(table(s))
                } else {
                    None
                })
        }),
{
    lemma_install_all(InstallerView::start(platform, entry, rest), table, rc);
    law_handlers_listed_once(platform);
    let end = install_all(InstallerView::start(platform, entry, rest), table, rc);
    let signals = platform.handled_signals();
    let installed = signals.take(end.view.next as int);
    assert forall|s: Signal| #[trigger] installed.contains(s) implies platform.handles(s) by {
        let i = choose|i: int| 0 <= i < installed.len() && installed[i] == s;
        assert(signals[i] == s);
        assert(signals.contains(s));
    }
}

/// If `sigaction` never fails, an installation reaches every signal that the platform
/// handles, and no other.
pub proof fn law_installation_is_complete<R>(
    platform: Platform,
    entry: usize,
    rest: R,
    table: spec_fn(Signal) -> SigAction<R>,
    rc: spec_fn(Signal) -> i32,
)
    requires
        forall|s: Signal| platform.handles(s) ==> #[trigger] rc(s) == 0,
    ensures
        ({
            let end = install_all(InstallerView::start(platform, entry, rest), table, rc);
            &&& end.action is Ready
            &&& end.view.is_complete()
            &&& end.view.platform == platform
            &&& end.view.entry == entry
            &&& forall|s: Signal| #[trigger]
                (end.table)(s) == (if platform.handles(s) {
                    SigAction::spec_for_traps(platform.abi, entry, rest)
                } else {
                    table(s)
                })
            &&& forall|s: Signal| #[trigger]
                end.view.previous.slot(s) == (if platform.handles(s) {
                    Some(table(s))
                } else {
                    None
                })
        }),
{
    lemma_install_all(InstallerView::start(platform, entry, rest), table, rc);
    law_handlers_listed_once(platform);
    let end = install_all(InstallerView::start(platform, entry, rest), table, rc);
    let signals = platform.handled_signals();
    if !end.view.is_complete() {
        assert(signals.contains(end.view.signal()));
    }
    assert(signals.subrange(0, signals.len() as int) =~= signals);
}

/// A removal goes through the signals that the platform handles, in their order, up to
/// the first one for which `sigaction` fails or replaces something else than the
/// function that handles traps.
///
/// The signals before that one have their dispositions from before, as has that one
/// itself if something else was replaced; every other signal is left alone. If there is
/// no such signal, the handlers are removed. Otherwise the process is to be aborted.
pub proof fn law_removal<R>(
    handler: TrapHandlerView<R>,
    table: spec_fn(Signal) -> SigAction<R>,
    rc: spec_fn(Signal) -> i32,
)
    requires
        handler.wf(),
    ensures
        ({
            let end = uninstall_all(UninstallerView { handler, next: 0 }, table, rc);
            let signals = handler.platform.handled_signals();
            let removed = signals.take(end.view.next as int);
            let last = signals[end.view.next as int];
            let ours = |s: Signal| table(s).sa_sigaction == handler.entry;
            &&& end.view.next <= signals.len()
            &&& forall|i: int|
                0 <= i < end.view.next ==> rc(#[trigger] signals[i]) == 0 && ours(signals[i])
            &&& end.view.next < signals.len() ==> rc(last) != 0 || !ours(last)
            &&& end.action == (if end.view.next == signals.len() {
                UninstallAction::<R>::Removed
            } else if rc(last) != 0 {
                UninstallAction::<R>::Abort(UninstallFailure::Reinstall)
            } else {
                UninstallAction::<R>::Abort(UninstallFailure::NotLastInstalled)
            })
            &&& forall|s: Signal| #[trigger]
                (end.table)(s) == (if removed.contains(s) || (end.view.next < signals.len() && s
                    == last && rc(s) == 0) {
                    handler.previous.slot(s)->0
                } else {
                    table(s)
                })
        }),
{
    lemma_uninstall_all(UninstallerView { handler, next: 0 }, table, rc);
}

/// If `sigaction` never fails, a removal succeeds exactly if the function that handles
/// traps is the current handler of every signal that the platform handles. Otherwise
/// the process is aborted because the handlers were not the last ones to be installed.
pub proof fn law_removed_iff_last_installed<R>(
    handler: TrapHandlerView<R>,
    table: spec_fn(Signal) -> SigAction<R>,
    rc: spec_fn(Signal) -> i32,
)
    requires
        handler.wf(),
        forall|s: Signal| handler.platform.handles(s) ==> #[trigger] rc(s) == 0,
    ensures
        ({
            let end = uninstall_all(UninstallerView { handler, next: 0 }, table, rc);
            &&& end.action == (if forall|s: Signal| #[trigger]
                handler.platform.handles(s) ==> table(s).sa_sigaction == handler.entry {
                UninstallAction::<R>::Removed
            } else {
                UninstallAction::<R>::Abort(UninstallFailure::NotLastInstalled)
            })
            &&& end.action is Removed ==> forall|s: Signal| #[trigger]
                (end.table)(s) == (if handler.platform.handles(s) {
                    handler.previous.slot(s)->0
                } else {
                    table(s)
                })
        }),
{
    lemma_uninstall_all(UninstallerView { handler, next: 0 }, table, rc);
    law_handlers_listed_once(handler.platform);
    let end = uninstall_all(UninstallerView { handler, next: 0 }, table, rc);
    let signals = handler.platform.handled_signals();
    if end.view.is_complete() {
        assert(signals.subrange(0, signals.len() as int) =~= signals);
        assert forall|s: Signal| #[trigger]
            handler.platform.handles(s) implies table(s).sa_sigaction == handler.entry by {
            assert(signals.contains(s));
        }
    } else {
        let last = end.view.signal();
        assert(signals.contains(last));
        assert(handler.platform.handles(last));
    }
}

/// A removal undoes the installation: if the handlers were not installed before,
/// `sigaction` never fails and nobody else has changed the dispositions in between, the
/// process has afterwards the ones that it had at first.
pub proof fn law_removal_undoes_installation<R>(
    platform: Platform,
    entry: usize,
    rest: R,
    table: spec_fn(Signal) -> SigAction<R>,
    rc: spec_fn(Signal) -> i32,
)
    requires
        not_installed(platform, entry, table),
        forall|s: Signal| platform.handles(s) ==> #[trigger] rc(s) == 0,
    ensures
        ({
            let installed = install_all(InstallerView::start(platform, entry, rest), table, rc);
            let handler = TrapHandlerView { platform, entry, previous: installed.view.previous };
            let removed = uninstall_all(
                UninstallerView { handler, next: 0 },
                installed.table,
                rc,
            );
            &&& installed.action is Ready
            &&& handler.wf()
            &&& removed.action is Removed
            &&& removed.table == table
        }),
{
    law_installation_is_complete(platform, entry, rest, table, rc);
    let installed = install_all(InstallerView::start(platform, entry, rest), table, rc);
    let handler = TrapHandlerView { platform, entry, previous: installed.view.previous };
    law_removed_iff_last_installed(handler, installed.table, rc);
    let removed = uninstall_all(UninstallerView { handler, next: 0 }, installed.table, rc);
    assert forall|s: Signal| #[trigger] platform.handles(s) implies (installed.table)(
        s,
    ).sa_sigaction == entry by {}
    assert(removed.table =~= table);
}

/// Installed handlers never hand a signal to themselves.
pub proof fn law_never_forwards_to_itself<R>(handler: TrapHandlerView<R>, signal: Signal)
    requires
        handler.wf(),
        handler.platform.handles(signal),
    ensures
        handler.previous.slot(signal) matches Some(action) && match action.spec_forward(
            handler.platform.abi,
        ) {
            Forward::CallSigaction { handler: function } => function != handler.entry,
            Forward::CallHandler { handler: function } => function != handler.entry,
            Forward::Reinstate { .. } => true,
        },
{
    assert(handler.previous.slot(signal) is Some);
}

/// The handlers are not installed twice.
///
/// While they are installed, `sigaction` would replace the function that handles traps
/// itself, for the first signal and for every other one, and that is what an installer
/// must not be told. If it went on all the same, every disposition that it kept would be
/// that function, the ones from before would be kept nowhere, and a signal that is not for
/// compiled code would be handed to the function over and over.
pub proof fn law_second_installation_is_excluded<R>(
    platform: Platform,
    entry: usize,
    rest: R,
    table: spec_fn(Signal) -> SigAction<R>,
    rc: spec_fn(Signal) -> i32,
)
    requires
        platform.abi.wf(),
        entry != platform.abi.sig_dfl,
        entry != platform.abi.sig_ign,
        forall|s: Signal| platform.handles(s) ==> #[trigger] rc(s) == 0,
    ensures
        ({
            let start = InstallerView::start(platform, entry, rest);
            let first = install_all(start, table, rc);
            let second = install_all(start, first.table, rc);
            &&& !start.may_replace(rc(start.signal()), (first.table)(start.signal()))
            &&& !not_installed(platform, entry, first.table)
            &&& forall|s: Signal|
                platform.handles(s) ==> (#[trigger] second.view.previous.slot(s) matches Some(
                    action,
                ) && action.sa_sigaction == entry && action.spec_forward(platform.abi) == (
                Forward::<R>::CallSigaction { handler: entry }))
        }),
{
    let start = InstallerView::start(platform, entry, rest);
    let first = install_all(start, table, rc);
    law_installation_is_complete(platform, entry, rest, table, rc);
    law_installation_is_complete(platform, entry, rest, first.table, rc);
    law_trap_handlers_chain(platform.abi, entry, rest);
    assert(start.signal() == Signal::Segv);
    assert(platform.handles(Signal::Segv));
    assert((first.table)(Signal::Segv).sa_sigaction == entry);
}

/// The dispositions after an action of the handling of a signal, where `sigaction` returns
/// `rc` if the action calls it.
pub open spec fn after_handling<R, T>(
    table: spec_fn(Signal) -> SigAction<R>,
    action: TrapAction<R, T>,
    rc: i32,
) -> spec_fn(Signal) -> SigAction<R> {
    match action {
        TrapAction::Forward {
            signal,
            forward: Forward::Reinstate { action: reinstated },
        } => after_sigaction(table, signal, reinstated, rc),
        _ => table,
    }
}

/// The handling of a signal leaves the dispositions of all other signals alone. Its own
/// disposition is changed only where the signal is passed on and had no handler before:
/// it then gets back exactly the disposition that was kept for it.
pub proof fn law_handling_and_dispositions<R, T>(
    platform: Platform,
    delivery: Delivery<R>,
    state: TrapState,
    event: TrapEvent<T>,
    table: spec_fn(Signal) -> SigAction<R>,
    rc: i32,
)
    requires
        trap::may_happen(delivery, state, event),
    ensures
        ({
            let action = trap::next(platform, delivery, state, event).1;
            let after = after_handling(table, action, rc);
            let reinstated = action is Forward && rc == 0 && delivery.previous->0.has_no_handler(
                platform.abi,
            );
            &&& forall|s: Signal| s != delivery.signal ==> #[trigger] after(s) == table(s)
            &&& after(delivery.signal) == (if reinstated {
                delivery.previous->0
            } else {
                table(delivery.signal)
            })
            &&& action is Forward ==> delivery.previous is Some
        }),
{
}

/// A signal whose handler is installed and that is not for compiled code always goes on to
/// the disposition that was kept for it.
pub proof fn law_installed_signals_are_passed_on<R, T>(
    handler: TrapHandlerView<R>,
    signal: Signal,
    si_addr: usize,
)
    requires
        handler.wf(),
        handler.platform.handles(signal),
    ensures
        ({
            let abi = handler.platform.abi;
            let previous = handler.previous.slot(signal);
            &&& previous is Some
            &&& passed_on::<R, T>(abi, Delivery { signal, si_addr, previous }) == (TrapAction::<
                R,
                T,
            >::Forward { signal, forward: previous->0.spec_forward(abi) })
        }),
{
    assert(handler.previous.slot(signal) is Some);
}

} // verus!
