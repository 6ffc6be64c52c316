//! The installation of the handlers for traps, and their removal.
//!
//! The module decides what to do; its caller makes the system calls. To install the
//! handlers, the caller asks [`TrapHandler::new`] for an [`Installer`], performs its
//! action and hands the outcome to [`Installer::completed`], which names the next
//! action. To remove them it does the same with [`TrapHandler::uninstall`] and the
//! [`Uninstaller`].

use crate::action::{PreviousActions, SigAction};
use crate::platform::{foreach_handler, Os, Platform, Signal};
use vstd::prelude::*;

verus! {

/// Why a configuration is refused.
#[derive(Clone, Copy, Debug, PartialEq, Eq, Structural)]
pub enum ConfigError {
    /// Traps on macOS are to be handled with mach ports, not with signals.
    MachPorts,
}

/// Whether traps can be handled with signals: mach ports are not in use, or the
/// platform has none.
pub open spec fn config_is_valid(platform: Platform, macos_use_mach_ports: bool) -> bool {
    !macos_use_mach_ports || platform.os != Os::Macos
}

/// Accepts a configuration or refuses it.
fn check_config(platform: &Platform, macos_use_mach_ports: bool) -> (result: Result<
    (),
    ConfigError,
>)
    ensures
        result == if config_is_valid(*platform, macos_use_mach_ports) {
            Ok::<(), ConfigError>(())
        } else {
            Err(ConfigError::MachPorts)
        },
{
    if macos_use_mach_ports && platform.os == Os::Macos {
        Err(ConfigError::MachPorts)
    } else {
        Ok(())
    }
}

/// The handlers of a process for traps, all of them installed.
pub struct TrapHandler<R> {
    platform: Platform,
    entry: usize,
    previous: PreviousActions<R>,
}

/// What handlers are made of: the platform, the address of the function that handles
/// traps, and the dispositions that it has replaced.
pub struct TrapHandlerView<R> {
    pub platform: Platform,
    pub entry: usize,
    pub previous: PreviousActions<R>,
}

impl<R> TrapHandlerView<R> {
    /// A disposition is kept for every signal that is handled, and for no other, and none
    /// of them is the function that handles traps itself.
    pub open spec fn wf(self) -> bool {
        forall|signal: Signal|
            match #[trigger] self.previous.slot(signal) {
                Some(action) => self.platform.handles(signal) && action.sa_sigaction != self.entry,
                None => !self.platform.handles(signal),
            }
    }
}

impl<R> View for TrapHandler<R> {
    type V = TrapHandlerView<R>;

    closed spec fn view(&self) -> TrapHandlerView<R> {
        TrapHandlerView { platform: self.platform, entry: self.entry, previous: self.previous }
    }
}

impl<R> TrapHandler<R> {
    #[verifier::type_invariant]
    spec fn inv(self) -> bool {
        self@.wf()
    }
}

impl<R: Copy> TrapHandler<R> {
    /// Begins to install all the handlers: the function at `entry` is to handle traps.
    /// `rest` is what else their dispositions consist of.
    ///
    /// Not more than one installation may be under way in a process, and none while the
    /// handlers are installed: see [`Installer::completed`].
    pub fn new(
        platform: Platform,
        macos_use_mach_ports: bool,
        entry: usize,
        rest: R,
    ) -> (result: Result<Installer<R>, ConfigError>)
        ensures
            result is Ok <==> config_is_valid(platform, macos_use_mach_ports),
            result matches Ok(installer) ==> installer@.wf() && installer@
                == InstallerView::<R>::start(platform, entry, rest),
            result matches Err(error) ==> error == ConfigError::MachPorts,
    {
        match check_config(&platform, macos_use_mach_ports) {
            Err(error) => Err(error),
            Ok(()) => {
                let signals = foreach_handler(&platform);
                let progress = Progress { next: 0, previous: PreviousActions::empty() };
                Ok(Installer { platform, entry, rest, signals, progress })
            },
        }
    }

    /// Accepts a configuration of an engine that is to use these handlers, or refuses it.
    pub fn validate_config(&self, macos_use_mach_ports: bool) -> (result: Result<(), ConfigError>)
        ensures
            result == if config_is_valid(self@.platform, macos_use_mach_ports) {
                Ok::<(), ConfigError>(())
            } else {
                Err(ConfigError::MachPorts)
            },
    {
        check_config(&self.platform, macos_use_mach_ports)
    }

    /// Begins to remove all the handlers.
    pub fn uninstall(self) -> (uninstaller: Uninstaller<R>)
        ensures
            uninstaller@.wf(),
            uninstaller@ == (UninstallerView { handler: self@, next: 0 }),
    {
        proof {
            use_type_invariant(&self);
        }
        let signals = foreach_handler(&self.platform);
        Uninstaller { handler: self, signals, next: 0 }
    }
}

/// What to do next to install the handlers.
#[derive(Debug, PartialEq, Eq)]
pub enum InstallAction<R> {
    /// Make `action` the disposition of `signal` with `sigaction`.
    Sigaction { signal: Signal, action: SigAction<R> },
    /// Nothing more: the handlers are installed.
    Ready,
    /// Panic.
    Panic(InstallFailure),
}

/// Why handlers cannot be installed.
#[derive(Clone, Copy, Debug, PartialEq, Eq, Structural)]
pub enum InstallFailure {
    /// A disposition could not be set.
    Install,
}

impl InstallFailure {
    /// The words to panic with, which the system's last error follows.
    pub fn message(self) -> (text: &'static str)
        ensures
            text@ == "unable to install signal handler"@,
    {
        "unable to install signal handler"
    }
}

/// An installation under way.
pub struct Installer<R> {
    platform: Platform,
    entry: usize,
    rest: R,
    signals: Vec<Signal>,
    progress: Progress<R>,
}

/// What has been installed: the handlers of the first `next` signals, in place of the
/// dispositions in `previous`.
struct Progress<R> {
    next: usize,
    previous: PreviousActions<R>,
}

/// How far an installation has come: the handlers of the first `next` signals are
/// installed, and `previous` holds the dispositions that they have replaced.
pub struct InstallerView<R> {
    pub platform: Platform,
    pub entry: usize,
    pub rest: R,
    pub next: nat,
    pub previous: PreviousActions<R>,
}

impl<R> InstallerView<R> {
    /// An installation that is about to begin.
    pub open spec fn start(platform: Platform, entry: usize, rest: R) -> InstallerView<R> {
        InstallerView { platform, entry, rest, next: 0, previous: PreviousActions::spec_empty() }
    }

    /// Dispositions are kept for the signals whose handlers are installed, and for no
    /// others, and none of them is the function that handles traps itself.
    pub open spec fn wf(self) -> bool {
        let installed = self.platform.handled_signals().take(self.next as int);
        &&& self.next <= self.platform.handled_signals().len()
        &&& forall|signal: Signal|
            match #[trigger] self.previous.slot(signal) {
                Some(action) => installed.contains(signal) && action.sa_sigaction != self.entry,
                None => !installed.contains(signal),
            }
    }

    /// Whether all the handlers are installed.
    pub open spec fn is_complete(self) -> bool {
        self.next >= self.platform.handled_signals().len()
    }

    /// The signal whose handler is installed next.
    pub open spec fn signal(self) -> Signal {
        self.platform.handled_signals()[self.next as int]
    }

    /// The disposition that all the handled signals get.
    pub open spec fn trap_action(self) -> SigAction<R> {
        SigAction::spec_for_traps(self.platform.abi, self.entry, self.rest)
    }

    /// What to do next.
    pub open spec fn action(self) -> InstallAction<R> {
        if self.is_complete() {
            InstallAction::Ready
        } else {
            InstallAction::Sigaction { signal: self.signal(), action: self.trap_action() }
        }
    }

    /// Whether `sigaction` may return `rc` and, if it succeeded, have replaced `old_action`.
    ///
    /// It replaces the function that handles traps itself only if the handlers are already
    /// installed. The disposition from before them would then be lost, and a signal that is
    /// not for compiled code would be handed to that same function again.
    pub open spec fn may_replace(self, rc: i32, old_action: SigAction<R>) -> bool {
        rc == 0 ==> old_action.sa_sigaction != self.entry
    }

    /// The installation after its next signal got its handler in place of `old_action`.
    pub open spec fn replaced(self, old_action: SigAction<R>) -> InstallerView<R> {
        InstallerView {
            next: self.next + 1,
            previous: self.previous.with(self.signal(), old_action),
            ..self
        }
    }

    /// The installation, and what to do next, after `sigaction` returned `rc` for the
    /// next signal and, if it succeeded, replaced `old_action`.
    pub open spec fn completed(
        self,
        rc: i32,
        old_action: SigAction<R>,
    ) -> (InstallerView<R>, InstallAction<R>) {
        if rc != 0 {
            (self, InstallAction::Panic(InstallFailure::Install))
        } else {
            (self.replaced(old_action), self.replaced(old_action).action())
        }
    }
}

/// The progress of an installation stays sound.
proof fn lemma_replaced_is_wf<R>(view: InstallerView<R>, old_action: SigAction<R>)
    requires
        view.wf(),
        !view.is_complete(),
        view.may_replace(0, old_action),
    ensures
        view.replaced(old_action).wf(),
{
    let after = view.replaced(old_action);
    let signals = view.platform.handled_signals();
    let n = view.next as int;
    let before_set = signals.take(n);
    let after_set = signals.take(n + 1);
    assert forall|s: Signal| #[trigger] after_set.contains(s) <==> s == signals[n]
        || before_set.contains(s) by {
        assert(after_set[n] == signals[n]);
        if before_set.contains(s) {
            let i = choose|i: int| 0 <= i < n && before_set[i] == s;
            assert(after_set[i] == s);
        }
        if after_set.contains(s) && s != signals[n] {
            let i = choose|i: int| 0 <= i <= n && after_set[i] == s;
            assert(before_set[i] == s);
        }
    }
    assert forall|s: Signal|
        match #[trigger] after.previous.slot(s) {
            Some(action) => after_set.contains(s) && action.sa_sigaction != view.entry,
            None => !after_set.contains(s),
        } by {
        if s != signals[n] {
            assert(after.previous.slot(s) == view.previous.slot(s));
        }
    }
}

impl<R> View for Installer<R> {
    type V = InstallerView<R>;

    closed spec fn view(&self) -> InstallerView<R> {
        InstallerView {
            platform: self.platform,
            entry: self.entry,
            rest: self.rest,
            next: self.progress.next as nat,
            previous: self.progress.previous,
        }
    }
}

impl<R> Installer<R> {
    /// The signals are those that the platform handles, and the progress is sound.
    #[verifier::type_invariant]
    spec fn inv(self) -> bool {
        self.signals@ == self.platform.handled_signals() && self@.wf()
    }
}

impl<R: Copy> Installer<R> {
    /// What to do next.
    pub fn action(&self) -> (action: InstallAction<R>)
        ensures
            action == self@.action(),
    {
        proof {
            use_type_invariant(self);
        }
        if self.progress.next < self.signals.len() {
            InstallAction::Sigaction {
                signal: self.signals[self.progress.next],
                action: SigAction::for_traps(&self.platform.abi, self.entry, self.rest),
            }
        } else {
            InstallAction::Ready
        }
    }

    /// Takes note that `sigaction` returned `rc` and that it replaced `old_action`, and
    /// says what to do next.
    ///
    /// What was replaced is not the function that handles traps itself: the handlers are
    /// not installed while they are installed already.
    pub fn completed(&mut self, rc: i32, old_action: SigAction<R>) -> (action: InstallAction<R>)
        requires
            !old(self)@.is_complete(),
            old(self)@.may_replace(rc, old_action),
        ensures
            final(self)@.wf(),
            (final(self)@, action) == old(self)@.completed(rc, old_action),
    {
        proof {
            use_type_invariant(&*self);
        }
        if rc != 0 {
            return InstallAction::Panic(InstallFailure::Install);
        }
        proof {
            lemma_replaced_is_wf(self@, old_action);
        }
        let next: usize = self.progress.next;
        let mut previous = self.progress.previous;
        previous.set(self.signals[next], old_action);
        self.progress = Progress { next: next + 1, previous };
        self.action()
    }

    /// The dispositions that have been replaced so far.
    pub fn previous(&self) -> (previous: PreviousActions<R>)
        ensures
            previous == self@.previous,
    {
        self.progress.previous
    }

    /// The handlers, once all of them are installed.
    pub fn finish(self) -> (handler: TrapHandler<R>)
        requires
            self@.is_complete(),
        ensures
            handler@.wf(),
            handler@ == (TrapHandlerView {
                platform: self@.platform,
                entry: self@.entry,
                previous: self@.previous,
            }),
    {
        proof {
            use_type_invariant(&self);
            let signals = self.platform.handled_signals();
            assert(signals.take(self.progress.next as int) =~= signals);
            crate::platform::law_handlers_listed_once(self.platform);
        }
        TrapHandler {
            platform: self.platform,
            entry: self.entry,
            previous: self.progress.previous,
        }
    }
}

/// What to do next to remove the handlers.
#[derive(Debug, PartialEq, Eq)]
pub enum UninstallAction<R> {
    /// Make `action` the disposition of `signal` with `sigaction`.
    Sigaction { signal: Signal, action: SigAction<R> },
    /// Nothing more: the handlers are removed.
    Removed,
    /// Abort the process.
    Abort(UninstallFailure),
}

/// Why handlers cannot be removed.
#[derive(Clone, Copy, Debug, PartialEq, Eq, Structural)]
pub enum UninstallFailure {
    /// A disposition from before could not be set again.
    Reinstall,
    /// Someone else had installed a handler on top.
    NotLastInstalled,
}

impl UninstallFailure {
    /// What to tell the user. The words for a disposition that could not be set are
    /// followed by the system's last error.
    pub fn message(self) -> (text: &'static str)
        ensures
            text@ == match self {
                UninstallFailure::Reinstall => "unable to reinstall signal handler"@,
                UninstallFailure::NotLastInstalled => "
Wasmtime's signal handler was not the last signal handler to be installed
in the process so it's not certain how to unload signal handlers. In this
situation the Engine::unload_process_handlers API is not applicable and requires
perhaps initializing libraries in a different order. The process will be aborted
now.
"@,
            },
    {
        match self {
            UninstallFailure::Reinstall => "unable to reinstall signal handler",
            UninstallFailure::NotLastInstalled => "
Wasmtime's signal handler was not the last signal handler to be installed
in the process so it's not certain how to unload signal handlers. In this
situation the Engine::unload_process_handlers API is not applicable and requires
perhaps initializing libraries in a different order. The process will be aborted
now.
",
        }
    }
}

/// A removal under way.
pub struct Uninstaller<R> {
    handler: TrapHandler<R>,
    signals: Vec<Signal>,
    next: usize,
}

/// How far a removal has come: the handlers of the first `next` signals are removed.
pub struct UninstallerView<R> {
    pub handler: TrapHandlerView<R>,
    pub next: nat,
}

impl<R> UninstallerView<R> {
    /// The removal is one of sound handlers, and has not gone past their end.
    pub open spec fn wf(self) -> bool {
        self.handler.wf() && self.next <= self.handler.platform.handled_signals().len()
    }

    /// Whether all the handlers are removed.
    pub open spec fn is_complete(self) -> bool {
        self.next >= self.handler.platform.handled_signals().len()
    }

    /// The signal whose handler is removed next.
    pub open spec fn signal(self) -> Signal {
        self.handler.platform.handled_signals()[self.next as int]
    }

    /// The disposition that the next signal had before.
    pub open spec fn previous_action(self) -> SigAction<R> {
        self.handler.previous.slot(self.signal())->0
    }

    /// What to do next.
    pub open spec fn action(self) -> UninstallAction<R> {
        if self.is_complete() {
            UninstallAction::Removed
        } else {
            UninstallAction::Sigaction { signal: self.signal(), action: self.previous_action() }
        }
    }

    /// The removal after its next signal got its disposition from before.
    pub open spec fn restored(self) -> UninstallerView<R> {
        UninstallerView { next: self.next + 1, ..self }
    }

    /// The removal, and what to do next, after `sigaction` returned `rc` for the next
    /// signal and, if it succeeded, replaced `displaced`.
    pub open spec fn completed(
        self,
        rc: i32,
        displaced: SigAction<R>,
    ) -> (UninstallerView<R>, UninstallAction<R>) {
        if rc != 0 {
            (self, UninstallAction::Abort(UninstallFailure::Reinstall))
        } else if displaced.sa_sigaction != self.handler.entry {
            (self, UninstallAction::Abort(UninstallFailure::NotLastInstalled))
        } else {
            (self.restored(), self.restored().action())
        }
    }
}

impl<R> View for Uninstaller<R> {
    type V = UninstallerView<R>;

    closed spec fn view(&self) -> UninstallerView<R> {
        UninstallerView { handler: self.handler@, next: self.next as nat }
    }
}

impl<R> Uninstaller<R> {
    /// The signals are those that the platform handles, and the progress is sound.
    #[verifier::type_invariant]
    spec fn inv(self) -> bool {
        self.signals@ == self.handler.platform.handled_signals() && self@.wf()
    }
}

impl<R: Copy> Uninstaller<R> {
    /// What to do next.
    pub fn action(&self) -> (action: UninstallAction<R>)
        ensures
            action == self@.action(),
    {
        proof {
            use_type_invariant(self);
        }
        if self.next < self.signals.len() {
            let signal = self.signals[self.next];
            proof {
                crate::platform::law_handlers_listed_once(self.handler.platform);
                assert(self.signals@.contains(signal));
                assert(self.handler@.previous.slot(signal) is Some);
            }
            match self.handler.previous.get(signal) {
                Some(action) => UninstallAction::Sigaction { signal, action },
                None => UninstallAction::Removed,
            }
        } else {
            UninstallAction::Removed
        }
    }

    /// Takes note that `sigaction` returned `rc` and that it replaced `displaced`, and
    /// says what to do next.
    ///
    /// If the function that handles traps is not what was replaced, the dispositions of
    /// the process have just been corrupted, and there is no telling how to remove it.
    pub fn completed(&mut self, rc: i32, displaced: SigAction<R>) -> (action: UninstallAction<R>)
        requires
            !old(self)@.is_complete(),
        ensures
            final(self)@.wf(),
            (final(self)@, action) == old(self)@.completed(rc, displaced),
    {
        proof {
            use_type_invariant(&*self);
        }
        if rc != 0 {
            return UninstallAction::Abort(UninstallFailure::Reinstall);
        }
        if displaced.sa_sigaction != self.handler.entry {
            return UninstallAction::Abort(UninstallFailure::NotLastInstalled);
        }
        self.next = self.next + 1;
        self.action()
    }
}

} // verus!
