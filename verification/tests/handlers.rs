use wasm_signals::action::{PreviousActions, SigAction};
use wasm_signals::handlers::{
    ConfigError, InstallAction, InstallFailure, Installer, TrapHandler, UninstallAction,
    UninstallFailure,
};
use wasm_signals::platform::{Arch, Os, Platform, Signal, SignalAbi};

const ENTRY: usize = 0xabcd;
const SIGNALS: [Signal; 4] = [Signal::Segv, Signal::Ill, Signal::Fpe, Signal::Bus];

/// The dispositions of a process, and the signals for which `sigaction` fails.
#[derive(Clone, PartialEq, Debug)]
struct Process {
    table: Vec<SigAction<u8>>,
    failing: Vec<Signal>,
}

impl Process {
    fn new() -> Process {
        let table = (0..4usize)
            .map(|i| SigAction { sa_flags: i as i32, sa_sigaction: i, rest: 10 + i as u8 })
            .collect();
        Process { table, failing: vec![] }
    }

    fn index(signal: Signal) -> usize {
        SIGNALS.iter().position(|s| *s == signal).unwrap()
    }

    fn get(&self, signal: Signal) -> SigAction<u8> {
        self.table[Self::index(signal)]
    }

    fn sigaction(&mut self, signal: Signal, action: SigAction<u8>) -> (i32, SigAction<u8>) {
        let old = self.get(signal);
        if self.failing.contains(&signal) {
            return (-1, SigAction { sa_flags: 0, sa_sigaction: 0, rest: 0 });
        }
        self.table[Self::index(signal)] = action;
        (0, old)
    }

    fn install(&mut self, mut installer: Installer<u8>) -> (InstallAction<u8>, Installer<u8>) {
        let mut next = installer.action();
        while let InstallAction::Sigaction { signal, action } = next {
            let (rc, old) = self.sigaction(signal, action);
            next = installer.completed(rc, old);
        }
        (next, installer)
    }

    fn uninstall(&mut self, handler: TrapHandler<u8>) -> UninstallAction<u8> {
        let mut uninstaller = handler.uninstall();
        let mut next = uninstaller.action();
        while let UninstallAction::Sigaction { signal, action } = next {
            let (rc, displaced) = self.sigaction(signal, action);
            next = uninstaller.completed(rc, displaced);
        }
        next
    }
}

fn on(os: Os, arch: Arch) -> Platform {
    Platform { os, arch, abi: SignalAbi::host() }
}

fn platforms() -> Vec<Platform> {
    vec![
        on(Os::Linux, Arch::X86_64),
        on(Os::Linux, Arch::Aarch64),
        on(Os::Macos, Arch::Aarch64),
        on(Os::Freebsd, Arch::X86_64),
    ]
}

fn begin(platform: Platform) -> Installer<u8> {
    TrapHandler::new(platform, false, ENTRY, 99u8).ok().unwrap()
}

fn installed(process: &mut Process, platform: Platform) -> TrapHandler<u8> {
    let (last, installer) = process.install(begin(platform));
    assert_eq!(last, InstallAction::Ready);
    installer.finish()
}

#[test]
fn first_action_installs_for_segv() {
    let platform = on(Os::Linux, Arch::X86_64);
    assert_eq!(
        begin(platform).action(),
        InstallAction::Sigaction {
            signal: Signal::Segv,
            action: SigAction {
                sa_flags: libc::SA_SIGINFO | libc::SA_NODEFER | libc::SA_ONSTACK,
                sa_sigaction: ENTRY,
                rest: 99,
            },
        }
    );
}

#[test]
fn installation_replaces_handled_signals_only() {
    let before = Process::new();
    let mut process = before.clone();
    let (_, installer) = process.install(begin(on(Os::Linux, Arch::X86_64)));
    for signal in [Signal::Segv, Signal::Ill, Signal::Fpe] {
        assert_eq!(process.get(signal).sa_sigaction, ENTRY);
        assert_eq!(process.get(signal).rest, 99);
        assert_eq!(installer.previous().get(signal), Some(before.get(signal)));
    }
    assert_eq!(process.get(Signal::Bus), before.get(Signal::Bus));
    assert_eq!(installer.previous().get(Signal::Bus), None);
}

#[test]
fn removal_undoes_installation() {
    for platform in platforms() {
        let before = Process::new();
        let mut process = before.clone();
        let handler = installed(&mut process, platform);
        assert_ne!(process, before);
        assert_eq!(process.uninstall(handler), UninstallAction::Removed);
        assert_eq!(process, before);
    }
}

#[test]
fn failed_installation_panics_and_keeps_what_is_installed() {
    let before = Process::new();
    let mut process = before.clone();
    process.failing.push(Signal::Ill);
    let (last, installer) = process.install(begin(on(Os::Linux, Arch::X86_64)));
    assert_eq!(last, InstallAction::Panic(InstallFailure::Install));
    assert_eq!(process.get(Signal::Segv).sa_sigaction, ENTRY);
    assert_eq!(process.get(Signal::Ill), before.get(Signal::Ill));
    assert_eq!(process.get(Signal::Fpe), before.get(Signal::Fpe));
    let mut previous = PreviousActions::empty();
    previous.set(Signal::Segv, before.get(Signal::Segv));
    assert_eq!(installer.previous(), previous);
}

#[test]
fn failed_removal_aborts() {
    let mut process = Process::new();
    let handler = installed(&mut process, on(Os::Linux, Arch::X86_64));
    process.failing.push(Signal::Ill);
    assert_eq!(process.uninstall(handler), UninstallAction::Abort(UninstallFailure::Reinstall));
    assert_eq!(process.get(Signal::Segv), Process::new().get(Signal::Segv));
    assert_eq!(process.get(Signal::Ill).sa_sigaction, ENTRY);
    assert_eq!(process.get(Signal::Fpe).sa_sigaction, ENTRY);
}

#[test]
fn handler_on_top_aborts_the_removal() {
    let before = Process::new();
    let mut process = before.clone();
    let handler = installed(&mut process, on(Os::Linux, Arch::X86_64));
    let (rc, _) = process
        .sigaction(Signal::Ill, SigAction { sa_flags: 0, sa_sigaction: 0x5555, rest: 0 });
    assert_eq!(rc, 0);
    assert_eq!(
        process.uninstall(handler),
        UninstallAction::Abort(UninstallFailure::NotLastInstalled)
    );
    // The disposition on top is gone, and the later signals were not reached.
    assert_eq!(process.get(Signal::Ill), before.get(Signal::Ill));
    assert_eq!(process.get(Signal::Fpe).sa_sigaction, ENTRY);
}

#[test]
fn foreign_handler_of_an_unhandled_signal_does_not_matter() {
    let mut process = Process::new();
    let handler = installed(&mut process, on(Os::Linux, Arch::Aarch64));
    process.sigaction(Signal::Fpe, SigAction { sa_flags: 0, sa_sigaction: 0x5555, rest: 0 });
    assert_eq!(process.uninstall(handler), UninstallAction::Removed);
    assert_eq!(process.get(Signal::Fpe).sa_sigaction, 0x5555);
}

#[test]
fn mach_ports_are_refused_on_macos_only() {
    let macos = on(Os::Macos, Arch::Aarch64);
    let linux = on(Os::Linux, Arch::X86_64);
    assert_eq!(TrapHandler::new(macos, true, ENTRY, 0u8).err(), Some(ConfigError::MachPorts));
    assert!(TrapHandler::new(macos, false, ENTRY, 0u8).is_ok());
    assert!(TrapHandler::new(linux, true, ENTRY, 0u8).is_ok());
    assert!(TrapHandler::new(linux, false, ENTRY, 0u8).is_ok());
}

#[test]
fn config_is_validated_against_the_platform() {
    let mut process = Process::new();
    let macos = installed(&mut process, on(Os::Macos, Arch::X86_64));
    assert_eq!(macos.validate_config(true), Err(ConfigError::MachPorts));
    assert_eq!(macos.validate_config(false), Ok(()));
    let mut process = Process::new();
    let linux = installed(&mut process, on(Os::Linux, Arch::X86_64));
    assert_eq!(linux.validate_config(true), Ok(()));
    assert_eq!(linux.validate_config(false), Ok(()));
}

#[test]
fn installed_handlers_forward_to_others_only() {
    let mut process = Process::new();
    let platform = on(Os::Freebsd, Arch::X86_64);
    let (_, installer) = process.install(begin(platform));
    for signal in SIGNALS {
        let previous = installer.previous().get(signal).unwrap();
        assert_ne!(previous.sa_sigaction, ENTRY);
        // A second installation would find the handlers themselves.
        assert_eq!(process.get(signal).sa_sigaction, ENTRY);
    }
}

#[test]
fn removal_failures_have_their_messages() {
    assert_eq!(InstallFailure::Install.message(), "unable to install signal handler");
    assert_eq!(UninstallFailure::Reinstall.message(), "unable to reinstall signal handler");
    let text = UninstallFailure::NotLastInstalled.message();
    assert!(text.starts_with("\nWasmtime's signal handler was not the last signal handler"));
    assert!(text.ends_with("The process will be aborted\nnow.\n"));
    assert_eq!(text.lines().count(), 6);
}
