use wasm_signals::platform::{foreach_handler, Arch, Os, Platform, Signal, SignalAbi};

fn on(os: Os, arch: Arch) -> Platform {
    Platform { os, arch, abi: SignalAbi::host() }
}

#[test]
fn host_numbers_are_those_of_the_c_library() {
    let abi = SignalAbi::host();
    assert_eq!(abi.sigsegv, libc::SIGSEGV);
    assert_eq!(abi.sigill, libc::SIGILL);
    assert_eq!(abi.sigfpe, libc::SIGFPE);
    assert_eq!(abi.sigbus, libc::SIGBUS);
    assert_eq!(abi.sa_siginfo, libc::SA_SIGINFO);
    assert_eq!(abi.sa_nodefer, libc::SA_NODEFER);
    assert_eq!(abi.sa_onstack, libc::SA_ONSTACK);
    assert_eq!(abi.sig_dfl, libc::SIG_DFL);
    assert_eq!(abi.sig_ign, libc::SIG_IGN);
    assert_eq!(abi.ss_disable, libc::SS_DISABLE);
}

#[test]
fn host_numbers_are_those_of_a_supported_system() {
    let abi = SignalAbi::host();
    assert_eq!((abi.sigsegv, abi.sigill, abi.sigfpe), (11, 4, 8));
    assert_eq!((abi.sig_dfl, abi.sig_ign), (0, 1));
    let flags = (abi.sigbus, abi.sa_siginfo, abi.sa_nodefer, abi.sa_onstack, abi.ss_disable);
    assert!(flags == (7, 0x4, 0x4000_0000, 0x0800_0000, 2) || flags == (10, 0x40, 0x10, 0x1, 4));
}

const LINUX: SignalAbi = SignalAbi {
    sigsegv: 11,
    sigill: 4,
    sigfpe: 8,
    sigbus: 7,
    sa_siginfo: 0x4,
    sa_nodefer: 0x4000_0000,
    sa_onstack: 0x0800_0000,
    sig_dfl: 0,
    sig_ign: 1,
    ss_disable: 2,
};

const BSD: SignalAbi = SignalAbi {
    sigbus: 10,
    sa_siginfo: 0x40,
    sa_nodefer: 0x10,
    sa_onstack: 0x1,
    ss_disable: 4,
    ..LINUX
};

#[test]
fn numbers_go_with_their_operating_system() {
    for arch in [Arch::X86_64, Arch::Aarch64] {
        for os in [Os::Linux, Os::Android] {
            assert_eq!(Platform::new(os, arch, LINUX), Some(Platform { os, arch, abi: LINUX }));
            assert_eq!(Platform::new(os, arch, BSD), None);
        }
        for os in [Os::Macos, Os::Freebsd, Os::Openbsd] {
            assert_eq!(Platform::new(os, arch, BSD), Some(Platform { os, arch, abi: BSD }));
            assert_eq!(Platform::new(os, arch, LINUX), None);
        }
    }
}

#[test]
fn host_platform_has_the_numbers_of_the_host() {
    for os in [Os::Linux, Os::Android, Os::Macos, Os::Freebsd, Os::Openbsd] {
        let expected = Platform::new(os, Arch::X86_64, SignalAbi::host());
        assert_eq!(Platform::host(os, Arch::X86_64), expected);
    }
    let linux = Platform::host(Os::Linux, Arch::X86_64);
    let macos = Platform::host(Os::Macos, Arch::X86_64);
    assert_eq!(linux.is_some(), SignalAbi::host() == LINUX);
    assert_eq!(macos.is_some(), SignalAbi::host() == BSD);
}

#[test]
fn handled_signals_of_each_platform() {
    let segv_ill = vec![Signal::Segv, Signal::Ill];
    let with_fpe = vec![Signal::Segv, Signal::Ill, Signal::Fpe];
    let with_bus = vec![Signal::Segv, Signal::Ill, Signal::Bus];
    let all = vec![Signal::Segv, Signal::Ill, Signal::Fpe, Signal::Bus];
    assert_eq!(foreach_handler(&on(Os::Linux, Arch::X86_64)), with_fpe);
    assert_eq!(foreach_handler(&on(Os::Linux, Arch::S390x)), with_fpe);
    assert_eq!(foreach_handler(&on(Os::Linux, Arch::Aarch64)), segv_ill);
    assert_eq!(foreach_handler(&on(Os::Linux, Arch::Riscv64)), segv_ill);
    assert_eq!(foreach_handler(&on(Os::Android, Arch::X86_64)), with_fpe);
    assert_eq!(foreach_handler(&on(Os::Android, Arch::Aarch64)), segv_ill);
    assert_eq!(foreach_handler(&on(Os::Macos, Arch::X86_64)), all);
    assert_eq!(foreach_handler(&on(Os::Macos, Arch::Aarch64)), with_bus);
    assert_eq!(foreach_handler(&on(Os::Freebsd, Arch::X86_64)), all);
    assert_eq!(foreach_handler(&on(Os::Freebsd, Arch::Aarch64)), with_bus);
    assert_eq!(foreach_handler(&on(Os::Openbsd, Arch::X86_64)), with_fpe);
}

#[test]
fn signals_are_found_by_their_numbers() {
    let abi = SignalAbi::host();
    for signal in [Signal::Segv, Signal::Ill, Signal::Fpe, Signal::Bus] {
        assert_eq!(Signal::from_number(&abi, signal.number(&abi)), Some(signal));
    }
    assert_eq!(Signal::from_number(&abi, libc::SIGSEGV), Some(Signal::Segv));
    assert_eq!(Signal::from_number(&abi, libc::SIGBUS), Some(Signal::Bus));
    assert_eq!(Signal::from_number(&abi, libc::SIGFPE), Some(Signal::Fpe));
    assert_eq!(Signal::from_number(&abi, libc::SIGILL), Some(Signal::Ill));
}

#[test]
fn other_numbers_name_no_signal() {
    let abi = SignalAbi::host();
    assert_eq!(Signal::from_number(&abi, libc::SIGTERM), None);
    assert_eq!(Signal::from_number(&abi, 0), None);
    assert_eq!(Signal::from_number(&abi, -11), None);
    assert_eq!(Signal::from_number(&abi, i32::MAX), None);
}

#[test]
fn different_signals_have_different_numbers() {
    let abi = SignalAbi::host();
    let signals = [Signal::Segv, Signal::Ill, Signal::Fpe, Signal::Bus];
    for one in signals {
        for other in signals {
            assert_eq!(one.number(&abi) == other.number(&abi), one == other);
        }
    }
}
