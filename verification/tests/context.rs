use wasm_signals::context::{
    get_pc_and_fp, set_pc, MachineContext, REG_PC, REG_RBP, REG_RIP, REG_S0, REG_X29,
};
use wasm_signals::platform::Signal;

const SIGNALS: [Signal; 4] = [Signal::Segv, Signal::Ill, Signal::Fpe, Signal::Bus];

#[test]
fn positions_of_registers() {
    assert_eq!(REG_RIP, libc::REG_RIP as usize);
    assert_eq!(REG_RBP, libc::REG_RBP as usize);
    assert_eq!((REG_PC, REG_S0, REG_X29), (0, 8, 29));
}

#[test]
fn linux_x86_64_reads_rip_and_rbp() {
    let mut gregs = [0i64; 23];
    gregs[16] = 0x1234;
    gregs[10] = 0x7fff_0000;
    let cx = MachineContext::LinuxX86_64 { gregs };
    for signal in SIGNALS {
        assert_eq!(get_pc_and_fp(&cx, signal), (0x1234, 0x7fff_0000));
    }
}

#[test]
fn signed_registers_keep_their_bits() {
    let mut gregs = [0i64; 23];
    gregs[16] = -1;
    gregs[10] = i64::MIN;
    let cx = MachineContext::LinuxX86_64 { gregs };
    assert_eq!(get_pc_and_fp(&cx, Signal::Segv), (u64::MAX, 0x8000_0000_0000_0000));
}

#[test]
fn linux_aarch64_reads_pc_and_x29() {
    let mut regs = [0u64; 31];
    regs[29] = 7;
    let cx = MachineContext::LinuxAarch64 { pc: 9, regs };
    assert_eq!(get_pc_and_fp(&cx, Signal::Ill), (9, 7));
}

#[test]
fn linux_riscv64_reads_pc_and_s0() {
    let mut mc_gregs = [0u64; 32];
    mc_gregs[0] = 100;
    mc_gregs[8] = 200;
    let cx = MachineContext::LinuxRiscv64 { mc_gregs };
    assert_eq!(get_pc_and_fp(&cx, Signal::Segv), (100, 200));
}

#[test]
fn s390x_steps_back_for_late_signals_only() {
    let cx = MachineContext::LinuxS390x { psw_addr: 0x1000, frame_word: 0x2000 };
    assert_eq!(get_pc_and_fp(&cx, Signal::Ill), (0xfff, 0x2000));
    assert_eq!(get_pc_and_fp(&cx, Signal::Fpe), (0xfff, 0x2000));
    assert_eq!(get_pc_and_fp(&cx, Signal::Segv), (0x1000, 0x2000));
    assert_eq!(get_pc_and_fp(&cx, Signal::Bus), (0x1000, 0x2000));
    let zero = MachineContext::LinuxS390x { psw_addr: 0, frame_word: 0 };
    assert_eq!(get_pc_and_fp(&zero, Signal::Segv), (0, 0));
}

#[test]
fn macos_reads_named_registers() {
    let cx = MachineContext::MacosX86_64 { rip: 1, rbp: 2, rsp: 3, rdi: 4 };
    assert_eq!(get_pc_and_fp(&cx, Signal::Ill), (1, 2));
    let cx = MachineContext::MacosAarch64 { pc: 5, fp: 6, x: [7; 29] };
    assert_eq!(get_pc_and_fp(&cx, Signal::Bus), (5, 6));
}

#[test]
fn bsd_reads_named_registers() {
    let cx = MachineContext::FreebsdX86_64 { mc_rip: 1, mc_rbp: -2 };
    assert_eq!(get_pc_and_fp(&cx, Signal::Ill), (1, u64::MAX - 1));
    let mut gp_x = [0i64; 30];
    gp_x[29] = 11;
    let cx = MachineContext::FreebsdAarch64 { gp_elr: 10, gp_x };
    assert_eq!(get_pc_and_fp(&cx, Signal::Segv), (10, 11));
    let cx = MachineContext::OpenbsdX86_64 { sc_rip: 12, sc_rbp: 13 };
    assert_eq!(get_pc_and_fp(&cx, Signal::Fpe), (12, 13));
}

#[test]
fn set_pc_moves_an_aligned_stack() {
    let mut cx = MachineContext::MacosX86_64 { rip: 1, rbp: 2, rsp: 0x7000, rdi: 4 };
    set_pc(&mut cx, 0x5000, 0x6000);
    assert_eq!(
        cx,
        MachineContext::MacosX86_64 { rip: 0x5000, rbp: 2, rsp: 0x6ff8, rdi: 0x6000 }
    );
}

#[test]
fn set_pc_leaves_an_unaligned_stack() {
    for rsp in [0x6ff8u64, 0x6ff9, 1] {
        let mut cx = MachineContext::MacosX86_64 { rip: 1, rbp: 2, rsp, rdi: 4 };
        set_pc(&mut cx, 0x5000, 0x6000);
        assert_eq!(cx, MachineContext::MacosX86_64 { rip: 0x5000, rbp: 2, rsp, rdi: 0x6000 });
    }
}

#[test]
fn set_pc_on_aarch64_sets_pc_and_x0() {
    let mut cx = MachineContext::MacosAarch64 { pc: 1, fp: 2, x: [3; 29] };
    set_pc(&mut cx, 40, 50);
    let mut x = [3u64; 29];
    x[0] = 50;
    assert_eq!(cx, MachineContext::MacosAarch64 { pc: 40, fp: 2, x });
}

#[test]
fn resumed_context_is_found_at_the_new_pc() {
    let mut cx = MachineContext::MacosX86_64 { rip: 1, rbp: 2, rsp: 0x7000, rdi: 4 };
    set_pc(&mut cx, 0x5000, 0x6000);
    for signal in SIGNALS {
        assert_eq!(get_pc_and_fp(&cx, signal), (0x5000, 2));
    }
}

#[test]
fn the_last_redirection_counts() {
    let start = MachineContext::MacosX86_64 { rip: 1, rbp: 2, rsp: 0x7000, rdi: 4 };
    let mut once = start;
    set_pc(&mut once, 30, 31);
    let mut twice = start;
    set_pc(&mut twice, 10, 11);
    set_pc(&mut twice, 30, 31);
    assert_eq!(once, twice);
}

#[test]
fn only_late_signals_of_s390x_lack_a_trap_pc() {
    let zero = MachineContext::LinuxS390x { psw_addr: 0, frame_word: 0 };
    assert!(!zero.has_trap_pc(Signal::Ill));
    assert!(!zero.has_trap_pc(Signal::Fpe));
    assert!(zero.has_trap_pc(Signal::Segv));
    assert!(zero.has_trap_pc(Signal::Bus));
    let one = MachineContext::LinuxS390x { psw_addr: 1, frame_word: 0 };
    let linux = MachineContext::LinuxX86_64 { gregs: [0; 23] };
    for signal in SIGNALS {
        assert!(one.has_trap_pc(signal));
        assert!(linux.has_trap_pc(signal));
    }
}

#[test]
fn only_macos_contexts_with_a_stack_resume_elsewhere() {
    assert!(MachineContext::MacosX86_64 { rip: 0, rbp: 0, rsp: 16, rdi: 0 }.can_resume());
    assert!(!MachineContext::MacosX86_64 { rip: 0, rbp: 0, rsp: 0, rdi: 0 }.can_resume());
    assert!(MachineContext::MacosAarch64 { pc: 0, fp: 0, x: [0; 29] }.can_resume());
    assert!(!MachineContext::LinuxX86_64 { gregs: [0; 23] }.can_resume());
}
