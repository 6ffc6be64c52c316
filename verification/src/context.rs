//! The registers that the kernel saves when it delivers a signal.
//!
//! A saved context is read for the address of the faulting instruction and for the
//! frame pointer. On macOS it is also rewritten, so that the return from the signal
//! handler resumes elsewhere.

use crate::platform::Signal;
use vstd::prelude::*;

verus! {

/// The position of `rbp` among the saved registers of x86-64 Linux.
pub const REG_RBP: usize = 10;

/// The position of `rip` among the saved registers of x86-64 Linux.
pub const REG_RIP: usize = 16;

/// The position of the program counter among the saved registers of RISC-V Linux.
pub const REG_PC: usize = 0;

/// The position of `s0`, the frame pointer, among the saved registers of RISC-V
/// Linux.
pub const REG_S0: usize = 8;

/// The position of `x29`, the frame pointer, among the general registers of AArch64.
pub const REG_X29: usize = 29;

/// The saved registers that are looked at, as each platform lays them out.
#[derive(Clone, Copy, Debug, PartialEq, Eq)]
pub enum MachineContext {
    /// Linux or Android on x86-64: `uc_mcontext.gregs`.
    LinuxX86_64 { gregs: [i64; 23] },
    /// Linux or Android on AArch64: `uc_mcontext.pc` and `uc_mcontext.regs`.
    LinuxAarch64 { pc: u64, regs: [u64; 31] },
    /// Linux on s390x: `uc_mcontext.psw.addr`, and the word in memory that general
    /// register 15 points to.
    LinuxS390x { psw_addr: u64, frame_word: u64 },
    /// Linux on RISC-V: `uc_mcontext.__gregs`.
    LinuxRiscv64 { mc_gregs: [u64; 32] },
    /// macOS on x86-64: registers of `uc_mcontext.__ss`.
    MacosX86_64 { rip: u64, rbp: u64, rsp: u64, rdi: u64 },
    /// macOS on AArch64: registers of `uc_mcontext.__ss`.
    MacosAarch64 { pc: u64, fp: u64, x: [u64; 29] },
    /// FreeBSD on x86-64: registers of `uc_mcontext`.
    FreebsdX86_64 { mc_rip: i64, mc_rbp: i64 },
    /// FreeBSD on AArch64: registers of `mc_gpregs`.
    FreebsdAarch64 { gp_elr: i64, gp_x: [i64; 30] },
    /// OpenBSD on x86-64.
    OpenbsdX86_64 { sc_rip: i64, sc_rbp: i64 },
}

/// The address held in a register that the C library declares as signed: the same
/// 64 bits, read without a sign.
pub open spec fn register_address(register: i64) -> u64 {
    if register >= 0 {
        register as u64
    } else {
        (register + 0x1_0000_0000_0000_0000) as u64
    }
}

/// The address held in a register that the C library declares as signed.
fn address_of(register: i64) -> (address: u64)
    ensures
        address == register_address(register),
{
    assert(register < 0 ==> register as u64 == register + 0x1_0000_0000_0000_0000) by (bit_vector);
    #[verifier::truncate]
    let address: u64 = register as u64;
    address
}

/// How far past the faulting instruction's last byte s390x reports a signal.
///
/// There `SIGILL` and `SIGFPE` are delivered with the address *after* the faulting
/// instruction, while `SIGSEGV` and `SIGBUS` are delivered with the address *of* it.
/// The code generator registers a trap of the first kind at the last byte of its
/// instruction, which is one below the reported address.
pub open spec fn trap_offset(signal: Signal) -> u64 {
    match signal {
        Signal::Ill => 1,
        Signal::Fpe => 1,
        Signal::Segv => 0,
        Signal::Bus => 0,
    }
}

impl MachineContext {
    /// Whether this is a context of macOS.
    pub open spec fn is_macos(self) -> bool {
        self is MacosX86_64 || self is MacosAarch64
    }

    /// Whether this context can be changed to resume in another function: it is one
    /// of macOS and, on x86-64, its stack pointer is not null.
    pub open spec fn can_resume_elsewhere(self) -> bool {
        match self {
            MachineContext::MacosX86_64 { rsp, .. } => rsp != 0,
            MachineContext::MacosAarch64 { .. } => true,
            _ => false,
        }
    }

    /// The register of macOS that holds the first argument of a function.
    pub open spec fn first_argument(self) -> Option<u64> {
        match self {
            MachineContext::MacosX86_64 { rdi, .. } => Some(rdi),
            MachineContext::MacosAarch64 { x, .. } => Some(x@[0]),
            _ => None,
        }
    }

    /// The address at which the code generator registered a trap, if the signal
    /// stands for one.
    pub open spec fn trap_pc(self, signal: Signal) -> int {
        match self {
            MachineContext::LinuxX86_64 { gregs } => register_address(
                gregs@[REG_RIP as int],
            ) as int,
            MachineContext::LinuxAarch64 { pc, .. } => pc as int,
            MachineContext::LinuxS390x { psw_addr, .. } => psw_addr - trap_offset(signal),
            MachineContext::LinuxRiscv64 { mc_gregs } => mc_gregs@[REG_PC as int] as int,
            MachineContext::MacosX86_64 { rip, .. } => rip as int,
            MachineContext::MacosAarch64 { pc, .. } => pc as int,
            MachineContext::FreebsdX86_64 { mc_rip, .. } => register_address(mc_rip) as int,
            MachineContext::FreebsdAarch64 { gp_elr, .. } => register_address(gp_elr) as int,
            MachineContext::OpenbsdX86_64 { sc_rip, .. } => register_address(sc_rip) as int,
        }
    }

    /// The frame pointer of the interrupted code.
    pub open spec fn frame_pointer(self) -> u64 {
        match self {
            MachineContext::LinuxX86_64 { gregs } => register_address(gregs@[REG_RBP as int]),
            MachineContext::LinuxAarch64 { regs, .. } => regs@[REG_X29 as int],
            MachineContext::LinuxS390x { frame_word, .. } => frame_word,
            MachineContext::LinuxRiscv64 { mc_gregs } => mc_gregs@[REG_S0 as int],
            MachineContext::MacosX86_64 { rbp, .. } => rbp,
            MachineContext::MacosAarch64 { fp, .. } => fp,
            MachineContext::FreebsdX86_64 { mc_rbp, .. } => register_address(mc_rbp),
            MachineContext::FreebsdAarch64 { gp_x, .. } => register_address(
                gp_x@[REG_X29 as int],
            ),
            MachineContext::OpenbsdX86_64 { sc_rbp, .. } => register_address(sc_rbp),
        }
    }
}

impl MachineContext {
    /// Whether there is an address at which the code generator may have registered a trap:
    /// [`get_pc_and_fp`] needs one.
    pub fn has_trap_pc(&self, signal: Signal) -> (has: bool)
        ensures
            has == (self.trap_pc(signal) >= 0),
    {
        match (self, signal) {
            (MachineContext::LinuxS390x { psw_addr, .. }, Signal::Ill | Signal::Fpe) => {
                *psw_addr >= 1
            },
            _ => true,
        }
    }

    /// Whether this context can be changed to resume in another function: [`set_pc`] needs
    /// that.
    pub fn can_resume(&self) -> (can: bool)
        ensures
            can == self.can_resume_elsewhere(),
    {
        match self {
            MachineContext::MacosX86_64 { rsp, .. } => *rsp != 0,
            MachineContext::MacosAarch64 { .. } => true,
            _ => false,
        }
    }
}

/// The address of the faulting instruction and the frame pointer at it, for a signal
/// that was delivered with a context.
///
/// An s390x context at address 0 is left out for the signals that are reported past
/// their instruction: no instruction lies below address 0.
pub fn get_pc_and_fp(cx: &MachineContext, signal: Signal) -> (pc_and_fp: (u64, u64))
    requires
        cx.trap_pc(signal) >= 0,
    ensures
        pc_and_fp.0 == cx.trap_pc(signal),
        pc_and_fp.1 == cx.frame_pointer(),
{
    match cx {
        MachineContext::LinuxX86_64 { gregs } => (
            address_of(gregs[REG_RIP]),
            address_of(gregs[REG_RBP]),
        ),
        MachineContext::LinuxAarch64 { pc, regs } => (*pc, regs[REG_X29]),
        MachineContext::LinuxS390x { psw_addr, frame_word } => {
            let offset: u64 = match signal {
                Signal::Ill | Signal::Fpe => 1,
                _ => 0,
            };
            (*psw_addr - offset, *frame_word)
        },
        MachineContext::LinuxRiscv64 { mc_gregs } => (mc_gregs[REG_PC], mc_gregs[REG_S0]),
        MachineContext::MacosX86_64 { rip, rbp, .. } => (*rip, *rbp),
        MachineContext::MacosAarch64 { pc, fp, .. } => (*pc, *fp),
        MachineContext::FreebsdX86_64 { mc_rip, mc_rbp } => (
            address_of(*mc_rip),
            address_of(*mc_rbp),
        ),
        MachineContext::FreebsdAarch64 { gp_elr, gp_x } => (
            address_of(*gp_elr),
            address_of(gp_x[REG_X29]),
        ),
        MachineContext::OpenbsdX86_64 { sc_rip, sc_rbp } => (
            address_of(*sc_rip),
            address_of(*sc_rbp),
        ),
    }
}

/// The stack pointer at the entry of a function, for code that was interrupted with
/// the stack pointer `rsp`.
///
/// A `call` pushes a return address onto a stack that is aligned to 16 bytes, so a
/// function starts out 8 bytes off that alignment. An interrupted stack that is
/// aligned to 16 bytes is moved down by 8; any other one is left as it is.
pub open spec fn entry_rsp(rsp: u64) -> int {
    if rsp % 16 == 0 {
        rsp - 8
    } else {
        rsp as int
    }
}

/// Whether `after` is the context `before`, changed to resume in the function at
/// address `pc` with the first argument `arg1`.
pub open spec fn resumes_in(
    before: MachineContext,
    after: MachineContext,
    pc: usize,
    arg1: usize,
) -> bool {
    match before {
        MachineContext::MacosX86_64 { rbp, rsp, .. } => after == (MachineContext::MacosX86_64 {
            rip: pc as u64,
            rbp,
            rsp: entry_rsp(rsp) as u64,
            rdi: arg1 as u64,
        }),
        MachineContext::MacosAarch64 { fp, x, .. } => {
            &&& after matches MachineContext::MacosAarch64 { pc: pc_after, fp: fp_after, x: x_after }
            &&& pc_after == pc
            &&& fp_after == fp
            &&& x_after@ == x@.update(0, arg1 as u64)
        },
        _ => false,
    }
}

/// Changes a context of macOS so that the return from the signal handler enters the
/// function at address `pc` with the first argument `arg1`.
///
/// A null stack pointer on x86-64 is left out: there is nothing below it.
pub fn set_pc(cx: &mut MachineContext, pc: usize, arg1: usize)
    requires
        old(cx).can_resume_elsewhere(),
    ensures
        resumes_in(*old(cx), *final(cx), pc, arg1),
{
    match *cx {
        MachineContext::MacosX86_64 { rbp, rsp, .. } => {
            // The resumed function must find the stack as a `call` would leave it.
            // Most of the time the stack pointer is aligned to 16 bytes at a trap,
            // but compiled code may trap in a prologue, before it aligns the stack.
            let entry_rsp: u64 = if rsp % 16 == 0 {
                rsp - 8
            } else {
                rsp
            };
            *cx = MachineContext::MacosX86_64 {
                rip: pc as u64,
                rbp,
                rsp: entry_rsp,
                rdi: arg1 as u64,
            };
        },
        MachineContext::MacosAarch64 { fp, x, .. } => {
            let mut x: [u64; 29] = x;
            x[0] = arg1 as u64;
            *cx = MachineContext::MacosAarch64 { pc: pc as u64, fp, x };
        },
        _ => {},
    }
}

/// After `set_pc` the interrupted thread is found at the new address, with the new
/// argument and with the frame pointer that it had.
pub proof fn law_resumes_at_new_pc(
    before: MachineContext,
    after: MachineContext,
    pc: usize,
    arg1: usize,
    signal: Signal,
)
    requires
        resumes_in(before, after, pc, arg1),
    ensures
        after.trap_pc(signal) == pc,
        after.first_argument() == Some(arg1 as u64),
        after.frame_pointer() == before.frame_pointer(),
        after.is_macos(),
{
}

/// On x86-64 a stack that is aligned to 8 bytes is left as at the entry of a called
/// function, 8 bytes off an alignment to 16, and it is moved by at most 8 bytes.
pub proof fn law_stack_as_after_call(
    before: MachineContext,
    after: MachineContext,
    pc: usize,
    arg1: usize,
)
    requires
        before is MacosX86_64,
        before.can_resume_elsewhere(),
        before->rsp % 8 == 0,
        resumes_in(before, after, pc, arg1),
    ensures
        after is MacosX86_64,
        after->rsp % 16 == 8,
        before->rsp - 8 <= after->rsp <= before->rsp,
{
}

/// A second redirection replaces the first one: the result is the same as if only the
/// second one had been made, and the stack is not moved again.
pub proof fn law_last_redirection_counts(
    before: MachineContext,
    middle: MachineContext,
    after: MachineContext,
    pc1: usize,
    arg1: usize,
    pc2: usize,
    arg2: usize,
)
    requires
        before.can_resume_elsewhere(),
        resumes_in(before, middle, pc1, arg1),
        resumes_in(middle, after, pc2, arg2),
    ensures
        middle.can_resume_elsewhere(),
        resumes_in(before, after, pc2, arg2),
{
    if before is MacosAarch64 {
        assert(before->x@.update(0, arg1 as u64).update(0, arg2 as u64) =~= before->x@.update(
            0,
            arg2 as u64,
        ));
    }
}

/// A signal that s390x reports past its instruction is looked up one byte below the
/// reported address, any other one exactly there; on every other platform the signal
/// makes no difference.
pub proof fn law_late_signals_step_back(cx: MachineContext, signal: Signal)
    ensures
        cx.trap_pc(signal) == cx.trap_pc(Signal::Segv) - (if cx is LinuxS390x && (signal is Ill
            || signal is Fpe) {
            1int
        } else {
            0int
        }),
{
}

} // verus!
