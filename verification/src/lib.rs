//! Trap handling on Unix based on POSIX signals.
//!
//! Compiled WebAssembly code reports traps by faulting: an access out of bounds, an
//! illegal instruction or a division by zero raises a signal, and the process has to
//! tell such a signal from an ordinary crash. This crate makes the decisions that this
//! takes, and proves what they lead to. It makes no system call and touches no memory
//! but its own: each of its state machines names the next action, and its caller
//! performs the action and reports what came of it.
//!
//! - [`platform`]: the system, its signals and its numbers.
//! - [`action`]: dispositions of signals.
//! - [`handlers`]: the installation and the removal of the handlers.
//! - [`process`]: what that does to the dispositions of a process.
//! - [`trap`]: what becomes of a signal.
//! - [`context`]: the registers that come with a signal.
//! - [`altstack`]: the stack that the handlers of a thread run on.
//! - [`laws`]: what the definitions in the contracts come to.
//! - [`calls`]: what comes of a call of each function.

pub mod action;
pub mod altstack;
pub mod calls;
pub mod context;
pub mod handlers;
pub mod laws;
pub mod platform;
pub mod process;
mod sys;
pub mod trap;
