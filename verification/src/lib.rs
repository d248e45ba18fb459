//! The scheduling, time-accounting, system-call and trap-dispatch logic of a
//! small RISC-V multiprogramming kernel, with the user library's side of the
//! system-call interface.
//!
//! Everything that touches the machine (CSRs, SBI calls, the context-switch
//! routine, raw memory) is left to the caller: the functions here take what
//! the hardware reported as plain values and hand back what must be done.

pub mod config;
pub mod timer;
pub mod task;
pub mod tasks;
pub mod trap;
pub mod syscall;
pub mod user;
pub mod loader;
pub mod batch;
pub mod sbi;
pub mod handler;
