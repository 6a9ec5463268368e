//! Core of a small preemptive kernel for a single-core ARM64 board: the
//! trap/exception dispatcher and the round-robin process scheduler.
//!
//! The hardware itself (timer, interrupt controller, console, the register
//! restore trampoline) stays outside this crate; the kernel logic here is
//! written over plain values handed in by that thin layer: the raw syndrome
//! register, whether the timer line is pending, and the current monotonic
//! time in microseconds.

pub mod process;
pub mod scheduler;
pub mod syndrome;
pub mod syscall;
pub mod trap_frame;
pub mod traps;
