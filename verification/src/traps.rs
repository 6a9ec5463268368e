//! The exception dispatcher: classifies each hardware trap, decodes the
//! syndrome for synchronous traps, and routes to the IRQ handler, the
//! syscall layer, or the diagnostic shell.
//!
//! The dispatcher itself performs no I/O: the thin architecture layer
//! hands it the raw syndrome value, whether the timer line is pending, and
//! the clock, and carries out the returned `TrapOutcome` — running the
//! shell, restoring the frame, idling, or halting with diagnostics.

use vstd::prelude::*;

use crate::process::Id;
use crate::process::State;
use crate::scheduler::spec_switch;
use crate::scheduler::GlobalScheduler;
use crate::scheduler::SchedulerView;
use crate::syndrome::decode_syndrome;
use crate::syndrome::spec_decode_syndrome;
use crate::syndrome::Syndrome;
use crate::syscall::handle_syscall;
use crate::syscall::spec_handle_syscall;
use crate::trap_frame::TrapFrame;

verus! {

/// What kind of exception trapped.
#[derive(Debug, PartialEq, Eq, Copy, Clone)]
pub enum Kind {
    Synchronous,
    Irq,
    Fiq,
    SError,
}

/// Which execution state the exception was taken from.
#[derive(Debug, PartialEq, Eq, Copy, Clone)]
pub enum Source {
    CurrentSpEl0,
    CurrentSpElx,
    LowerAArch64,
    LowerAArch32,
}

/// The source and kind of an exception, as the vector table reports them.
#[derive(Debug, PartialEq, Eq, Copy, Clone)]
pub struct Info {
    pub source: Source,
    pub kind: Kind,
}

/// Why the kernel halts: a condition it neither recovers from nor retries.
#[derive(Debug, PartialEq, Eq, Copy, Clone)]
pub enum HaltReason {
    /// An interrupt trapped but no recognized line is pending.
    UnexpectedInterrupt,
    /// A syscall number the kernel does not implement.
    UnknownSyscall(u16),
    /// A trap kind and syndrome the kernel has no handler for.
    UnhandledTrap(Kind, Syndrome),
    /// A context switch found an empty queue: there must always be a
    /// current process, so this denotes a kernel bug.
    NoCurrentProcess,
}

/// What the architecture layer must do after the dispatcher returns.
#[derive(Debug, PartialEq, Eq, Copy, Clone)]
pub enum TrapOutcome {
    /// A debug break: run the diagnostic shell, then resume through the
    /// live frame, whose return address has been advanced past the
    /// breaking instruction.
    Shell,
    /// A context switch selected the process with this ID: restore the
    /// live frame; after a timer interrupt, re-arm the next tick first.
    Switched(Id),
    /// No process is ready yet: perform a low-power wait for the next
    /// interrupt and retry through `GlobalScheduler::reschedule` with a
    /// later clock reading.
    Idle,
    /// A fatal condition: print the diagnostic context and halt.
    Halt(HaltReason),
}

/// What a forced preemption does: a switch that keeps the current process
/// `Ready`, with the switch result folded into a `TrapOutcome`.
pub open spec fn spec_preempt(s: SchedulerView, frame: TrapFrame, now: u64) -> (
    SchedulerView,
    TrapFrame,
    TrapOutcome,
) {
    let stepped = spec_switch(s, State::Ready, frame, now);
    (
        stepped.0,
        stepped.1,
        match stepped.2 {
            Some(id) => TrapOutcome::Switched(id),
            None => if s.queue.len() == 0 {
                TrapOutcome::Halt(HaltReason::NoCurrentProcess)
            } else {
                TrapOutcome::Idle
            },
        },
    )
}

/// Handles the periodic timer interrupt: a forced preemption. The current
/// process is requeued `Ready`; the caller re-arms the next tick when the
/// switch succeeds.
pub fn handle_irq(sched: &mut GlobalScheduler, tf: &mut TrapFrame, now: u64) -> (r: Option<Id>)
    requires
        old(sched).wf(),
        old(sched).is_initialized(),
        old(sched).sched().queue.len() > 0 ==> old(tf).tpidr
            == old(sched).sched().queue[0].trap_frame.tpidr,
    ensures
        final(sched).wf(),
        final(sched).is_initialized(),
        (final(sched).sched(), *final(tf), r) == spec_switch(
            old(sched).sched(),
            State::Ready,
            *old(tf),
            now,
        ),
{
    sched.switch(State::Ready, tf, now)
}

/// This function is called when an exception occurs. `info` gives the
/// exception's source and kind, `esr` the raw value of the exception
/// syndrome register, `timer_pending` whether the interrupt controller
/// reports the periodic timer line, `tf` the live trap frame, and `now`
/// the monotonic clock in microseconds.
///
/// Debug breaks route to the diagnostic shell; service calls to the
/// syscall layer; a pending timer interrupt forces a preemption. Anything
/// else — an unrecognized pending line, an unlisted syndrome, `Fiq` or
/// `SError` — is fatal.
pub fn handle_exception(
    info: Info,
    esr: u32,
    timer_pending: bool,
    sched: &mut GlobalScheduler,
    tf: &mut TrapFrame,
    now: u64,
) -> (r: TrapOutcome)
    requires
        old(sched).wf(),
        old(sched).is_initialized(),
        old(sched).sched().queue.len() > 0 ==> old(tf).tpidr
            == old(sched).sched().queue[0].trap_frame.tpidr,
    ensures
        final(sched).wf(),
        final(sched).is_initialized(),
        match (info.kind, spec_decode_syndrome(esr)) {
            (Kind::Synchronous, Syndrome::Brk(_)) => r == TrapOutcome::Shell && *final(sched)
                == *old(sched) && *final(tf) == (TrapFrame {
                elr: old(tf).elr.wrapping_add(4),
                ..*old(tf)
            }),
            (Kind::Synchronous, Syndrome::Svc(n)) => (
                final(sched).sched(),
                *final(tf),
                r,
            ) == spec_handle_syscall(n, old(sched).sched(), *old(tf), now),
            (Kind::Irq, _) => if timer_pending {
                (final(sched).sched(), *final(tf), r) == spec_preempt(
                    old(sched).sched(),
                    *old(tf),
                    now,
                )
            } else {
                r == TrapOutcome::Halt(HaltReason::UnexpectedInterrupt) && *final(sched) == *old(
                    sched,
                ) && *final(tf) == *old(tf)
            },
            (k, s) => r == TrapOutcome::Halt(HaltReason::UnhandledTrap(k, s)) && *final(sched)
                == *old(sched) && *final(tf) == *old(tf),
        },
{
    let syndrome = decode_syndrome(esr);
    match (info.kind, syndrome) {
        (Kind::Synchronous, Syndrome::Brk(_)) => {
            tf.elr = tf.elr.wrapping_add(4);
            TrapOutcome::Shell
        },
        (Kind::Synchronous, Syndrome::Svc(n)) => handle_syscall(n, tf, sched, now),
        (Kind::Irq, _) => {
            if timer_pending {
                let found = handle_irq(sched, tf, now);
                match found {
                    Some(id) => TrapOutcome::Switched(id),
                    None => if sched.process_count() == 0 {
                        TrapOutcome::Halt(HaltReason::NoCurrentProcess)
                    } else {
                        TrapOutcome::Idle
                    },
                }
            } else {
                TrapOutcome::Halt(HaltReason::UnexpectedInterrupt)
            }
        },
        (k, s) => TrapOutcome::Halt(HaltReason::UnhandledTrap(k, s)),
    }
}

} // verus!
