//! The syscall layer. On the kernel side it interprets a syscall number
//! against the live trap frame and translates it into scheduler
//! operations; only syscall 1, `sleep`, is defined, and any other number
//! is fatal by design — no generic error-return ABI exists. On the user
//! side it decodes the two registers a sleep returns.

use vstd::prelude::*;

use crate::process::Id;
use crate::process::State;
use crate::process::WaitCond;
use crate::scheduler::spec_switch;
use crate::scheduler::GlobalScheduler;
use crate::scheduler::SchedulerView;
use crate::trap_frame::TrapFrame;
use crate::traps::HaltReason;
use crate::traps::TrapOutcome;

verus! {

/// The wait condition a sleep syscall installs: `ms` milliseconds,
/// counted in microseconds from the trap's clock reading.
pub open spec fn sleep_cond(ms: u32, now: u64) -> WaitCond {
    WaitCond { started_us: now, duration_us: (ms * 1000) as u64 }
}

/// What the syscall layer does to the scheduler, the live frame, and the
/// trap's outcome. Syscall 1 suspends the caller on a sleep condition
/// built from the low 32 bits of `x0` (milliseconds); every other number
/// halts the kernel.
pub open spec fn spec_handle_syscall(num: u16, s: SchedulerView, frame: TrapFrame, now: u64) -> (
    SchedulerView,
    TrapFrame,
    TrapOutcome,
) {
    if num == 1 {
        let st = State::Waiting(sleep_cond((frame.x0 & 0xffffffff) as u32, now));
        let stepped = spec_switch(s, st, frame, now);
        (
            stepped.0,
            stepped.1,
            match stepped.2 {
                Some(id) => TrapOutcome::Switched(id),
                None => if s.queue.len() == 0 {
                    TrapOutcome::Halt(HaltReason::NoCurrentProcess)
                } else {
                    TrapOutcome::Idle
                },
            },
        )
    } else {
        (s, frame, TrapOutcome::Halt(HaltReason::UnknownSyscall(num)))
    }
}

/// Suspends the calling process for `ms` milliseconds: installs a
/// `Waiting` condition capturing the trap's clock reading and the
/// requested duration in microseconds, and switches away. Once a later
/// poll finds the duration elapsed, the process's frame receives the
/// measured elapsed milliseconds in `x0` and a zero status in `x7`.
pub fn sleep(ms: u32, tf: &mut TrapFrame, sched: &mut GlobalScheduler, now: u64) -> (r: Option<
    Id,
>)
    requires
        old(sched).wf(),
        old(sched).is_initialized(),
        old(sched).sched().queue.len() > 0 ==> old(tf).tpidr
            == old(sched).sched().queue[0].trap_frame.tpidr,
    ensures
        final(sched).wf(),
        final(sched).is_initialized(),
        (final(sched).sched(), *final(tf), r) == spec_switch(
            old(sched).sched(),
            State::Waiting(sleep_cond(ms, now)),
            *old(tf),
            now,
        ),
{
    let us = (ms as u64) * 1000;
    let cond = WaitCond { started_us: now, duration_us: us };
    sched.switch(State::Waiting(cond), tf, now)
}

/// Interprets syscall `num` against the live trap frame. Only `1`
/// (sleep) is implemented; the milliseconds argument is the low 32 bits
/// of `x0`. An unknown number is fatal.
pub fn handle_syscall(
    num: u16,
    tf: &mut TrapFrame,
    sched: &mut GlobalScheduler,
    now: u64,
) -> (r: TrapOutcome)
    requires
        old(sched).wf(),
        old(sched).is_initialized(),
        old(sched).sched().queue.len() > 0 ==> old(tf).tpidr
            == old(sched).sched().queue[0].trap_frame.tpidr,
    ensures
        final(sched).wf(),
        final(sched).is_initialized(),
        (final(sched).sched(), *final(tf), r) == spec_handle_syscall(
            num,
            old(sched).sched(),
            *old(tf),
            now,
        ),
{
    match num {
        1 => {
            let x0 = tf.x0;
            proof {
                assert(x0 & 0xffffffff < 0x100000000) by (bit_vector);
            }
            let duration = (x0 & 0xffffffff) as u32;
            let found = sleep(duration, tf, sched, now);
            match found {
                Some(id) => TrapOutcome::Switched(id),
                None => if sched.process_count() == 0 {
                    TrapOutcome::Halt(HaltReason::NoCurrentProcess)
                } else {
                    TrapOutcome::Idle
                },
            }
        },
        _ => TrapOutcome::Halt(HaltReason::UnknownSyscall(num)),
    }
}

/// The error a failed system call reports to user code; the status code
/// carries no further detail.
#[derive(Debug, PartialEq, Eq, Copy, Clone)]
pub struct Error {}

impl From<u64> for Error {
    /// Builds the error reported by a nonzero syscall status code.
    fn from(code: u64) -> (r: Error) {
        Error {}
    }
}

impl vstd::std_specs::convert::FromSpecImpl<u64> for Error {
    open spec fn obeys_from_spec() -> bool {
        true
    }

    open spec fn from_spec(code: u64) -> Error {
        Error {}
    }
}

/// Decodes the two registers a sleep syscall hands back to user code:
/// with a zero status the call succeeded and the elapsed time is the low
/// 32 bits of the primary return register; any other status is the
/// syscall error.
pub fn decode_sleep_result(elapsed: u64, status: u64) -> (r: Result<u32, Error>)
    ensures
        status == 0 ==> r == Ok::<u32, Error>((elapsed & 0xffffffff) as u32),
        status != 0 ==> r == Err::<u32, Error>(Error {}),
{
    if status == 0 {
        proof {
            assert(elapsed & 0xffffffff < 0x100000000) by (bit_vector);
        }
        Ok((elapsed & 0xffffffff) as u32)
    } else {
        Err(Error::from(status))
    }
}

} // verus!
