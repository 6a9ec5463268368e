//! Processes: a trap frame, an owned stack, and a scheduling state.
//!
//! A blocked process carries a `WaitCond`, a deferred readiness test that
//! the scheduler polls with the current monotonic time; captured closures
//! are deliberately avoided so that polling is a pure function of the
//! condition and the clock.

use vstd::prelude::*;

use crate::trap_frame::TrapFrame;

verus! {

/// Type of a process ID.
pub type Id = u64;

/// Size in bytes of every process stack.
pub const STACK_SIZE: usize = 1024 * 1024;

/// A contiguous memory region exclusively owned by one process, used as its
/// stack. It is allocated at process creation and never freed: the modeled
/// lifecycle has no process teardown.
#[derive(Debug)]
pub struct Stack {
    mem: Vec<u8>,
}

impl View for Stack {
    type V = Seq<u8>;

    closed spec fn view(&self) -> Seq<u8> {
        self.mem@
    }
}

impl Stack {
    /// A stack is well formed when it spans exactly `STACK_SIZE` bytes.
    pub open spec fn wf(&self) -> bool {
        self@.len() == STACK_SIZE
    }

    /// Allocates a new zeroed stack of the default size. Returns `None`,
    /// and never panics, when the allocator cannot provide the memory.
    pub fn new() -> (r: Option<Stack>)
        ensures
            r matches Some(s) ==> s.wf() && (forall|i: int| 0 <= i < s@.len() ==> s@[i] == 0u8),
    {
        let mut mem: Vec<u8> = Vec::new();
        if mem.try_reserve(STACK_SIZE).is_err() {
            return None;
        }
        let mut i: usize = 0;
        while i < STACK_SIZE
            invariant
                i <= STACK_SIZE,
                mem@.len() == i,
                forall|j: int| 0 <= j < i ==> mem@[j] == 0u8,
            decreases STACK_SIZE - i,
        {
            mem.push(0);
            i = i + 1;
        }
        Some(Stack { mem })
    }

    /// The top of the stack region: the address, relative to its base, that
    /// a fresh process's stack pointer starts at. It is 16-byte aligned.
    pub fn top(&self) -> (r: u64)
        requires
            self.wf(),
        ensures
            r == STACK_SIZE as u64,
            r % 16 == 0,
    {
        self.mem.len() as u64
    }
}

/// A deferred readiness test for a sleeping process: the poll succeeds once
/// more than `duration_us` microseconds have elapsed since `started_us`.
#[derive(Debug, PartialEq, Eq, Copy, Clone)]
pub struct WaitCond {
    /// Monotonic time, in microseconds, at which the wait began.
    pub started_us: u64,
    /// Requested duration of the wait, in microseconds.
    pub duration_us: u64,
}

/// The scheduling state of a process.
#[derive(Debug, PartialEq, Eq, Copy, Clone)]
pub enum State {
    /// Immediately eligible to run.
    Ready,
    /// Informational marker for the process currently holding the core.
    Running,
    /// Blocked until the carried condition reports satisfied.
    Waiting(WaitCond),
}

/// Microseconds elapsed since the wait began, by a monotonic clock reading
/// `now`; zero when the clock has not yet reached the start point.
pub open spec fn wait_elapsed(w: WaitCond, now: u64) -> int {
    if now >= w.started_us {
        now - w.started_us
    } else {
        0
    }
}

/// Whether the wait is over: strictly more than the requested duration has
/// elapsed.
pub open spec fn wait_done(w: WaitCond, now: u64) -> bool {
    wait_elapsed(w, now) > w.duration_us
}

/// A structure that represents the complete state of a process.
#[derive(Debug)]
pub struct Process {
    /// The saved trap frame of the process.
    pub trap_frame: TrapFrame,
    /// The memory region used as the process's stack.
    pub stack: Stack,
    /// The scheduling state of the process.
    pub state: State,
}

/// Whether a poll of `p` at time `now` reports it ready: `Ready` processes
/// always are, `Running` processes never are, and a `Waiting` process is
/// ready exactly when its condition is done.
pub open spec fn ready_at(p: Process, now: u64) -> bool {
    match p.state {
        State::Ready => true,
        State::Running => false,
        State::Waiting(w) => wait_done(w, now),
    }
}

/// The process after a poll at time `now`. A `Waiting` process whose
/// condition is done transitions to `Ready` and has the elapsed time in
/// milliseconds written to its frame's `x0` and a zero status to `x7`;
/// every other poll leaves the process unchanged.
pub open spec fn polled(p: Process, now: u64) -> Process {
    match p.state {
        State::Waiting(w) => if wait_done(w, now) {
            Process {
                trap_frame: TrapFrame {
                    x0: (wait_elapsed(w, now) / 1000) as u64,
                    x7: 0,
                    ..p.trap_frame
                },
                state: State::Ready,
                stack: p.stack,
            }
        } else {
            p
        },
        _ => p,
    }
}

impl Process {
    /// Creates a new process with a zeroed trap frame, a zeroed stack of
    /// the default size, and a state of `Ready`.
    ///
    /// Returns `None`, and never panics, when the stack memory cannot be
    /// allocated.
    pub fn new() -> (r: Option<Process>)
        ensures
            r matches Some(p) ==> p.trap_frame == TrapFrame::spec_zeroed()
                && p.state == State::Ready && p.stack.wf(),
    {
        let stack = match Stack::new() {
            Some(s) => s,
            None => {
                return None;
            },
        };
        Some(Process { trap_frame: TrapFrame::zeroed(), stack, state: State::Ready })
    }

    /// Returns `true` if this process is ready to be scheduled at monotonic
    /// time `now`, polling and possibly discharging a `Waiting` condition.
    pub fn is_ready(&mut self, now: u64) -> (r: bool)
        ensures
            r == ready_at(*old(self), now),
            *final(self) == polled(*old(self), now),
    {
        match self.state {
            State::Ready => true,
            State::Running => false,
            State::Waiting(w) => {
                let elapsed: u64 = if now >= w.started_us {
                    now - w.started_us
                } else {
                    0
                };
                if elapsed > w.duration_us {
                    self.trap_frame.x0 = elapsed / 1000;
                    self.trap_frame.x7 = 0;
                    self.state = State::Ready;
                    true
                } else {
                    false
                }
            },
        }
    }
}

/// A poll never moves a process out of readiness: `Ready` polls true and
/// leaves the process unchanged, however often it is asked; `Running` polls
/// false and leaves the process unchanged.
pub proof fn lemma_poll_stable(p: Process, now: u64)
    requires
        p.state is Ready || p.state is Running,
    ensures
        polled(p, now) == p,
        ready_at(p, now) == (p.state is Ready),
{
}

/// A waiting process transitions exactly once: polls before the condition
/// is done leave it waiting and untouched, the first poll after transitions
/// it to `Ready`, and from then on every further poll reports it ready and
/// changes nothing.
pub proof fn lemma_wait_transitions_once(p: Process, early: u64, late: u64)
    requires
        p.state is Waiting,
        !ready_at(p, early),
        ready_at(p, late),
    ensures
        polled(p, early) == p,
        polled(p, late).state is Ready,
        forall|t: u64| polled(polled(p, late), t) == polled(p, late) && ready_at(
            polled(p, late),
            t,
        ),
{
}

} // verus!
