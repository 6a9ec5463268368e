//! The round-robin process scheduler and the kernel-wide handle around it.
//!
//! The queue's arrival order is the round-robin order: `next` polls from
//! the front, rotates the first ready process to the front without
//! disturbing the relative order of the processes it skipped, and `switch`
//! exchanges the live trap frame for the stored frame of the process it
//! selects.

use std::collections::VecDeque;

use vstd::prelude::*;

use crate::process::polled;
use crate::process::ready_at;
use crate::process::Id;
use crate::process::Process;
use crate::process::State;
use crate::process::STACK_SIZE;
use crate::trap_frame::TrapFrame;

verus! {

/// Microseconds between two preemption timer ticks.
pub const TICK: u32 = 2 * 1000 * 1000;

/// The mathematical model of a scheduler: its queue in round-robin order,
/// the ID the counter will assign next (`None` once the ID space is
/// exhausted), and the most recently assigned ID.
pub struct SchedulerView {
    pub queue: Seq<Process>,
    pub next_id: Option<Id>,
    pub last_id: Option<Id>,
}

impl SchedulerView {
    /// No two queued processes share an ID.
    pub open spec fn ids_unique(&self) -> bool {
        forall|i: int, j: int|
            0 <= i < j < self.queue.len() ==> self.queue[i].trap_frame.tpidr
                != self.queue[j].trap_frame.tpidr
    }

    /// Every queued ID is at least 1, below the ID the counter will assign
    /// next, and no later than the most recently assigned one.
    pub open spec fn ids_bounded(&self) -> bool {
        &&& forall|i: int|
            0 <= i < self.queue.len() ==> 1 <= #[trigger] self.queue[i].trap_frame.tpidr
        &&& (self.next_id matches Some(n) ==> forall|i: int|
            0 <= i < self.queue.len() ==> #[trigger] self.queue[i].trap_frame.tpidr < n)
        &&& (self.last_id matches Some(l) ==> forall|i: int|
            0 <= i < self.queue.len() ==> #[trigger] self.queue[i].trap_frame.tpidr <= l)
    }

    /// The scheduler's invariant: unique, bounded IDs and a counter that
    /// starts no lower than 1.
    pub open spec fn wf(&self) -> bool {
        &&& self.ids_unique()
        &&& self.ids_bounded()
        &&& (self.next_id matches Some(n) ==> 1 <= n)
    }
}

/// The process as admission stamps it: its thread-identifier register set
/// to the assigned ID, for self-identification after a syscall return.
pub open spec fn stamped_id(p: Process, id: Id) -> Process {
    Process { trap_frame: TrapFrame { tpidr: id, ..p.trap_frame }, ..p }
}

/// What `add` does: on `Some(n)` the process, stamped with ID `n`, is
/// appended to the queue tail and the counter advances by a checked
/// increment; once the counter is exhausted nothing is admitted.
pub open spec fn spec_add(s: SchedulerView, p: Process) -> (SchedulerView, Option<Id>) {
    match s.next_id {
        None => (s, None),
        Some(n) => (
            SchedulerView {
                queue: s.queue.push(stamped_id(p, n)),
                next_id: if n < u64::MAX {
                    Some((n + 1) as u64)
                } else {
                    None
                },
                last_id: Some(n),
            },
            Some(n),
        ),
    }
}

/// The position of the first process a poll at time `now` reports ready,
/// scanning from the queue's front.
pub open spec fn first_ready(q: Seq<Process>, now: u64) -> Option<int>
    decreases q.len(),
{
    if q.len() == 0 {
        None
    } else if ready_at(q[0], now) {
        Some(0)
    } else {
        match first_ready(q.drop_first(), now) {
            None => None,
            Some(k) => Some(k + 1),
        }
    }
}

/// The queue after the ready process at index `k` is rotated to the front:
/// it is polled (discharging its wait), the processes behind it keep their
/// order, and the skipped prefix follows them unchanged.
pub open spec fn rotated(q: Seq<Process>, k: int, now: u64) -> Seq<Process> {
    seq![polled(q[k], now)] + q.subrange(k + 1, q.len() as int) + q.subrange(0, k)
}

/// What `next` does: nothing when no process is ready, otherwise the
/// rotation that brings the first ready process to the front, and its ID.
pub open spec fn spec_next(s: SchedulerView, now: u64) -> (SchedulerView, Option<Id>) {
    match first_ready(s.queue, now) {
        None => (s, None),
        Some(k) => (
            SchedulerView { queue: rotated(s.queue, k, now), ..s },
            Some(s.queue[k].trap_frame.tpidr),
        ),
    }
}

/// The queue after the front process is moved to the tail carrying the
/// live frame and the state its trap handed back.
pub open spec fn requeued(q: Seq<Process>, new_state: State, frame: TrapFrame) -> Seq<Process> {
    q.drop_first().push(Process { trap_frame: frame, state: new_state, stack: q[0].stack })
}

/// What `switch` does: on an empty queue, nothing (`None`); otherwise the
/// front process is requeued with `new_state` and the live frame, one
/// scheduling pass runs, and on success the selected process's stored
/// frame becomes the live frame.
pub open spec fn spec_switch(s: SchedulerView, new_state: State, frame: TrapFrame, now: u64) -> (
    SchedulerView,
    TrapFrame,
    Option<Id>,
) {
    if s.queue.len() == 0 {
        (s, frame, None)
    } else {
        let saved = SchedulerView { queue: requeued(s.queue, new_state, frame), ..s };
        let stepped = spec_next(saved, now);
        match stepped.1 {
            None => (stepped.0, frame, None),
            Some(id) => (stepped.0, stepped.0.queue[0].trap_frame, Some(id)),
        }
    }
}

/// What `reschedule` does: one more scheduling pass at a later clock
/// reading, loading the selected process's frame when one is found.
pub open spec fn spec_reschedule(s: SchedulerView, frame: TrapFrame, now: u64) -> (
    SchedulerView,
    TrapFrame,
    Option<Id>,
) {
    let stepped = spec_next(s, now);
    match stepped.1 {
        None => (stepped.0, frame, None),
        Some(id) => (stepped.0, stepped.0.queue[0].trap_frame, Some(id)),
    }
}

/// When the first `k` processes are not ready and the one at `k` is, the
/// scan finds exactly `k`.
proof fn lemma_first_ready_at(q: Seq<Process>, now: u64, k: int)
    requires
        0 <= k < q.len(),
        forall|j: int| 0 <= j < k ==> !ready_at(#[trigger] q[j], now),
        ready_at(q[k], now),
    ensures
        first_ready(q, now) == Some(k),
    decreases k,
{
    if k > 0 {
        let rest = q.drop_first();
        assert forall|j: int| 0 <= j < k - 1 implies !ready_at(#[trigger] rest[j], now) by {
            assert(rest[j] == q[j + 1]);
        }
        assert(rest[k - 1] == q[k]);
        lemma_first_ready_at(rest, now, k - 1);
    }
}

/// When no process is ready the scan finds none.
proof fn lemma_first_ready_none(q: Seq<Process>, now: u64)
    requires
        forall|j: int| 0 <= j < q.len() ==> !ready_at(#[trigger] q[j], now),
    ensures
        first_ready(q, now) is None,
    decreases q.len(),
{
    if q.len() > 0 {
        let rest = q.drop_first();
        assert forall|j: int| 0 <= j < rest.len() implies !ready_at(#[trigger] rest[j], now) by {
            assert(rest[j] == q[j + 1]);
        }
        lemma_first_ready_none(rest, now);
    }
}

/// In a rotation every position holds a process drawn from a distinct
/// source position, so uniqueness and the ID bounds carry over.
proof fn lemma_rotated_wf(s: SchedulerView, k: int, now: u64)
    requires
        s.wf(),
        0 <= k < s.queue.len(),
    ensures
        (SchedulerView { queue: rotated(s.queue, k, now), ..s }).wf(),
{
    let q = s.queue;
    let n = q.len() as int;
    let rq = rotated(q, k, now);
    assert(rq.len() == n);
    assert(polled(q[k], now).trap_frame.tpidr == q[k].trap_frame.tpidr);
    assert forall|x: int| 0 <= x < n implies #[trigger] rq[x].trap_frame.tpidr == q[
        rot_source(x, k, n)
    ].trap_frame.tpidr && 0 <= rot_source(x, k, n) < n by {
        if x == 0 {
            assert(rq[0] == polled(q[k], now));
        } else if x < n - k {
            assert(rq[x] == q[k + x]);
        } else {
            assert(rq[x] == q[x - (n - k)]);
        }
    }
    assert forall|x: int, y: int| 0 <= x < y < n implies rot_source(x, k, n) != rot_source(
        y,
        k,
        n,
    ) by {}
}

/// The source position, before a rotation at `k`, of the process that ends
/// up at position `x` after it.
spec fn rot_source(x: int, k: int, n: int) -> int {
    if x == 0 {
        k
    } else if x < n - k {
        k + x
    } else {
        x - (n - k)
    }
}

/// Requeuing the front process keeps uniqueness and the ID bounds as long
/// as the frame it carries holds its own ID.
proof fn lemma_requeued_wf(s: SchedulerView, new_state: State, frame: TrapFrame)
    requires
        s.wf(),
        s.queue.len() > 0,
        frame.tpidr == s.queue[0].trap_frame.tpidr,
    ensures
        (SchedulerView { queue: requeued(s.queue, new_state, frame), ..s }).wf(),
{
    let q = s.queue;
    let n = q.len() as int;
    let rq = requeued(q, new_state, frame);
    assert(rq.len() == n);
    assert forall|x: int| 0 <= x < n implies #[trigger] rq[x].trap_frame.tpidr == q[
        if x == n - 1 {
            0int
        } else {
            x + 1
        }
    ].trap_frame.tpidr by {
        if x < n - 1 {
            assert(rq[x] == q.drop_first()[x]);
            assert(q.drop_first()[x] == q[x + 1]);
        }
    }
}

/// An ordered queue of processes with a monotonically increasing ID
/// counter. In the running kernel it is reached only through
/// `GlobalScheduler`; the fields are exposed so that its behaviour can be
/// exercised directly.
#[derive(Debug)]
pub struct Scheduler {
    /// The processes, front first, in round-robin order.
    pub processes: VecDeque<Process>,
    /// The ID the counter assigns next; `None` once the ID space is used up.
    pub next_id: Option<Id>,
    /// The most recently assigned ID.
    pub last_id: Option<Id>,
}

impl View for Scheduler {
    type V = SchedulerView;

    open spec fn view(&self) -> SchedulerView {
        SchedulerView { queue: self.processes@, next_id: self.next_id, last_id: self.last_id }
    }
}

impl Scheduler {
    /// Returns a new `Scheduler` with an empty queue and the ID counter
    /// seeded at 1.
    pub fn new() -> (r: Scheduler)
        ensures
            r@.queue == Seq::<Process>::empty(),
            r@.next_id == Some(1u64),
            r@.last_id == None::<Id>,
            r@.wf(),
    {
        Scheduler { processes: VecDeque::new(), next_id: Some(1), last_id: None }
    }

    /// Adds a process to the tail of the queue and returns its newly
    /// assigned ID, stamped into the process's trap frame. Returns `None`,
    /// admitting nothing, once the ID counter is exhausted: IDs are never
    /// reused.
    pub fn add(&mut self, process: Process) -> (r: Option<Id>)
        requires
            old(self)@.wf(),
        ensures
            final(self)@.wf(),
            (final(self)@, r) == spec_add(old(self)@, process),
    {
        let pid = match self.next_id {
            Some(n) => n,
            None => {
                return None;
            },
        };
        self.next_id = pid.checked_add(1);
        self.last_id = Some(pid);
        let mut process = process;
        process.trap_frame.tpidr = pid;
        self.processes.push_back(process);
        Some(pid)
    }

    /// Scans the queue from the front for the first process whose
    /// `is_ready` poll succeeds, left-rotates the queue so that process
    /// becomes the front — the skipped processes keep their relative order
    /// — and returns its ID. Returns `None`, with the queue unchanged, when
    /// no process is ready.
    pub fn next(&mut self, now: u64) -> (r: Option<Id>)
        requires
            old(self)@.wf(),
        ensures
            final(self)@.wf(),
            (final(self)@, r) == spec_next(old(self)@, now),
            r matches Some(id) ==> final(self)@.queue.len() > 0
                && final(self)@.queue[0].trap_frame.tpidr == id
                && final(self)@.queue[0].state is Ready,
    {
        let ghost q0 = self@.queue;
        let ghost nid0 = self@.next_id;
        let ghost lid0 = self@.last_id;
        let n = self.processes.len();
        let mut i: usize = 0;
        while i < n
            invariant
                0 <= i <= n,
                n == q0.len(),
                q0.len() <= usize::MAX,
                old(self)@ == (SchedulerView { queue: q0, next_id: nid0, last_id: lid0 }),
                old(self)@.wf(),
                self@.next_id == nid0,
                self@.last_id == lid0,
                self@.queue == q0.subrange(i as int, n as int) + q0.subrange(0, i as int),
                forall|j: int| 0 <= j < i ==> !ready_at(#[trigger] q0[j], now),
            decreases n - i,
        {
            let popped = self.processes.pop_front();
            let mut p = match popped {
                Some(p) => p,
                None => {
                    return None;
                },
            };
            assert(p == q0[i as int]);
            let ready = p.is_ready(now);
            if ready {
                let id = p.trap_frame.tpidr;
                self.processes.push_front(p);
                proof {
                    lemma_first_ready_at(q0, now, i as int);
                    assert(self@.queue =~= rotated(q0, i as int, now));
                    lemma_rotated_wf(
                        SchedulerView { queue: q0, next_id: nid0, last_id: lid0 },
                        i as int,
                        now,
                    );
                    assert(polled(q0[i as int], now).trap_frame.tpidr == q0[
                        i as int
                    ].trap_frame.tpidr);
                }
                return Some(id);
            } else {
                self.processes.push_back(p);
                proof {
                    assert(self@.queue =~= q0.subrange(i + 1, n as int) + q0.subrange(
                        0,
                        i + 1,
                    ));
                }
            }
            i = i + 1;
        }
        proof {
            lemma_first_ready_none(q0, now);
            assert(self@.queue =~= q0);
        }
        None
    }

    /// Performs a context switch: pops the current (front) process, stamps
    /// `new_state` into it, saves the live frame `tf` as its stored frame,
    /// requeues it at the tail, and runs one scheduling pass. When a ready
    /// process is found its stored frame is loaded into `tf` and its ID
    /// returned. Returns `None` either when the queue was empty — a
    /// caller-contract violation: there must always be a current process —
    /// or when no process is ready yet; in the latter case the caller
    /// idles and retries through `reschedule`.
    pub fn switch(&mut self, new_state: State, tf: &mut TrapFrame, now: u64) -> (r: Option<Id>)
        requires
            old(self)@.wf(),
            old(self)@.queue.len() > 0 ==> old(tf).tpidr
                == old(self)@.queue[0].trap_frame.tpidr,
        ensures
            final(self)@.wf(),
            (final(self)@, *final(tf), r) == spec_switch(old(self)@, new_state, *old(tf), now),
    {
        if self.processes.len() == 0 {
            return None;
        }
        let popped = self.processes.pop_front();
        let mut cur = match popped {
            Some(p) => p,
            None => {
                return None;
            },
        };
        cur.trap_frame = *tf;
        cur.state = new_state;
        self.processes.push_back(cur);
        proof {
            assert(self@.queue =~= requeued(old(self)@.queue, new_state, *old(tf)));
            lemma_requeued_wf(old(self)@, new_state, *old(tf));
        }
        let found = self.next(now);
        match found {
            Some(id) => {
                *tf = self.processes[0].trap_frame;
                Some(id)
            },
            None => None,
        }
    }

    /// One further scheduling pass after `switch` reported no ready
    /// process: polls again at a later clock reading and, when a process
    /// has become ready, loads its stored frame into `tf` and returns its
    /// ID. The caller performs a low-power wait between passes; the
    /// periodic timer guarantees such a pass eventually runs.
    pub fn reschedule(&mut self, tf: &mut TrapFrame, now: u64) -> (r: Option<Id>)
        requires
            old(self)@.wf(),
        ensures
            final(self)@.wf(),
            (final(self)@, *final(tf), r) == spec_reschedule(old(self)@, *old(tf), now),
    {
        let found = self.next(now);
        match found {
            Some(id) => {
                *tf = self.processes[0].trap_frame;
                Some(id)
            },
            None => None,
        }
    }
}

/// The trap frame a bootstrap process starts from: zeroed, except the
/// return address at its entry function, the stack pointer at the top of
/// its fresh stack, and its assigned ID.
pub open spec fn boot_frame(entry: u64, id: Id) -> TrapFrame {
    TrapFrame { elr: entry, sp: STACK_SIZE as u64, tpidr: id, ..TrapFrame::spec_zeroed() }
}

/// The kernel-wide scheduler object, beginning uninitialized. Admitting or
/// switching before `start` has run is a programmer error, not a
/// recoverable runtime condition, and is excluded by precondition; the
/// kernel holds an explicit handle to this object and keeps it behind its
/// own mutual-exclusion boundary.
#[derive(Debug)]
pub struct GlobalScheduler {
    /// The inner scheduler; `None` until `start` has run.
    pub inner: Option<Scheduler>,
}

impl GlobalScheduler {
    /// Whether `start` has constructed the inner scheduler.
    pub open spec fn is_initialized(&self) -> bool {
        self.inner is Some
    }

    /// The model of the inner scheduler.
    pub open spec fn sched(&self) -> SchedulerView
        recommends
            self.is_initialized(),
    {
        self.inner->0@
    }

    /// An initialized handle holds a well-formed scheduler.
    pub open spec fn wf(&self) -> bool {
        self.is_initialized() ==> self.sched().wf()
    }

    /// Returns an uninitialized wrapper around a local scheduler.
    pub fn uninitialized() -> (r: GlobalScheduler)
        ensures
            !r.is_initialized(),
            r.wf(),
    {
        GlobalScheduler { inner: None }
    }

    /// Whether `start` has run; the runtime mirror of `is_initialized`.
    pub fn initialized(&self) -> (r: bool)
        ensures
            r == self.is_initialized(),
    {
        match &self.inner {
            Some(_) => true,
            None => false,
        }
    }

    /// The number of processes in the queue.
    pub fn process_count(&self) -> (r: usize)
        requires
            self.is_initialized(),
        ensures
            r == self.sched().queue.len(),
    {
        match &self.inner {
            Some(s) => s.processes.len(),
            None => 0,
        }
    }

    /// The ID of the current (front) process, or `None` on an empty queue.
    pub fn current_pid(&self) -> (r: Option<Id>)
        requires
            self.is_initialized(),
        ensures
            self.sched().queue.len() == 0 ==> r is None,
            self.sched().queue.len() > 0 ==> r == Some(
                self.sched().queue[0].trap_frame.tpidr,
            ),
    {
        match &self.inner {
            Some(s) => if s.processes.len() > 0 {
                Some(s.processes[0].trap_frame.tpidr)
            } else {
                None
            },
            None => None,
        }
    }

    /// Adds a process to the scheduler's queue and returns that process's
    /// ID. For more details, see the documentation on `Scheduler::add`.
    pub fn add(&mut self, process: Process) -> (r: Option<Id>)
        requires
            old(self).wf(),
            old(self).is_initialized(),
        ensures
            final(self).wf(),
            final(self).is_initialized(),
            (final(self).sched(), r) == spec_add(old(self).sched(), process),
    {
        match &mut self.inner {
            Some(s) => s.add(process),
            None => None,
        }
    }

    /// Performs a context switch using `tf` by setting the state of the
    /// current process to `new_state`, saving `tf` into it, and restoring
    /// the next ready process's trap frame into `tf`. For more details,
    /// see the documentation on `Scheduler::switch`.
    pub fn switch(&mut self, new_state: State, tf: &mut TrapFrame, now: u64) -> (r: Option<Id>)
        requires
            old(self).wf(),
            old(self).is_initialized(),
            old(self).sched().queue.len() > 0 ==> old(tf).tpidr
                == old(self).sched().queue[0].trap_frame.tpidr,
        ensures
            final(self).wf(),
            final(self).is_initialized(),
            (final(self).sched(), *final(tf), r) == spec_switch(
                old(self).sched(),
                new_state,
                *old(tf),
                now,
            ),
    {
        match &mut self.inner {
            Some(s) => s.switch(new_state, tf, now),
            None => None,
        }
    }

    /// One further scheduling pass at a later clock reading, after
    /// `switch` reported no ready process. For more details, see the
    /// documentation on `Scheduler::reschedule`.
    pub fn reschedule(&mut self, tf: &mut TrapFrame, now: u64) -> (r: Option<Id>)
        requires
            old(self).wf(),
            old(self).is_initialized(),
        ensures
            final(self).wf(),
            final(self).is_initialized(),
            (final(self).sched(), *final(tf), r) == spec_reschedule(
                old(self).sched(),
                *old(tf),
                now,
            ),
    {
        match &mut self.inner {
            Some(s) => s.reschedule(tf, now),
            None => None,
        }
    }

    /// Creates a bootstrap process: a fresh stack, a zeroed trap frame
    /// whose return address is `entry` and whose stack pointer is the top
    /// of that stack. Returns `None` when the stack cannot be allocated.
    pub fn new_process(entry: u64) -> (r: Option<Process>)
        ensures
            r matches Some(p) ==> p.state is Ready && p.stack.wf() && p.trap_frame
                == (TrapFrame {
                elr: entry,
                sp: STACK_SIZE as u64,
                ..TrapFrame::spec_zeroed()
            }),
    {
        let mut p = match Process::new() {
            Some(p) => p,
            None => {
                return None;
            },
        };
        p.trap_frame.sp = p.stack.top();
        p.trap_frame.elr = entry;
        Some(p)
    }

    /// Initializes the scheduler and admits one bootstrap process per
    /// entry address, in order, assigning IDs from 1. Returns the first
    /// admitted process's trap frame: the caller loads it into the live
    /// register file for the one-time bootstrap restore — the only restore
    /// not preceded by an actual trap — after arming the periodic timer.
    ///
    /// Returns `None`, admitting nothing, when no entry is given or a
    /// stack allocation fails; the scheduler is initialized either way.
    pub fn start(&mut self, entries: &Vec<u64>) -> (r: Option<TrapFrame>)
        requires
            !old(self).is_initialized(),
        ensures
            final(self).wf(),
            final(self).is_initialized(),
            r is Some ==> {
                &&& entries@.len() > 0
                &&& final(self).sched().queue.len() == entries@.len()
                &&& (forall|i: int|
                    0 <= i < entries@.len() ==> (#[trigger] final(self).sched().queue[i]).trap_frame
                        == boot_frame(entries@[i], (i + 1) as Id)
                        && final(self).sched().queue[i].state is Ready)
                &&& r == Some(boot_frame(entries@[0], 1))
                &&& final(self).sched().last_id == Some(entries@.len() as Id)
                &&& final(self).sched().next_id == (if entries@.len() < u64::MAX {
                    Some((entries@.len() + 1) as Id)
                } else {
                    None::<Id>
                })
            },
            r is None ==> final(self).sched().queue.len() == 0,
            entries@.len() == 0 ==> r is None,
    {
        let n = entries.len();
        let mut procs: Vec<Process> = Vec::new();
        let mut i: usize = 0;
        while i < n
            invariant
                i <= n,
                n == entries@.len(),
                procs@.len() == i,
                forall|j: int|
                    0 <= j < i ==> (#[trigger] procs@[j]).state is Ready
                        && procs@[j].stack.wf() && procs@[j].trap_frame == (TrapFrame {
                        elr: entries@[j],
                        sp: STACK_SIZE as u64,
                        ..TrapFrame::spec_zeroed()
                    }),
            decreases n - i,
        {
            match GlobalScheduler::new_process(entries[i]) {
                Some(p) => procs.push(p),
                None => {
                    self.inner = Some(Scheduler::new());
                    return None;
                },
            }
            i = i + 1;
        }
        let mut sched = Scheduler::new();
        let ghost procs0 = procs@;
        let mut j: usize = 0;
        while j < n
            invariant
                j <= n,
                n == entries@.len(),
                n == procs0.len(),
                procs@ == procs0.subrange(j as int, n as int),
                forall|x: int|
                    0 <= x < n ==> (#[trigger] procs0[x]).state is Ready
                        && procs0[x].stack.wf() && procs0[x].trap_frame == (TrapFrame {
                        elr: entries@[x],
                        sp: STACK_SIZE as u64,
                        ..TrapFrame::spec_zeroed()
                    }),
                sched@.wf(),
                sched@.queue.len() == j,
                sched@.next_id == (if (j as int) < u64::MAX {
                    Some((j + 1) as Id)
                } else {
                    None::<Id>
                }),
                j > 0 ==> sched@.last_id == Some(j as Id),
                forall|x: int|
                    0 <= x < j ==> (#[trigger] sched@.queue[x]).trap_frame == boot_frame(
                        entries@[x],
                        (x + 1) as Id,
                    ) && sched@.queue[x].state is Ready,
            decreases n - j,
        {
            let p = procs.remove(0);
            assert(p == procs0[j as int]);
            let added = sched.add(p);
            j = j + 1;
        }
        self.inner = Some(sched);
        if n == 0 {
            return None;
        }
        let mut frame = TrapFrame::zeroed();
        frame.elr = entries[0];
        frame.sp = STACK_SIZE as u64;
        frame.tpidr = 1;
        Some(frame)
    }
}

/// Admission assigns strictly increasing IDs starting at 1 and never
/// repeats one: a second successful admission returns a strictly larger ID
/// than the first, and a returned ID collides with no queued one.
pub proof fn lemma_add_ids_strictly_increase(s0: SchedulerView, p1: Process, p2: Process)
    requires
        s0.wf(),
        spec_add(s0, p1).1 is Some,
        spec_add(spec_add(s0, p1).0, p2).1 is Some,
    ensures
        1 <= spec_add(s0, p1).1->0,
        spec_add(spec_add(s0, p1).0, p2).1->0 > spec_add(s0, p1).1->0,
        forall|j: int|
            0 <= j < s0.queue.len() ==> (#[trigger] s0.queue[j]).trap_frame.tpidr != spec_add(
                s0,
                p1,
            ).1->0,
{
}

/// With exactly one process queued, a `Ready` switch selects that process
/// again: it returns the process's own ID and hands back, unchanged, the
/// very frame it saved.
pub proof fn lemma_switch_single_round_trip(s: SchedulerView, frame: TrapFrame, now: u64)
    requires
        s.wf(),
        s.queue.len() == 1,
        frame.tpidr == s.queue[0].trap_frame.tpidr,
    ensures
        spec_switch(s, State::Ready, frame, now).2 == Some(frame.tpidr),
        spec_switch(s, State::Ready, frame, now).1 == frame,
{
    let mid = requeued(s.queue, State::Ready, frame);
    let saved = Process { trap_frame: frame, state: State::Ready, stack: s.queue[0].stack };
    assert(mid =~= seq![saved]);
    assert(ready_at(mid[0], now));
    assert(first_ready(mid, now) == Some(0int));
    assert(rotated(mid, 0, now) =~= seq![saved]);
}

/// Once the ID counter is exhausted, admission returns `None` rather than
/// wrapping, and the scheduler is left unchanged.
pub proof fn lemma_add_exhausted(s0: SchedulerView, p: Process)
    requires
        s0.next_id is None,
    ensures
        spec_add(s0, p).1 is None,
        spec_add(s0, p).0 == s0,
{
}

} // verus!
