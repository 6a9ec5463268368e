//! Checks of admission and of the round-robin rotation: strictly
//! increasing IDs, no wrap at the end of the ID space, order-preserving
//! rotation, and the frame round trip a switch performs.

use std::collections::VecDeque;

use kernel::process::Process;
use kernel::process::State;
use kernel::process::WaitCond;
use kernel::scheduler::GlobalScheduler;
use kernel::scheduler::Scheduler;

/// A wait condition no poll in these tests satisfies.
fn far_future() -> State {
    State::Waiting(WaitCond { started_us: 0, duration_us: u64::MAX })
}

#[test]
fn add_assigns_strictly_increasing_ids_from_one() {
    let mut s = Scheduler::new();
    let mut previous = 0u64;
    for _ in 0..5 {
        let p = Process::new().expect("stack allocation");
        let id = s.add(p).expect("admission");
        assert!(id > previous);
        assert_eq!(id, previous + 1);
        previous = id;
    }
    assert_eq!(s.last_id, Some(5));
    // Each queued process carries its ID in its frame, and no ID repeats.
    let ids: Vec<u64> = s.processes.iter().map(|p| p.trap_frame.tpidr).collect();
    assert_eq!(ids, vec![1, 2, 3, 4, 5]);
}

#[test]
fn add_returns_none_beyond_the_last_id() {
    let mut s = Scheduler {
        processes: VecDeque::new(),
        next_id: Some(u64::MAX),
        last_id: None,
    };
    let id = s.add(Process::new().expect("stack allocation"));
    assert_eq!(id, Some(u64::MAX));
    assert_eq!(s.next_id, None);
    // The counter does not wrap: nothing further is admitted.
    let overflowed = s.add(Process::new().expect("stack allocation"));
    assert_eq!(overflowed, None);
    assert_eq!(s.processes.len(), 1);
}

#[test]
fn next_rotates_the_ready_process_to_the_front() {
    let mut s = Scheduler::new();
    for _ in 0..3 {
        s.add(Process::new().expect("stack allocation")).expect("admission");
    }
    // Only the third process is ready.
    s.processes[0].state = far_future();
    s.processes[1].state = far_future();
    let found = s.next(50);
    assert_eq!(found, Some(3));
    // The ready process moved to the front; the two skipped ones follow it
    // in their former relative order.
    let ids: Vec<u64> = s.processes.iter().map(|p| p.trap_frame.tpidr).collect();
    assert_eq!(ids, vec![3, 1, 2]);
    assert_eq!(s.processes[0].state, State::Ready);
}

#[test]
fn next_returns_none_when_nothing_is_ready() {
    let mut s = Scheduler::new();
    for _ in 0..2 {
        s.add(Process::new().expect("stack allocation")).expect("admission");
    }
    s.processes[0].state = far_future();
    s.processes[1].state = State::Running;
    assert_eq!(s.next(1_000), None);
    let ids: Vec<u64> = s.processes.iter().map(|p| p.trap_frame.tpidr).collect();
    assert_eq!(ids, vec![1, 2]);
}

#[test]
fn switch_with_one_process_round_trips_the_frame() {
    let mut gs = GlobalScheduler::uninitialized();
    let entries = vec![0x8_0000u64];
    let mut tf = gs.start(&entries).expect("bootstrap");
    assert_eq!(tf.tpidr, 1);
    assert_eq!(tf.elr, 0x8_0000);
    let before = tf;
    let id = gs.switch(State::Ready, &mut tf, 7);
    assert_eq!(id, Some(1));
    assert_eq!(tf, before);
}

#[test]
fn switch_alternates_between_two_processes() {
    let mut gs = GlobalScheduler::uninitialized();
    let entries = vec![0x8_0000u64, 0x9_0000u64];
    let mut tf = gs.start(&entries).expect("bootstrap");
    assert_eq!(tf.tpidr, 1);
    // The first trap (process 1 trapping) switches into process 2.
    let id = gs.switch(State::Ready, &mut tf, 10);
    assert_eq!(id, Some(2));
    assert_eq!(tf.tpidr, 2);
    assert_eq!(tf.elr, 0x9_0000);
    // The second trap (process 2 trapping) switches back into process 1.
    let id = gs.switch(State::Ready, &mut tf, 20);
    assert_eq!(id, Some(1));
    assert_eq!(tf.tpidr, 1);
    assert_eq!(tf.elr, 0x8_0000);
}

#[test]
fn switch_on_an_empty_queue_returns_none() {
    let mut gs = GlobalScheduler::uninitialized();
    let r = gs.start(&Vec::new());
    assert!(r.is_none());
    assert!(gs.initialized());
    assert_eq!(gs.process_count(), 0);
    let mut tf = kernel::trap_frame::TrapFrame::zeroed();
    assert_eq!(gs.switch(State::Ready, &mut tf, 0), None);
}

#[test]
fn global_add_continues_the_id_sequence() {
    let mut gs = GlobalScheduler::uninitialized();
    let entries = vec![0x8_0000u64];
    gs.start(&entries).expect("bootstrap");
    let id = gs.add(Process::new().expect("stack allocation"));
    assert_eq!(id, Some(2));
    let id = gs.add(Process::new().expect("stack allocation"));
    assert_eq!(id, Some(3));
    assert_eq!(gs.process_count(), 3);
}

#[test]
fn start_stamps_entry_stack_and_id() {
    let mut gs = GlobalScheduler::uninitialized();
    let entries = vec![0x1000u64, 0x2000, 0x3000];
    let tf = gs.start(&entries).expect("bootstrap");
    assert_eq!(gs.process_count(), 3);
    assert_eq!(tf.elr, 0x1000);
    assert_eq!(tf.sp, kernel::process::STACK_SIZE as u64);
    assert_eq!(tf.tpidr, 1);
    assert_eq!(tf.spsr, 0);
    assert_eq!(gs.current_pid(), Some(1));
}
