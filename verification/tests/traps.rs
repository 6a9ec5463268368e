//! Checks of the exception dispatcher and the syscall layer: routing of
//! debug breaks, the sleep syscall end to end across simulated time, and
//! the fatal paths.

use kernel::scheduler::GlobalScheduler;
use kernel::syscall::decode_sleep_result;
use kernel::syscall::Error;
use kernel::traps::handle_exception;
use kernel::traps::HaltReason;
use kernel::traps::Info;
use kernel::traps::Kind;
use kernel::traps::Source;
use kernel::traps::TrapOutcome;

const BRK_ESR: u32 = 0b111100 << 26;
const SVC_SLEEP_ESR: u32 = (0b010101 << 26) | 1;

fn sync_info() -> Info {
    Info { source: Source::LowerAArch64, kind: Kind::Synchronous }
}

fn irq_info() -> Info {
    Info { source: Source::LowerAArch64, kind: Kind::Irq }
}

fn started(entries: &[u64]) -> (GlobalScheduler, kernel::trap_frame::TrapFrame) {
    let mut gs = GlobalScheduler::uninitialized();
    let tf = gs.start(&entries.to_vec()).expect("bootstrap");
    (gs, tf)
}

#[test]
fn brk_routes_to_the_shell_and_skips_the_instruction() {
    let (mut gs, mut tf) = started(&[0x8_0000]);
    tf.elr = 0x8_0040;
    let before = tf;
    let r = handle_exception(sync_info(), BRK_ESR, false, &mut gs, &mut tf, 0);
    assert_eq!(r, TrapOutcome::Shell);
    // The return address advanced past the breaking instruction; nothing
    // else changed, and no context switch happened.
    assert_eq!(tf.elr, before.elr + 4);
    assert_eq!(tf.tpidr, before.tpidr);
    assert_eq!(tf.x0, before.x0);
    assert_eq!(gs.current_pid(), Some(1));
    assert_eq!(gs.process_count(), 1);
}

#[test]
fn irq_with_no_pending_line_is_fatal() {
    let (mut gs, mut tf) = started(&[0x8_0000]);
    let before = tf;
    let r = handle_exception(irq_info(), 0, false, &mut gs, &mut tf, 0);
    assert_eq!(r, TrapOutcome::Halt(HaltReason::UnexpectedInterrupt));
    assert_eq!(tf, before);
}

#[test]
fn timer_irq_preempts_to_the_next_process() {
    let (mut gs, mut tf) = started(&[0x8_0000, 0x9_0000]);
    let r = handle_exception(irq_info(), 0, true, &mut gs, &mut tf, 5);
    assert_eq!(r, TrapOutcome::Switched(2));
    assert_eq!(tf.tpidr, 2);
    let r = handle_exception(irq_info(), 0, true, &mut gs, &mut tf, 10);
    assert_eq!(r, TrapOutcome::Switched(1));
    assert_eq!(tf.tpidr, 1);
}

#[test]
fn unknown_syscall_is_fatal() {
    let (mut gs, mut tf) = started(&[0x8_0000]);
    let esr = (0b010101 << 26) | 7;
    let r = handle_exception(sync_info(), esr, false, &mut gs, &mut tf, 0);
    assert_eq!(r, TrapOutcome::Halt(HaltReason::UnknownSyscall(7)));
}

#[test]
fn unlisted_syndrome_is_fatal() {
    let (mut gs, mut tf) = started(&[0x8_0000]);
    let serror_esr = 0b101111 << 26;
    let r = handle_exception(sync_info(), serror_esr, false, &mut gs, &mut tf, 0);
    assert!(matches!(r, TrapOutcome::Halt(HaltReason::UnhandledTrap(Kind::Synchronous, _))));
    let r = handle_exception(
        Info { source: Source::CurrentSpElx, kind: Kind::SError },
        0,
        false,
        &mut gs,
        &mut tf,
        0,
    );
    assert!(matches!(r, TrapOutcome::Halt(HaltReason::UnhandledTrap(Kind::SError, _))));
}

#[test]
fn irq_on_an_empty_queue_is_fatal() {
    let mut gs = GlobalScheduler::uninitialized();
    assert!(gs.start(&Vec::new()).is_none());
    let mut tf = kernel::trap_frame::TrapFrame::zeroed();
    let r = handle_exception(irq_info(), 0, true, &mut gs, &mut tf, 0);
    assert_eq!(r, TrapOutcome::Halt(HaltReason::NoCurrentProcess));
}

#[test]
fn sleep_suspends_until_the_duration_elapses() {
    let (mut gs, mut tf) = started(&[0x8_0000, 0x9_0000]);
    // Process 1 issues sleep(10 ms) at clock reading 1000 us.
    tf.x0 = 10;
    let r = handle_exception(sync_info(), SVC_SLEEP_ESR, false, &mut gs, &mut tf, 1_000);
    // Process 2 is ready and takes the core.
    assert_eq!(r, TrapOutcome::Switched(2));
    assert_eq!(tf.tpidr, 2);
    // Timer ticks while the duration has not elapsed keep selecting
    // process 2; the sleeper is polled and skipped every pass.
    for now in [3_000u64, 7_000, 11_000] {
        let r = handle_exception(irq_info(), 0, true, &mut gs, &mut tf, now);
        assert_eq!(r, TrapOutcome::Switched(2), "at {}", now);
        assert_eq!(tf.tpidr, 2);
    }
    // Once strictly more than 10 000 us have elapsed the sleeper becomes
    // selectable again, with the measured elapsed milliseconds in x0 and a
    // zero status in x7.
    let r = handle_exception(irq_info(), 0, true, &mut gs, &mut tf, 11_001);
    assert_eq!(r, TrapOutcome::Switched(1));
    assert_eq!(tf.tpidr, 1);
    assert_eq!(tf.x0, 10);
    assert_eq!(tf.x7, 0);
}

#[test]
fn sleep_alone_idles_then_wakes_through_reschedule() {
    let (mut gs, mut tf) = started(&[0x8_0000]);
    tf.x0 = 2;
    let r = handle_exception(sync_info(), SVC_SLEEP_ESR, false, &mut gs, &mut tf, 100);
    // The only process is now waiting: the kernel idles until an
    // interrupt lets it poll again.
    assert_eq!(r, TrapOutcome::Idle);
    assert_eq!(gs.reschedule(&mut tf, 1_100), None);
    let woke = gs.reschedule(&mut tf, 2_101);
    assert_eq!(woke, Some(1));
    assert_eq!(tf.tpidr, 1);
    assert_eq!(tf.x0, 2);
    assert_eq!(tf.x7, 0);
}

#[test]
fn handle_irq_requeues_the_current_process_ready() {
    let (mut gs, mut tf) = started(&[0x8_0000, 0x9_0000]);
    let id = kernel::traps::handle_irq(&mut gs, &mut tf, 3);
    assert_eq!(id, Some(2));
    assert_eq!(tf.tpidr, 2);
    // The preempted process went to the tail, still eligible: the next
    // preemption brings it straight back.
    let id = kernel::traps::handle_irq(&mut gs, &mut tf, 6);
    assert_eq!(id, Some(1));
    assert_eq!(tf.tpidr, 1);
}

#[test]
fn sleep_result_decodes_status_and_elapsed() {
    assert_eq!(decode_sleep_result(12, 0), Ok(12));
    assert_eq!(decode_sleep_result(0, 0), Ok(0));
    assert_eq!(decode_sleep_result(0x1_0000_0005, 0), Ok(5));
    assert_eq!(decode_sleep_result(12, 1), Err(Error {}));
    assert_eq!(decode_sleep_result(0, u64::MAX), Err(Error::from(u64::MAX)));
}
