//! The consumer loop's decision machine and the acknowledgment ledger.

use hello_world_api::consumer::{ConsumerAction, ConsumerEvent, ConsumerLoop};
use hello_world_api::processor::AckLedger;

#[test]
fn start_asks_for_provisioning() {
    let mut c = ConsumerLoop::new(10, 30, 10);
    assert_eq!(c.step(ConsumerEvent::Start), ConsumerAction::Provision);
}

#[test]
fn provisioned_moves_to_pulling() {
    let mut c = ConsumerLoop::new(10, 30, 10);
    c.step(ConsumerEvent::Start);
    assert_eq!(
        c.step(ConsumerEvent::Provisioned),
        ConsumerAction::Pull { max_messages: 10, expiry_secs: 30 }
    );
}

#[test]
fn provisioning_failure_halts_the_loop() {
    let mut c = ConsumerLoop::new(10, 30, 10);
    c.step(ConsumerEvent::Start);
    assert_eq!(c.step(ConsumerEvent::ProvisionFailed), ConsumerAction::Halt);
    // the loop is dead: further deliveries are ignored
    assert_eq!(
        c.step(ConsumerEvent::Delivered { handle: 1 }),
        ConsumerAction::Wait
    );
}

#[test]
fn empty_batch_repulls_immediately() {
    let mut c = ConsumerLoop::new(10, 30, 10);
    c.step(ConsumerEvent::Start);
    c.step(ConsumerEvent::Provisioned);
    // a batch that expired empty: the very next action is another pull
    assert_eq!(
        c.step(ConsumerEvent::BatchClosed),
        ConsumerAction::Pull { max_messages: 10, expiry_secs: 30 }
    );
}

#[test]
fn pull_failure_is_transient_and_retries() {
    let mut c = ConsumerLoop::new(10, 30, 10);
    c.step(ConsumerEvent::Start);
    c.step(ConsumerEvent::Provisioned);
    assert_eq!(
        c.step(ConsumerEvent::PullFailed),
        ConsumerAction::Pull { max_messages: 10, expiry_secs: 30 }
    );
}

#[test]
fn concurrency_never_exceeds_the_bound() {
    let mut c = ConsumerLoop::new(10, 30, 10);
    c.step(ConsumerEvent::Start);
    c.step(ConsumerEvent::Provisioned);
    // 25 deliveries against a bound of 10: the first 10 start processing,
    // the other 15 wait for a permit
    for h in 1u64..=25 {
        let action = c.step(ConsumerEvent::Delivered { handle: h });
        if h <= 10 {
            assert_eq!(action, ConsumerAction::Process { handle: h });
        } else {
            assert_eq!(action, ConsumerAction::Wait);
        }
        assert!(c.in_flight() <= 10);
    }
    assert_eq!(c.in_flight(), 10);
    // every finish hands the freed permit to the oldest waiter
    for h in 1u64..=25 {
        let action = c.step(ConsumerEvent::Finished { handle: h, acked: true });
        assert!(c.in_flight() <= 10);
        if h <= 15 {
            assert_eq!(action, ConsumerAction::Process { handle: h + 10 });
        } else {
            assert_eq!(action, ConsumerAction::Wait);
        }
    }
    assert_eq!(c.in_flight(), 0);
    assert_eq!(c.acked_count(), 25);
    assert_eq!(c.ack_failure_count(), 0);
}

#[test]
fn ack_failures_are_logged_and_not_counted_as_processed() {
    let mut c = ConsumerLoop::new(10, 30, 10);
    c.step(ConsumerEvent::Start);
    c.step(ConsumerEvent::Provisioned);
    for h in 1u64..=4 {
        c.step(ConsumerEvent::Delivered { handle: h });
    }
    // handles 2 and 4 fail their acknowledgment; 1 and 3 succeed
    c.step(ConsumerEvent::Finished { handle: 1, acked: true });
    c.step(ConsumerEvent::Finished { handle: 2, acked: false });
    c.step(ConsumerEvent::Finished { handle: 3, acked: true });
    c.step(ConsumerEvent::Finished { handle: 4, acked: false });
    assert_eq!(c.acked_count(), 2);
    assert_eq!(c.ack_failure_count(), 2);
    assert!(c.was_acked(1));
    assert!(!c.was_acked(2));
    assert!(c.was_acked(3));
    assert!(!c.was_acked(4));
}

#[test]
fn finishing_an_unknown_handle_changes_nothing() {
    let mut c = ConsumerLoop::new(10, 30, 10);
    c.step(ConsumerEvent::Start);
    c.step(ConsumerEvent::Provisioned);
    assert_eq!(
        c.step(ConsumerEvent::Finished { handle: 99, acked: true }),
        ConsumerAction::Wait
    );
    assert_eq!(c.acked_count(), 0);
}

#[test]
fn ledger_counts_a_success_once() {
    let mut ledger = AckLedger::new();
    ledger.record_success(7);
    ledger.record_success(7);
    assert_eq!(ledger.acked_count(), 1);
    assert!(ledger.was_acked(7));
}

#[test]
fn ledger_failure_never_inflates_the_success_count() {
    let mut ledger = AckLedger::new();
    ledger.record_success(1);
    ledger.record_failure(2);
    ledger.record_failure(2);
    assert_eq!(ledger.acked_count(), 1);
    assert_eq!(ledger.failed_count(), 2);
    assert!(!ledger.was_acked(2));
}
