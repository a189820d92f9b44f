//! The event relay queue: first-in-first-out order, backpressure when
//! full, the closed-queue error, and the consumer's termination rule.

use container_core::consumer_step;
use container_core::ConsumerAction;
use container_core::RecvOutcome;
use container_core::Relay;
use container_core::SendOutcome;

#[test]
fn items_come_out_in_send_order() {
    let mut q = Relay::new(32);
    assert_eq!(q.send("a".to_string()), SendOutcome::Sent);
    assert_eq!(q.send("b".to_string()), SendOutcome::Sent);
    assert_eq!(q.send("c".to_string()), SendOutcome::Sent);
    assert_eq!(q.recv(), RecvOutcome::Item("a".to_string()));
    assert_eq!(q.recv(), RecvOutcome::Item("b".to_string()));
    assert_eq!(q.recv(), RecvOutcome::Item("c".to_string()));
    assert_eq!(q.recv(), RecvOutcome::Empty);
}

#[test]
fn a_full_queue_applies_backpressure_without_dropping() {
    let mut q = Relay::new(2);
    assert_eq!(q.send("a".to_string()), SendOutcome::Sent);
    assert_eq!(q.send("b".to_string()), SendOutcome::Sent);
    assert_eq!(q.send("c".to_string()), SendOutcome::Full);
    assert_eq!(q.recv(), RecvOutcome::Item("a".to_string()));
    // the rejected send was not enqueued; after a drain the slot is free
    assert_eq!(q.send("c".to_string()), SendOutcome::Sent);
    assert_eq!(q.recv(), RecvOutcome::Item("b".to_string()));
    assert_eq!(q.recv(), RecvOutcome::Item("c".to_string()));
}

#[test]
fn sending_to_a_closed_queue_is_a_hard_error() {
    let mut q = Relay::new(4);
    assert_eq!(q.send("a".to_string()), SendOutcome::Sent);
    q.close();
    assert_eq!(q.send("b".to_string()), SendOutcome::Closed);
    // what was queued before the close can still be drained
    assert_eq!(q.recv(), RecvOutcome::Item("a".to_string()));
    assert_eq!(q.recv(), RecvOutcome::Disconnected);
}

#[test]
fn consumer_terminates_only_when_empty_and_closed() {
    let mut q = Relay::new(4);
    assert_eq!(q.send("a".to_string()), SendOutcome::Sent);
    q.close();
    let first = q.recv();
    assert_eq!(
        consumer_step(first),
        ConsumerAction::Deliver("a".to_string())
    );
    let second = q.recv();
    assert_eq!(consumer_step(second), ConsumerAction::Stop);
}

#[test]
fn consumer_tolerates_a_transient_receive_failure() {
    let mut q = Relay::new(4);
    // open but momentarily empty: the loop must keep consuming
    let outcome = q.recv();
    assert_eq!(outcome, RecvOutcome::Empty);
    assert_eq!(consumer_step(outcome), ConsumerAction::KeepWaiting);
}
