use opcua_server::subscription::{PublishAction, Subscription, SubscriptionState};
use opcua_server::types::{DataValue, StatusCode, Variant};

#[test]
fn subscription_delivers_one_message_numbered_one() {
    let mut s = Subscription::new(1, 100, 3, 0);
    s.enqueue(DataValue::new(Variant::Int32(42)));
    match s.tick(true) {
        PublishAction::Publish(m) => {
            assert_eq!(m.sequence_number, 1);
            assert_eq!(m.notifications.len(), 1);
            assert_eq!(m.notifications[0].value, Some(Variant::Int32(42)));
        }
        other => panic!("unexpected {:?}", other),
    }
    assert_eq!(s.retransmission_queue.len(), 1);
    assert_eq!(s.next_sequence_number, 2);
}

#[test]
fn sequence_numbers_rise_and_acks_remove() {
    let mut s = Subscription::new(1, 100, 3, 1);
    s.enqueue(DataValue::new(Variant::Int32(1)));
    s.enqueue(DataValue::new(Variant::Int32(2)));
    let a = s.tick(true);
    let b = s.tick(true);
    match (a, b) {
        (PublishAction::Publish(m1), PublishAction::Publish(m2)) => {
            assert_eq!(m1.sequence_number, 1);
            assert_eq!(m2.sequence_number, 2);
            assert_eq!(m2.notifications[0].value, Some(Variant::Int32(2)));
        }
        other => panic!("unexpected {:?}", other),
    }
    assert_eq!(s.acknowledge(1), StatusCode::Good);
    assert_eq!(s.acknowledge(1), StatusCode::BadSequenceNumberUnknown);
    assert_eq!(s.retransmission_queue.len(), 1);
    assert_eq!(s.retransmission_queue[0].sequence_number, 2);
}

#[test]
fn keep_alive_after_max_idle_intervals() {
    let mut s = Subscription::new(1, 100, 3, 0);
    assert_eq!(s.tick(true), PublishAction::Wait);
    assert_eq!(s.tick(true), PublishAction::Wait);
    assert_eq!(s.tick(true), PublishAction::KeepAlive(1));
    assert_eq!(s.state, SubscriptionState::KeepAlive);
    assert_eq!(s.tick(true), PublishAction::Wait);
}

#[test]
fn lifetime_expiry_closes() {
    let mut s = Subscription::new(1, 2, 10, 0);
    s.enqueue(DataValue::new(Variant::Int32(1)));
    assert_eq!(s.tick(false), PublishAction::Wait);
    assert_eq!(s.state, SubscriptionState::Late);
    assert_eq!(s.tick(false), PublishAction::Closed);
    assert_eq!(s.state, SubscriptionState::Closed);
    assert_eq!(s.tick(true), PublishAction::Wait);
}


#[test]
fn republish_returns_unacknowledged_messages_only() {
    let mut s = Subscription::new(1, 100, 3, 0);
    s.enqueue(DataValue::new(Variant::Int32(5)));
    let _ = s.tick(true);
    let m = s.republish(1).unwrap();
    assert_eq!(m.sequence_number, 1);
    assert_eq!(m.notifications[0].value, Some(Variant::Int32(5)));
    assert_eq!(s.republish(2), Err(StatusCode::BadMessageNotAvailable));
    assert_eq!(s.acknowledge(1), StatusCode::Good);
    assert_eq!(s.republish(1), Err(StatusCode::BadMessageNotAvailable));
}
