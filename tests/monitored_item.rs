use opcua_server::address_space::{AddressSpace, ACCESS_LEVEL_CURRENT_WRITE};
use opcua_server::monitored_item::MonitoredItem;
use opcua_server::node::AttributeId;
use opcua_server::subscription::{PublishAction, Subscription};
use opcua_server::types::{DataValue, DateTime, NodeId, StatusCode, Variant};
use opcua_server::variable::Variable;

#[test]
fn subscription_delivery_after_write() {
    let mut space = AddressSpace::new();
    let id = NodeId::new_numeric(2, 100);
    let mut v = Variable::new(&id, "T", "T", &DataValue::new(Variant::Int32(1)));
    let now = DateTime { ticks: 0 };
    v.base.set_attribute_value(AttributeId::AccessLevel, Variant::Byte(ACCESS_LEVEL_CURRENT_WRITE), &now, &now);
    space.insert(v.base).unwrap();

    let mut sub = Subscription::new(1, 100, 3, 0);
    let mut item = MonitoredItem::new(1, id.clone(), AttributeId::Value, 1, true);
    assert!(item.sample(space.read(&id, AttributeId::Value)));
    let _ = item.take_notifications();

    assert_eq!(space.write(&id, AttributeId::Value, DataValue::new(Variant::Int32(2))), StatusCode::Good);
    assert!(item.sample(space.read(&id, AttributeId::Value)));
    for n in item.take_notifications() {
        sub.enqueue(n);
    }
    match sub.tick(true) {
        PublishAction::Publish(m) => {
            assert_eq!(m.sequence_number, 1);
            assert_eq!(m.notifications.len(), 1);
            assert_eq!(m.notifications[0].value, Some(Variant::Int32(2)));
        }
        other => panic!("unexpected {:?}", other),
    }
}

#[test]
fn unchanged_sample_is_not_queued() {
    let mut item = MonitoredItem::new(1, NodeId::new_numeric(2, 1), AttributeId::Value, 2, true);
    assert!(item.sample(DataValue::new(Variant::Int32(1))));
    assert!(!item.sample(DataValue::new(Variant::Int32(1))));
    assert!(item.sample(DataValue::new(Variant::Int32(2))));
    assert_eq!(item.queue.len(), 2);
}

#[test]
fn full_queue_discards_by_policy() {
    let mut oldest = MonitoredItem::new(1, NodeId::new_numeric(2, 1), AttributeId::Value, 2, true);
    let mut newest = MonitoredItem::new(2, NodeId::new_numeric(2, 1), AttributeId::Value, 2, false);
    for n in 1..=3 {
        oldest.sample(DataValue::new(Variant::Int32(n)));
        newest.sample(DataValue::new(Variant::Int32(n)));
    }
    let o: Vec<_> = oldest.queue.iter().map(|d| d.value.clone()).collect();
    let w: Vec<_> = newest.queue.iter().map(|d| d.value.clone()).collect();
    assert_eq!(o, vec![Some(Variant::Int32(2)), Some(Variant::Int32(3))]);
    assert_eq!(w, vec![Some(Variant::Int32(1)), Some(Variant::Int32(3))]);
}
