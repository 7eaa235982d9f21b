use opcua_server::node::AttributeId;
use opcua_server::types::{DataValue, DateTime, NodeId, StatusCode, Variant};
use opcua_server::variable::Variable;

fn sample() -> Variable {
    let id = NodeId::new_numeric(2, 100);
    Variable::new(&id, "Speed", "Speed", &DataValue::new(Variant::Int32(7)))
}

#[test]
fn new_variable_has_defaults() {
    let v = sample();
    assert_eq!(v.access_level(), 0);
    assert_eq!(v.user_access_level(), 0);
    assert_eq!(v.value_rank(), -1);
    assert!(!v.historizing());
    assert_eq!(v.value().value, Some(Variant::Int32(7)));
    assert_eq!(v.base.node_id, NodeId::new_numeric(2, 100));
    assert_eq!(v.base.browse_name, "Speed");
}

#[test]
fn new_variable_leaves_other_attributes_unset() {
    let v = sample();
    let idx = opcua_server::node::Base::attribute_idx(AttributeId::ArrayDimensions);
    assert!(v.base.attributes[idx].is_none());
    let idx = opcua_server::node::Base::attribute_idx(AttributeId::DataType);
    assert_eq!(v.base.attributes[idx].clone().unwrap().value, Some(Variant::UInt32(6)));
    let idx = opcua_server::node::Base::attribute_idx(AttributeId::Description);
    assert!(v.base.attributes[idx].is_none());
}

#[test]
fn set_value_replaces_value_only() {
    let mut v = sample();
    v.set_value(DataValue::new(Variant::Int32(42)));
    assert_eq!(v.value().value, Some(Variant::Int32(42)));
    assert_eq!(v.value().status, Some(StatusCode::Good));
    assert_eq!(v.value_rank(), -1);
    assert_eq!(v.access_level(), 0);
}

#[test]
fn new_array_sets_rank_and_dimensions() {
    let id = NodeId::new_numeric(2, 101);
    let now = DateTime { ticks: 1000 };
    let v = Variable::new_array_at(&id, "Grid", "Grid", &DataValue::new(Variant::Int32(0)), &[3, 4], &now);
    assert_eq!(v.value_rank(), 2);
    let idx = opcua_server::node::Base::attribute_idx(AttributeId::ArrayDimensions);
    let dims = v.base.attributes[idx].clone().unwrap();
    assert_eq!(dims.value, Some(Variant::Int32Array(vec![3, 4])));
    assert_eq!(dims.source_timestamp, Some(now));
    assert_eq!(dims.server_timestamp, Some(now));
    assert_eq!(v.access_level(), 0);
}

#[test]
fn attribute_indices_follow_protocol_numbering() {
    assert_eq!(opcua_server::node::Base::attribute_idx(AttributeId::NodeId), 0);
    assert_eq!(opcua_server::node::Base::attribute_idx(AttributeId::Value), 12);
    assert_eq!(opcua_server::node::Base::attribute_idx(AttributeId::UserExecutable), 21);
}

#[test]
fn new_array_stamps_dimensions_with_current_time() {
    let id = NodeId::new_numeric(2, 102);
    let v = Variable::new_array(&id, "Row", "Row", &DataValue::new(Variant::Int32(0)), &[5]);
    assert_eq!(v.value_rank(), 1);
    let idx = opcua_server::node::Base::attribute_idx(AttributeId::ArrayDimensions);
    let dims = v.base.attributes[idx].clone().unwrap();
    assert_eq!(dims.value, Some(Variant::Int32Array(vec![5])));
    let stamp = dims.source_timestamp.unwrap();
    assert_eq!(dims.server_timestamp, Some(stamp));
    // 2020-01-01 in ticks since 1601
    assert!(stamp.ticks > 132_223_104_000_000_000);
}

#[test]
fn unix_time_converts_to_ticks() {
    assert_eq!(DateTime::from_unix(0, 0).ticks, 116_444_736_000_000_000);
    assert_eq!(DateTime::from_unix(1, 250).ticks, 116_444_736_010_000_002);
    assert_eq!(DateTime::from_unix(-11_644_473_601, 0).ticks, 0);
    assert_eq!(DateTime::from_unix(253_402_300_800, 0).ticks, i64::MAX);
}

#[test]
fn data_type_follows_the_initial_value() {
    let id = NodeId::new_numeric(2, 103);
    let b = Variable::new(&id, "B", "B", &DataValue::new(Variant::Boolean(true)));
    let idx = opcua_server::node::Base::attribute_idx(AttributeId::DataType);
    assert_eq!(b.base.attributes[idx].clone().unwrap().value, Some(Variant::UInt32(1)));
    let e = Variable::new(&id, "E", "E", &DataValue::new(Variant::Empty));
    assert_eq!(e.base.attributes[idx].clone().unwrap().value, Some(Variant::UInt32(24)));
}
