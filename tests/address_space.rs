use opcua_server::address_space::{AddressSpace, ACCESS_LEVEL_CURRENT_WRITE};
use opcua_server::hello::{acknowledge, HelloMessage, TransportLimits};
use opcua_server::node::{AttributeId, Base, NodeClass};
use opcua_server::types::{DataValue, DateTime, Identifier, NodeId, StatusCode, Variant};
use opcua_server::variable::Variable;

fn variable_without_value(id: &NodeId) -> Base {
    let mut v = Variable::new(id, "V", "V", &DataValue::new(Variant::Int32(0)));
    let idx = Base::attribute_idx(AttributeId::Value);
    v.base.attributes[idx] = None;
    v.base
}

fn writable_int32_variable(id: &NodeId) -> Base {
    let mut v = Variable::new(id, "V", "V", &DataValue::new(Variant::Int32(5)));
    let now = DateTime { ticks: 0 };
    v.base.set_attribute_value(AttributeId::AccessLevel, Variant::Byte(ACCESS_LEVEL_CURRENT_WRITE), &now, &now);
    v.base.set_attribute_value(AttributeId::DataType, Variant::UInt32(6), &now, &now);
    v.base
}

#[test]
fn hello_negotiation() {
    let hello = HelloMessage {
        protocol_version: 0,
        receive_buffer_size: 65536,
        send_buffer_size: 65536,
        max_message_size: 0,
        max_chunk_count: 0,
    };
    let limits = TransportLimits {
        protocol_version: 0,
        receive_buffer_size: 65536,
        send_buffer_size: 65536,
        max_message_size: 32768,
    };
    let ack = acknowledge(&hello, &limits).unwrap();
    assert_eq!(ack.max_message_size, 32768);
    assert_eq!(ack.max_chunk_count, 1);
    assert_eq!(ack.receive_buffer_size, 65536);
    assert_eq!(ack.send_buffer_size, 65536);
    assert_eq!(ack.protocol_version, 0);
}

#[test]
fn hello_chunk_count_rounds_up_and_is_capped() {
    let hello = HelloMessage {
        protocol_version: 0,
        receive_buffer_size: 8192,
        send_buffer_size: 8192,
        max_message_size: 20000,
        max_chunk_count: 2,
    };
    let limits = TransportLimits {
        protocol_version: 0,
        receive_buffer_size: 65536,
        send_buffer_size: 65536,
        max_message_size: 32768,
    };
    let ack = acknowledge(&hello, &limits).unwrap();
    assert_eq!(ack.receive_buffer_size, 8192);
    assert_eq!(ack.max_message_size, 20000);
    assert_eq!(ack.max_chunk_count, 2);
    let mut zero = hello;
    zero.receive_buffer_size = 0;
    assert_eq!(acknowledge(&zero, &limits), Err(StatusCode::BadCommunicationError));
}

#[test]
fn inserted_node_is_found() {
    let mut space = AddressSpace::new();
    let id = NodeId::new_numeric(2, 100);
    let node = writable_int32_variable(&id);
    let copy = node.clone();
    assert_eq!(space.insert(node), Ok(()));
    assert_eq!(space.find(&id), Some(&copy));
    assert_eq!(space.find(&NodeId::new_numeric(2, 101)), None);
    let sid = NodeId { namespace: 1, identifier: Identifier::String("pump".to_string()) };
    assert_eq!(space.insert(writable_int32_variable(&sid)), Ok(()));
    assert!(space.find(&sid).is_some());
}

#[test]
fn insert_rejects_duplicates_null_and_incomplete_nodes() {
    let mut space = AddressSpace::new();
    let id = NodeId::new_numeric(2, 100);
    assert_eq!(space.insert(writable_int32_variable(&id)), Ok(()));
    assert_eq!(space.insert(writable_int32_variable(&id)), Err(StatusCode::BadNodeIdExists));
    assert_eq!(space.insert(writable_int32_variable(&NodeId::new_numeric(0, 0))), Err(StatusCode::BadNodeIdInvalid));
    let bare = Base::new(NodeClass::Variable, &NodeId::new_numeric(2, 7), "B", "B", vec![]);
    assert_eq!(space.insert(bare), Err(StatusCode::BadAttributeIdInvalid));
    let object = Base::new(NodeClass::Object, &NodeId::new_numeric(2, 8), "O", "O", vec![]);
    assert_eq!(space.insert(object), Ok(()));
}

#[test]
fn read_missing_value() {
    let mut space = AddressSpace::new();
    let id = NodeId::new_numeric(2, 100);
    space.insert(variable_without_value(&id)).unwrap();
    let dv = space.read(&id, AttributeId::Value);
    assert_eq!(dv.status, Some(StatusCode::BadWaitingForInitialData));
    assert_eq!(dv.value, Some(Variant::Empty));
}

#[test]
fn read_unknown_node_and_attribute() {
    let mut space = AddressSpace::new();
    let id = NodeId::new_numeric(2, 100);
    space.insert(variable_without_value(&id)).unwrap();
    assert_eq!(space.read(&NodeId::new_numeric(2, 1), AttributeId::Value).status, Some(StatusCode::BadNodeIdUnknown));
    assert_eq!(space.read(&id, AttributeId::Executable).status, Some(StatusCode::BadAttributeIdInvalid));
    assert_eq!(space.read(&id, AttributeId::ValueRank).value, Some(Variant::Int32(-1)));
}

#[test]
fn write_type_mismatch_leaves_value() {
    let mut space = AddressSpace::new();
    let id = NodeId::new_numeric(2, 100);
    space.insert(writable_int32_variable(&id)).unwrap();
    let r = space.write(&id, AttributeId::Value, DataValue::new(Variant::Boolean(true)));
    assert_eq!(r, StatusCode::BadTypeMismatch);
    assert_eq!(space.read(&id, AttributeId::Value).value, Some(Variant::Int32(5)));
}

#[test]
fn write_matching_type_stores_value() {
    let mut space = AddressSpace::new();
    let id = NodeId::new_numeric(2, 100);
    space.insert(writable_int32_variable(&id)).unwrap();
    assert_eq!(space.write(&id, AttributeId::Value, DataValue::new(Variant::Int32(9))), StatusCode::Good);
    assert_eq!(space.read(&id, AttributeId::Value).value, Some(Variant::Int32(9)));
}

#[test]
fn write_refused_without_access_or_on_other_attributes() {
    let mut space = AddressSpace::new();
    let id = NodeId::new_numeric(2, 100);
    space.insert(variable_without_value(&id)).unwrap();
    assert_eq!(space.write(&id, AttributeId::Value, DataValue::new(Variant::Int32(1))), StatusCode::BadNotWritable);
    assert_eq!(space.write(&id, AttributeId::ValueRank, DataValue::new(Variant::Int32(1))), StatusCode::BadNotWritable);
    assert_eq!(
        space.write(&NodeId::new_numeric(3, 3), AttributeId::Value, DataValue::new(Variant::Int32(1))),
        StatusCode::BadNodeIdUnknown
    );
}

#[test]
fn new_variable_is_insertable_and_base_type_accepts_any_value() {
    let mut space = AddressSpace::new();
    let id = NodeId::new_numeric(2, 200);
    let mut v = Variable::new(&id, "Any", "Any", &DataValue::new(Variant::Empty));
    let now = DateTime { ticks: 0 };
    v.base.set_attribute_value(AttributeId::AccessLevel, Variant::Byte(ACCESS_LEVEL_CURRENT_WRITE), &now, &now);
    assert_eq!(space.insert(v.base), Ok(()));
    assert_eq!(space.write(&id, AttributeId::Value, DataValue::new(Variant::Boolean(true))), StatusCode::Good);
    let plain = Variable::new(&NodeId::new_numeric(2, 201), "P", "P", &DataValue::new(Variant::Int32(1)));
    assert_eq!(space.insert(plain.base), Ok(()));
}
