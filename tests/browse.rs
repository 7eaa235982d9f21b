use opcua_server::address_space::AddressSpace;
use opcua_server::browse::{BrowseDirection, ContinuationPoint};
use opcua_server::session::{Session, MAX_BROWSE_CONTINUATION_POINTS};
use opcua_server::node::{Base, NodeClass};
use opcua_server::types::{NodeId, StatusCode};

fn object(space: &mut AddressSpace, n: u32) -> NodeId {
    let id = NodeId::new_numeric(2, n);
    space.insert(Base::new(NodeClass::Object, &id, "O", "O", vec![])).unwrap();
    id
}

#[test]
fn browse_with_continuation() {
    let mut space = AddressSpace::new();
    let organizes = NodeId::new_numeric(0, 35);
    let root = object(&mut space, 1);
    for n in 0..15u32 {
        let child = object(&mut space, 100 + n);
        space.add_reference(&root, &organizes, &child).unwrap();
    }
    let first = space.browse(&root, BrowseDirection::Forward, 10).unwrap();
    assert_eq!(first.references.len(), 10);
    assert_eq!(first.references[0].node_id, NodeId::new_numeric(2, 100));
    let cp = first.continuation_point.expect("a continuation point");
    let second = space.browse_next(cp, 10).unwrap();
    assert_eq!(second.references.len(), 5);
    assert_eq!(second.references[4].node_id, NodeId::new_numeric(2, 114));
    assert!(second.continuation_point.is_none());
}

#[test]
fn forward_reference_shows_inverse() {
    let mut space = AddressSpace::new();
    let has_component = NodeId::new_numeric(0, 47);
    let a = object(&mut space, 1);
    let b = object(&mut space, 2);
    space.add_reference(&a, &has_component, &b).unwrap();
    let fwd = space.browse(&a, BrowseDirection::Forward, 0).unwrap();
    assert_eq!(fwd.references.len(), 1);
    assert_eq!(fwd.references[0].node_id, b);
    assert!(fwd.references[0].is_forward);
    let inv = space.browse(&b, BrowseDirection::Inverse, 0).unwrap();
    assert_eq!(inv.references.len(), 1);
    assert_eq!(inv.references[0].node_id, a);
    assert_eq!(inv.references[0].reference_type, has_component);
    assert!(!inv.references[0].is_forward);
    assert_eq!(space.browse(&a, BrowseDirection::Inverse, 0).unwrap().references.len(), 0);
}

#[test]
fn add_reference_needs_both_ends_and_is_idempotent() {
    let mut space = AddressSpace::new();
    let t = NodeId::new_numeric(0, 35);
    let a = object(&mut space, 1);
    let b = object(&mut space, 2);
    assert_eq!(space.add_reference(&a, &t, &NodeId::new_numeric(2, 9)), Err(StatusCode::BadNodeIdUnknown));
    assert_eq!(space.add_reference(&a, &t, &b), Ok(()));
    assert_eq!(space.add_reference(&a, &t, &b), Ok(()));
    assert_eq!(space.references.len(), 1);
    assert_eq!(space.browse(&NodeId::new_numeric(2, 9), BrowseDirection::Forward, 0), Err(StatusCode::BadNodeIdUnknown));
}

#[test]
fn continuation_past_end_is_invalid() {
    let mut space = AddressSpace::new();
    let a = object(&mut space, 1);
    let cp = ContinuationPoint { node_id: a, direction: BrowseDirection::Forward, offset: 3 };
    assert_eq!(space.browse_next(cp, 10), Err(StatusCode::BadContinuationPointInvalid));
}

#[test]
fn session_holds_continuation_points_once_and_bounded() {
    let mut session = Session::new(MAX_BROWSE_CONTINUATION_POINTS);
    let cp = |n: usize| ContinuationPoint { node_id: NodeId::new_numeric(2, 1), direction: BrowseDirection::Forward, offset: n };
    let first = session.store(cp(10)).unwrap();
    assert_eq!(session.take(first).map(|p| p.offset), Some(10));
    assert!(session.take(first).is_none());
    for n in 0..MAX_BROWSE_CONTINUATION_POINTS {
        session.store(cp(n)).unwrap();
    }
    assert_eq!(session.store(cp(99)), Err(StatusCode::BadNoContinuationPoints));
}
