//! A flat table of nodes keyed by node id, with the read and write surface
//! of their attributes.

use vstd::prelude::*;
use crate::node::{AttributeId, Base, NodeClass};
use crate::types::{DataValue, DataValueModel, NodeId, NodeIdModel, StatusCode, Variant, VariantModel};
use crate::browse::ReferenceRecord;
use crate::variable::byte_of;

verus! {

/// The numeric id, in namespace 0, of BaseDataType: any value fits it.
pub const BASE_DATA_TYPE: u32 = 24;

/// The access level bit that allows writing the current value.
pub const ACCESS_LEVEL_CURRENT_WRITE: u8 = 2;

/// The numeric id, in namespace 0, of the data type of a scalar variant;
/// for an array, that of its elements.
pub open spec fn spec_variant_type_id(v: VariantModel) -> Option<u32> {
    match v {
        VariantModel::Empty => None,
        VariantModel::Boolean(_) => Some(1),
        VariantModel::SByte(_) => Some(2),
        VariantModel::Byte(_) => Some(3),
        VariantModel::Int16(_) => Some(4),
        VariantModel::UInt16(_) => Some(5),
        VariantModel::Int32(_) => Some(6),
        VariantModel::UInt32(_) => Some(7),
        VariantModel::Int64(_) => Some(8),
        VariantModel::UInt64(_) => Some(9),
        VariantModel::String(_) => Some(12),
        VariantModel::ByteString(_) => Some(15),
        VariantModel::StatusCode(_) => Some(19),
        VariantModel::Int32Array(_) => Some(6),
    }
}

pub fn variant_type_id(v: &Variant) -> (r: Option<u32>)
    ensures
        r == spec_variant_type_id(v@),
{
    match v {
        Variant::Empty => None,
        Variant::Boolean(_) => Some(1),
        Variant::SByte(_) => Some(2),
        Variant::Byte(_) => Some(3),
        Variant::Int16(_) => Some(4),
        Variant::UInt16(_) => Some(5),
        Variant::Int32(_) => Some(6),
        Variant::UInt32(_) => Some(7),
        Variant::Int64(_) => Some(8),
        Variant::UInt64(_) => Some(9),
        Variant::String(_) => Some(12),
        Variant::ByteString(_) => Some(15),
        Variant::StatusCode(_) => Some(19),
        Variant::Int32Array(_) => Some(6),
    }
}

/// The declared data type of a node: the numeric id its DataType attribute
/// holds, if it holds one.
pub open spec fn spec_declared_type(b: Base) -> Option<u32> {
    match b.attribute_value(AttributeId::DataType) {
        Some(VariantModel::UInt32(n)) => Some(n),
        _ => None,
    }
}

/// Whether a value may be stored under the declared type: no type declared,
/// BaseDataType declared, or a value whose type is the declared one.
pub open spec fn spec_type_matches(declared: Option<u32>, value: Option<VariantModel>) -> bool {
    match declared {
        None => true,
        Some(t) => t == BASE_DATA_TYPE || match value {
            Some(v) => spec_variant_type_id(v) == Some(t),
            None => false,
        },
    }
}

/// The attributes a node of the class must hold to be inserted. A Variable
/// may lack its Value until one is written.
pub open spec fn spec_has_required_attributes(b: Base) -> bool {
    b.node_class == NodeClass::Variable ==> {
        &&& byte_of(b.attribute_value(AttributeId::AccessLevel)) is Some
        &&& byte_of(b.attribute_value(AttributeId::UserAccessLevel)) is Some
        &&& b.attribute_value(AttributeId::ValueRank) matches Some(VariantModel::Int32(_))
        &&& b.attribute_value(AttributeId::Historizing) matches Some(VariantModel::Boolean(_))
        &&& b.attribute_value(AttributeId::DataType) matches Some(VariantModel::UInt32(_))
    }
}

/// A data value that carries only a status.
pub open spec fn status_only(code: StatusCode) -> DataValueModel {
    DataValueModel { value: None, status: Some(code), source_timestamp: None, server_timestamp: None }
}

/// The nodes of the server.
#[derive(Debug)]
pub struct AddressSpace {
    pub nodes: Vec<Base>,
    /// The references between the nodes, each stored once.
    pub references: Vec<ReferenceRecord>,
}

impl AddressSpace {
    /// Every node is well formed, and no two share a node id.
    pub open spec fn wf(&self) -> bool {
        &&& forall|i: int| 0 <= i < self.nodes@.len() ==> (#[trigger] self.nodes@[i]).wf()
        &&& forall|i: int, j: int|
            0 <= i < self.nodes@.len() && 0 <= j < self.nodes@.len() && i != j ==> #[trigger] self.nodes@[i].node_id@
                != #[trigger] self.nodes@[j].node_id@
    }

    pub open spec fn contains(&self, id: NodeIdModel) -> bool {
        exists|i: int| 0 <= i < self.nodes@.len() && #[trigger] self.nodes@[i].node_id@ == id
    }

    /// The node with id `id`, if there is one.
    pub open spec fn spec_find(&self, id: NodeIdModel) -> Option<Base> {
        if self.contains(id) {
            Some(self.nodes@[choose|i: int| 0 <= i < self.nodes@.len() && #[trigger] self.nodes@[i].node_id@ == id])
        } else {
            None
        }
    }

    pub fn new() -> (r: AddressSpace)
        ensures
            r.wf(),
            r.nodes@.len() == 0,
            r.references@.len() == 0,
    {
        AddressSpace { nodes: Vec::new(), references: Vec::new() }
    }

    /// Position of the node with id `id`.
    pub fn index_of(&self, id: &NodeId) -> (r: Option<usize>)
        requires
            self.wf(),
        ensures
            match r {
                Some(i) => i < self.nodes@.len() && self.nodes@[i as int].node_id@ == id@ && self.spec_find(id@)
                    == Some(self.nodes@[i as int]),
                None => !self.contains(id@) && self.spec_find(id@) is None,
            },
    {
        let mut i: usize = 0;
        while i < self.nodes.len()
            invariant
                self.wf(),
                i <= self.nodes@.len(),
                forall|j: int| 0 <= j < i ==> #[trigger] self.nodes@[j].node_id@ != id@,
            decreases self.nodes@.len() - i,
        {
            if self.nodes[i].node_id.equals(id) {
                proof {
                    assert(self.nodes@[i as int].node_id@ == id@);
                    assert(self.contains(id@));
                    let k = choose|k: int| 0 <= k < self.nodes@.len() && #[trigger] self.nodes@[k].node_id@ == id@;
                    assert(k == i);
                }
                return Some(i);
            }
            i = i + 1;
        }
        None
    }

    /// The node with id `node_id`, if there is one.
    pub fn find(&self, node_id: &NodeId) -> (r: Option<&Base>)
        requires
            self.wf(),
        ensures
            match r {
                Some(b) => self.spec_find(node_id@) == Some(*b),
                None => self.spec_find(node_id@) is None,
            },
    {
        match self.index_of(node_id) {
            Some(i) => Some(&self.nodes[i]),
            None => None,
        }
    }

    /// Adds a node: `BadNodeIdInvalid` for the null id, `BadNodeIdExists`
    /// for an id already present, `BadAttributeIdInvalid` for a node that
    /// lacks an attribute its class requires.
    pub fn insert(&mut self, node: Base) -> (r: Result<(), StatusCode>)
        requires
            old(self).wf(),
            node.wf(),
        ensures
            final(self).wf(),
            node.node_id.spec_is_null() ==> r == Err::<(), StatusCode>(StatusCode::BadNodeIdInvalid),
            !node.node_id.spec_is_null() && old(self).contains(node.node_id@) ==> r == Err::<(), StatusCode>(
                StatusCode::BadNodeIdExists,
            ),
            !node.node_id.spec_is_null() && !old(self).contains(node.node_id@) && !spec_has_required_attributes(node)
                ==> r == Err::<(), StatusCode>(StatusCode::BadAttributeIdInvalid),
            !node.node_id.spec_is_null() && !old(self).contains(node.node_id@) && spec_has_required_attributes(node)
                ==> r is Ok,
            r is Err ==> final(self).nodes@ == old(self).nodes@,
            r is Ok ==> final(self).nodes@ == old(self).nodes@.push(node),
            final(self).references@ == old(self).references@,
    {
        if node.node_id.is_null() {
            return Err(StatusCode::BadNodeIdInvalid);
        }
        if self.index_of(&node.node_id).is_some() {
            return Err(StatusCode::BadNodeIdExists);
        }
        if !has_required_attributes(&node) {
            return Err(StatusCode::BadAttributeIdInvalid);
        }
        self.nodes.push(node);
        Ok(())
    }

    /// Reads attribute `attribute_id` of node `node_id`. An unknown node
    /// gives `BadNodeIdUnknown`; a Variable without a Value gives
    /// `BadWaitingForInitialData` with a null variant; any other attribute
    /// the node lacks gives `BadAttributeIdInvalid`.
    pub fn read(&self, node_id: &NodeId, attribute_id: AttributeId) -> (r: DataValue)
        requires
            self.wf(),
        ensures
            match self.spec_find(node_id@) {
                None => r@ == status_only(StatusCode::BadNodeIdUnknown),
                Some(b) => match b.attribute(attribute_id) {
                    Some(dv) => r@ == dv,
                    None => if attribute_id == AttributeId::Value && b.node_class == NodeClass::Variable {
                        r@ == (DataValueModel {
                            value: Some(VariantModel::Empty),
                            status: Some(StatusCode::BadWaitingForInitialData),
                            source_timestamp: None,
                            server_timestamp: None,
                        })
                    } else {
                        r@ == status_only(StatusCode::BadAttributeIdInvalid)
                    },
                },
            },
    {
        let i = match self.index_of(node_id) {
            Some(i) => i,
            None => {
                return DataValue {
                    value: None,
                    status: Some(StatusCode::BadNodeIdUnknown),
                    source_timestamp: None,
                    server_timestamp: None,
                };
            },
        };
        let b = &self.nodes[i];
        match &b.attributes[Base::attribute_idx(attribute_id)] {
            Some(dv) => dv.duplicate(),
            None => {
                if attribute_id == AttributeId::Value && b.node_class == NodeClass::Variable {
                    DataValue {
                        value: Some(Variant::Empty),
                        status: Some(StatusCode::BadWaitingForInitialData),
                        source_timestamp: None,
                        server_timestamp: None,
                    }
                } else {
                    DataValue {
                        value: None,
                        status: Some(StatusCode::BadAttributeIdInvalid),
                        source_timestamp: None,
                        server_timestamp: None,
                    }
                }
            },
        }
    }

    /// Writes the Value of a Variable. An unknown node gives
    /// `BadNodeIdUnknown`; another attribute, or a node that is not a
    /// Variable, gives `BadNotWritable`, as does an access level without the
    /// current-write bit; a value whose type differs from the declared
    /// DataType gives `BadTypeMismatch`. On anything but `Good` nothing
    /// changes.
    pub fn write(&mut self, node_id: &NodeId, attribute_id: AttributeId, value: DataValue) -> (r: StatusCode)
        requires
            old(self).wf(),
        ensures
            final(self).wf(),
            match old(self).spec_find(node_id@) {
                None => r == StatusCode::BadNodeIdUnknown,
                Some(b) => if attribute_id != AttributeId::Value || b.node_class != NodeClass::Variable {
                    r == StatusCode::BadNotWritable
                } else if !(byte_of(b.attribute_value(AttributeId::AccessLevel)) matches Some(a)
                    && a & ACCESS_LEVEL_CURRENT_WRITE != 0) {
                    r == StatusCode::BadNotWritable
                } else if !spec_type_matches(spec_declared_type(b), value@.value) {
                    r == StatusCode::BadTypeMismatch
                } else {
                    &&& r == StatusCode::Good
                    &&& final(self).spec_find(node_id@) matches Some(nb)
                    &&& nb.same_identity(&b)
                    &&& nb.attribute(AttributeId::Value) == Some(value@)
                    &&& forall|a: AttributeId| a != AttributeId::Value ==> #[trigger] nb.attribute(a) == b.attribute(a)
                },
            },
            r != StatusCode::Good ==> final(self).nodes@ == old(self).nodes@,
            final(self).references@ == old(self).references@,
            r == StatusCode::Good ==> final(self).nodes@.len() == old(self).nodes@.len() && forall|id: NodeIdModel|
                id != node_id@ ==> #[trigger] final(self).spec_find(id) == old(self).spec_find(id),
    {
        let i = match self.index_of(node_id) {
            Some(i) => i,
            None => {
                return StatusCode::BadNodeIdUnknown;
            },
        };
        if attribute_id != AttributeId::Value || self.nodes[i].node_class != NodeClass::Variable {
            return StatusCode::BadNotWritable;
        }
        let writable = match &self.nodes[i].attributes[Base::attribute_idx(AttributeId::AccessLevel)] {
            Some(DataValue { value: Some(Variant::Byte(a)), .. }) => *a & ACCESS_LEVEL_CURRENT_WRITE != 0,
            _ => false,
        };
        if !writable {
            return StatusCode::BadNotWritable;
        }
        let declared = match &self.nodes[i].attributes[Base::attribute_idx(AttributeId::DataType)] {
            Some(DataValue { value: Some(Variant::UInt32(t)), .. }) => Some(*t),
            _ => None,
        };
        let matches_type = match declared {
            None => true,
            Some(t) => t == BASE_DATA_TYPE || match &value.value {
                Some(v) => match variant_type_id(v) {
                    Some(u) => u == t,
                    None => false,
                },
                None => false,
            },
        };
        if !matches_type {
            return StatusCode::BadTypeMismatch;
        }
        let ghost old_nodes = self.nodes@;
        let mut b = self.nodes.remove(i);
        b.set_attribute(AttributeId::Value, value);
        self.nodes.insert(i, b);
        proof {
            assert(self.nodes@ =~= old_nodes.update(i as int, b));
            assert forall|j: int| 0 <= j < self.nodes@.len() && j != i implies self.nodes@[j] == old_nodes[j] by {}
            assert(self.nodes@[i as int].node_id@ == node_id@);
            assert forall|id: NodeIdModel| id != node_id@ implies #[trigger] self.spec_find(id) == old(self).spec_find(
                id,
            ) by {
                if self.contains(id) {
                    let k = choose|k: int| 0 <= k < self.nodes@.len() && #[trigger] self.nodes@[k].node_id@ == id;
                    assert(old_nodes[k].node_id@ == id);
                }
                if old(self).contains(id) {
                    let k = choose|k: int| 0 <= k < old_nodes.len() && #[trigger] old_nodes[k].node_id@ == id;
                    assert(self.nodes@[k].node_id@ == id);
                }
            }
        }
        StatusCode::Good
    }
}

/// After a node is added, looking up its id gives that very node, and every
/// other id gives what it gave before.
pub proof fn lemma_find_after_insert(before: &AddressSpace, after: &AddressSpace, node: Base)
    requires
        before.wf(),
        after.wf(),
        after.nodes@ == before.nodes@.push(node),
    ensures
        after.spec_find(node.node_id@) == Some(node),
        forall|id: NodeIdModel| id != node.node_id@ ==> #[trigger] after.spec_find(id) == before.spec_find(id),
{
    let last = before.nodes@.len() as int;
    assert(after.nodes@[last] == node);
    assert(after.contains(node.node_id@));
    let k = choose|k: int| 0 <= k < after.nodes@.len() && #[trigger] after.nodes@[k].node_id@ == node.node_id@;
    assert(k == last);
    assert forall|id: NodeIdModel| id != node.node_id@ implies #[trigger] after.spec_find(id) == before.spec_find(id) by {
        if after.contains(id) {
            let j = choose|j: int| 0 <= j < after.nodes@.len() && #[trigger] after.nodes@[j].node_id@ == id;
            assert(j != last);
            assert(before.nodes@[j] == after.nodes@[j]);
            assert(before.contains(id));
        }
        if before.contains(id) {
            let j = choose|j: int| 0 <= j < before.nodes@.len() && #[trigger] before.nodes@[j].node_id@ == id;
            assert(after.nodes@[j] == before.nodes@[j]);
            assert(after.contains(id));
            let j2 = choose|j2: int| 0 <= j2 < after.nodes@.len() && #[trigger] after.nodes@[j2].node_id@ == id;
            assert(j2 == j);
        }
    }
}

/// A write answered with anything but `Good`, such as `BadTypeMismatch`,
/// leaves the node table as it was: every lookup, and so every read of a
/// stored value, gives what it gave before.
pub proof fn lemma_rejected_write_keeps_values(before: &AddressSpace, after: &AddressSpace, id: NodeIdModel)
    requires
        after.nodes@ == before.nodes@,
    ensures
        after.spec_find(id) == before.spec_find(id),
        after.spec_find(id) matches Some(b) ==> b.attribute(AttributeId::Value) == before.spec_find(id)->0.attribute(
            AttributeId::Value,
        ),
{
}

/// Whether `b` holds the attributes its class requires.
pub fn has_required_attributes(b: &Base) -> (r: bool)
    requires
        b.wf(),
    ensures
        r == spec_has_required_attributes(*b),
{
    if b.node_class != NodeClass::Variable {
        return true;
    }
    let access = match &b.attributes[Base::attribute_idx(AttributeId::AccessLevel)] {
        Some(DataValue { value: Some(Variant::Byte(_)), .. }) => true,
        _ => false,
    };
    let user_access = match &b.attributes[Base::attribute_idx(AttributeId::UserAccessLevel)] {
        Some(DataValue { value: Some(Variant::Byte(_)), .. }) => true,
        _ => false,
    };
    let rank = match &b.attributes[Base::attribute_idx(AttributeId::ValueRank)] {
        Some(DataValue { value: Some(Variant::Int32(_)), .. }) => true,
        _ => false,
    };
    let historizing = match &b.attributes[Base::attribute_idx(AttributeId::Historizing)] {
        Some(DataValue { value: Some(Variant::Boolean(_)), .. }) => true,
        _ => false,
    };
    let data_type = match &b.attributes[Base::attribute_idx(AttributeId::DataType)] {
        Some(DataValue { value: Some(Variant::UInt32(_)), .. }) => true,
        _ => false,
    };
    access && user_access && rank && historizing && data_type
}

} // verus!
