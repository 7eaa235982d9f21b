//! The attribute store shared by every node class.

use vstd::prelude::*;
use crate::types::{DataValue, DataValueModel, DateTime, NodeId, StatusCode, Variant, VariantModel};

verus! {

/// The number of attributes a node can carry.
pub const ATTRIBUTE_COUNT: usize = 22;

/// The attributes of a node, in the protocol's numbering order.
#[derive(Debug, Clone, Copy, PartialEq, Eq, Structural)]
pub enum AttributeId {
    NodeId,
    NodeClass,
    BrowseName,
    DisplayName,
    Description,
    WriteMask,
    UserWriteMask,
    IsAbstract,
    Symmetric,
    InverseName,
    ContainsNoLoops,
    EventNotifier,
    Value,
    DataType,
    ValueRank,
    ArrayDimensions,
    AccessLevel,
    UserAccessLevel,
    MinimumSamplingInterval,
    Historizing,
    Executable,
    UserExecutable,
}

impl AttributeId {
    /// Position of the attribute in a node's attribute table: its protocol
    /// number less one.
    pub open spec fn index(self) -> int {
        match self {
            AttributeId::NodeId => 0,
            AttributeId::NodeClass => 1,
            AttributeId::BrowseName => 2,
            AttributeId::DisplayName => 3,
            AttributeId::Description => 4,
            AttributeId::WriteMask => 5,
            AttributeId::UserWriteMask => 6,
            AttributeId::IsAbstract => 7,
            AttributeId::Symmetric => 8,
            AttributeId::InverseName => 9,
            AttributeId::ContainsNoLoops => 10,
            AttributeId::EventNotifier => 11,
            AttributeId::Value => 12,
            AttributeId::DataType => 13,
            AttributeId::ValueRank => 14,
            AttributeId::ArrayDimensions => 15,
            AttributeId::AccessLevel => 16,
            AttributeId::UserAccessLevel => 17,
            AttributeId::MinimumSamplingInterval => 18,
            AttributeId::Historizing => 19,
            AttributeId::Executable => 20,
            AttributeId::UserExecutable => 21,
        }
    }
}

/// Two attributes with the same table position are the same attribute.
pub proof fn lemma_index_injective(a: AttributeId, b: AttributeId)
    ensures
        0 <= a.index() < ATTRIBUTE_COUNT,
        a.index() == b.index() ==> a == b,
{
}

/// The classes of node in an address space.
#[derive(Debug, Clone, Copy, PartialEq, Eq, Structural)]
pub enum NodeClass {
    Object,
    Variable,
    Method,
    ObjectType,
    VariableType,
    ReferenceType,
    DataType,
    View,
}

/// What every node holds: its class, id, names and attribute table.
#[derive(Debug, Clone, PartialEq)]
pub struct Base {
    pub node_class: NodeClass,
    pub node_id: NodeId,
    pub browse_name: String,
    pub display_name: String,
    pub attributes: Vec<Option<DataValue>>,
}

/// The value that the last pair naming `id` assigns, if any pair does.
pub open spec fn assigned(pairs: Seq<(AttributeId, Variant)>, id: AttributeId) -> Option<VariantModel>
    decreases pairs.len(),
{
    if pairs.len() == 0 {
        None
    } else if pairs.last().0 == id {
        Some(pairs.last().1@)
    } else {
        assigned(pairs.drop_last(), id)
    }
}

/// The data value that `Base::new` stores for an assigned value.
pub open spec fn initial_data_value(v: Option<VariantModel>) -> Option<DataValueModel> {
    match v {
        Some(m) => Some(
            DataValueModel {
                value: Some(m),
                status: Some(StatusCode::Good),
                source_timestamp: None,
                server_timestamp: None,
            },
        ),
        None => None,
    }
}

impl Base {
    /// The attribute table has one slot per attribute.
    pub open spec fn wf(&self) -> bool {
        self.attributes@.len() == ATTRIBUTE_COUNT
    }

    /// The data value stored for attribute `id`.
    pub open spec fn attribute(&self, id: AttributeId) -> Option<DataValueModel> {
        match self.attributes@[id.index()] {
            Some(dv) => Some(dv@),
            None => None,
        }
    }

    /// The variant stored for attribute `id`.
    pub open spec fn attribute_value(&self, id: AttributeId) -> Option<VariantModel> {
        match self.attribute(id) {
            Some(dv) => dv.value,
            None => None,
        }
    }

    /// Node class, id and names are the same in both.
    pub open spec fn same_identity(&self, other: &Base) -> bool {
        &&& self.node_class == other.node_class
        &&& self.node_id@ == other.node_id@
        &&& self.browse_name@ == other.browse_name@
        &&& self.display_name@ == other.display_name@
    }

    /// Position of attribute `id` in the attribute table.
    pub fn attribute_idx(id: AttributeId) -> (r: usize)
        ensures
            r == id.index(),
            r < ATTRIBUTE_COUNT,
    {
        match id {
            AttributeId::NodeId => 0,
            AttributeId::NodeClass => 1,
            AttributeId::BrowseName => 2,
            AttributeId::DisplayName => 3,
            AttributeId::Description => 4,
            AttributeId::WriteMask => 5,
            AttributeId::UserWriteMask => 6,
            AttributeId::IsAbstract => 7,
            AttributeId::Symmetric => 8,
            AttributeId::InverseName => 9,
            AttributeId::ContainsNoLoops => 10,
            AttributeId::EventNotifier => 11,
            AttributeId::Value => 12,
            AttributeId::DataType => 13,
            AttributeId::ValueRank => 14,
            AttributeId::ArrayDimensions => 15,
            AttributeId::AccessLevel => 16,
            AttributeId::UserAccessLevel => 17,
            AttributeId::MinimumSamplingInterval => 18,
            AttributeId::Historizing => 19,
            AttributeId::Executable => 20,
            AttributeId::UserExecutable => 21,
        }
    }

    /// A node of class `node_class` whose attribute table holds, for each
    /// attribute, the value of the last pair in `attributes` that names it,
    /// with a good status.
    pub fn new(
        node_class: NodeClass,
        node_id: &NodeId,
        browse_name: &str,
        display_name: &str,
        attributes: Vec<(AttributeId, Variant)>,
    ) -> (r: Base)
        ensures
            r.wf(),
            r.node_class == node_class,
            r.node_id@ == node_id@,
            r.browse_name@ == browse_name@,
            r.display_name@ == display_name@,
            forall|id: AttributeId| #[trigger] r.attribute(id) == initial_data_value(assigned(attributes@, id)),
    {
        let mut table: Vec<Option<DataValue>> = Vec::new();
        let mut k: usize = 0;
        while k < ATTRIBUTE_COUNT
            invariant
                k <= ATTRIBUTE_COUNT,
                table@.len() == k,
                forall|j: int| 0 <= j < k ==> table@[j] is None,
            decreases ATTRIBUTE_COUNT - k,
        {
            table.push(None);
            k = k + 1;
        }
        let mut r = Base {
            node_class,
            node_id: node_id.duplicate(),
            browse_name: browse_name.to_string(),
            display_name: display_name.to_string(),
            attributes: table,
        };
        let mut i: usize = 0;
        while i < attributes.len()
            invariant
                i <= attributes@.len(),
                r.wf(),
                r.node_class == node_class,
                r.node_id@ == node_id@,
                r.browse_name@ == browse_name@,
                r.display_name@ == display_name@,
                forall|id: AttributeId| #[trigger] r.attribute(id) == initial_data_value(
                    assigned(attributes@.subrange(0, i as int), id),
                ),
            decreases attributes@.len() - i,
        {
            let id = attributes[i].0;
            let v = attributes[i].1.duplicate();
            r.set_attribute(id, DataValue::new(v));
            i = i + 1;
            assert forall|a: AttributeId| #[trigger] r.attribute(a) == initial_data_value(
                assigned(attributes@.subrange(0, i as int), a),
            ) by {
                assert(attributes@.subrange(0, i as int).drop_last() =~= attributes@.subrange(0, i - 1));
                lemma_index_injective(a, id);
            }
        }
        assert(attributes@.subrange(0, attributes@.len() as int) =~= attributes@);
        r
    }

    /// Stores `value` as attribute `id`, leaving everything else as it was.
    pub fn set_attribute(&mut self, id: AttributeId, value: DataValue)
        requires
            old(self).wf(),
        ensures
            final(self).wf(),
            final(self).same_identity(old(self)),
            final(self).attribute(id) == Some(value@),
            forall|a: AttributeId| a != id ==> #[trigger] final(self).attribute(a) == old(self).attribute(a),
    {
        let idx = Base::attribute_idx(id);
        self.attributes.set(idx, Some(value));
        assert forall|a: AttributeId| a != id implies #[trigger] self.attribute(a) == old(self).attribute(a) by {
            lemma_index_injective(a, id);
        }
    }

    /// Stores `value` as attribute `id` with a good status and the two time
    /// stamps, leaving everything else as it was.
    pub fn set_attribute_value(
        &mut self,
        id: AttributeId,
        value: Variant,
        source_timestamp: &DateTime,
        server_timestamp: &DateTime,
    )
        requires
            old(self).wf(),
        ensures
            final(self).wf(),
            final(self).same_identity(old(self)),
            final(self).attribute(id) == Some(
                DataValueModel {
                    value: Some(value@),
                    status: Some(StatusCode::Good),
                    source_timestamp: Some(*source_timestamp),
                    server_timestamp: Some(*server_timestamp),
                },
            ),
            forall|a: AttributeId| a != id ==> #[trigger] final(self).attribute(a) == old(self).attribute(a),
    {
        let dv = DataValue {
            value: Some(value),
            status: Some(StatusCode::Good),
            source_timestamp: Some(*source_timestamp),
            server_timestamp: Some(*server_timestamp),
        };
        self.set_attribute(id, dv);
    }
}

} // verus!
