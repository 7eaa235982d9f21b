//! Variable nodes: a value with its access levels, rank and history flag.

use vstd::prelude::*;
use crate::address_space::{spec_variant_type_id, variant_type_id, BASE_DATA_TYPE};
use crate::node::{AttributeId, Base, NodeClass};
use crate::types::{DataValue, DataValueModel, DateTime, NodeId, StatusCode, Variant, VariantModel};

verus! {

pub open spec fn byte_of(v: Option<VariantModel>) -> Option<u8> {
    match v {
        Some(VariantModel::Byte(b)) => Some(b),
        _ => None,
    }
}

pub open spec fn int32_of(v: Option<VariantModel>) -> Option<i32> {
    match v {
        Some(VariantModel::Int32(n)) => Some(n),
        _ => None,
    }
}

pub open spec fn boolean_of(v: Option<VariantModel>) -> Option<bool> {
    match v {
        Some(VariantModel::Boolean(b)) => Some(b),
        _ => None,
    }
}

/// The data type a variable declares for its initial value: that of the
/// value's variant, or BaseDataType when there is none to tell.
pub open spec fn spec_data_type_of(v: DataValueModel) -> u32 {
    match v.value {
        Some(m) => match spec_variant_type_id(m) {
            Some(t) => t,
            None => BASE_DATA_TYPE,
        },
        None => BASE_DATA_TYPE,
    }
}

fn data_type_of(v: &DataValue) -> (r: u32)
    ensures
        r == spec_data_type_of(v@),
{
    match &v.value {
        Some(m) => match variant_type_id(m) {
            Some(t) => t,
            None => BASE_DATA_TYPE,
        },
        None => BASE_DATA_TYPE,
    }
}

/// A node of class Variable.
#[derive(Debug, Clone, PartialEq)]
pub struct Variable {
    pub base: Base,
}

impl Variable {
    /// A variable node: its table is well formed, its class is Variable, and
    /// its mandatory attributes hold values of their declared types.
    pub open spec fn wf(&self) -> bool {
        &&& self.base.wf()
        &&& self.base.node_class == NodeClass::Variable
        &&& byte_of(self.base.attribute_value(AttributeId::AccessLevel)) is Some
        &&& byte_of(self.base.attribute_value(AttributeId::UserAccessLevel)) is Some
        &&& int32_of(self.base.attribute_value(AttributeId::ValueRank)) is Some
        &&& boolean_of(self.base.attribute_value(AttributeId::Historizing)) is Some
        &&& self.base.attribute_value(AttributeId::DataType) matches Some(VariantModel::UInt32(_))
    }

    pub open spec fn spec_access_level(&self) -> u8 {
        byte_of(self.base.attribute_value(AttributeId::AccessLevel))->0
    }

    pub open spec fn spec_user_access_level(&self) -> u8 {
        byte_of(self.base.attribute_value(AttributeId::UserAccessLevel))->0
    }

    pub open spec fn spec_value_rank(&self) -> i32 {
        int32_of(self.base.attribute_value(AttributeId::ValueRank))->0
    }

    pub open spec fn spec_historizing(&self) -> bool {
        boolean_of(self.base.attribute_value(AttributeId::Historizing))->0
    }

    /// A scalar variable holding `value`: access levels 0, value rank -1,
    /// not historizing, the data type of the value's variant (BaseDataType
    /// when it has none), and no other attribute set.
    pub fn new(node_id: &NodeId, browse_name: &str, display_name: &str, value: &DataValue) -> (r: Variable)
        ensures
            r.wf(),
            r.base.node_id@ == node_id@,
            r.base.browse_name@ == browse_name@,
            r.base.display_name@ == display_name@,
            r.base.attribute(AttributeId::Value) == Some(value@),
            r.spec_access_level() == 0,
            r.spec_user_access_level() == 0,
            r.spec_value_rank() == -1,
            r.spec_historizing() == false,
            r.base.attribute_value(AttributeId::DataType) == Some(VariantModel::UInt32(spec_data_type_of(value@))),
            forall|a: AttributeId|
                a != AttributeId::Value && a != AttributeId::AccessLevel && a != AttributeId::UserAccessLevel
                    && a != AttributeId::ValueRank && a != AttributeId::Historizing && a != AttributeId::DataType
                    ==> #[trigger] r.base.attribute(a) is None,
    {
        let historizing = false;
        let access_level: u8 = 0;
        let user_access_level: u8 = 0;
        let value_rank: i32 = -1;
        let attributes = vec![
            (AttributeId::UserAccessLevel, Variant::Byte(user_access_level)),
            (AttributeId::AccessLevel, Variant::Byte(access_level)),
            (AttributeId::ValueRank, Variant::Int32(value_rank)),
            (AttributeId::Historizing, Variant::Boolean(historizing)),
            (AttributeId::DataType, Variant::UInt32(data_type_of(value))),
        ];
        let ghost pairs = attributes@;
        let mut result = Variable {
            base: Base::new(NodeClass::Variable, node_id, browse_name, display_name, attributes),
        };
        proof {
            reveal_with_fuel(crate::node::assigned, 6);
            assert(pairs.drop_last().drop_last().drop_last().drop_last().drop_last() =~= Seq::empty());
        }
        result.base.set_attribute(AttributeId::Value, value.duplicate());
        result
    }

    /// An array variable: as `new`, with a value rank equal to the number of
    /// dimensions and the dimensions stored, both stamped with the current
    /// time. Panics, inside chrono, if the system clock reads before 1970.
    pub fn new_array(
        node_id: &NodeId,
        browse_name: &str,
        display_name: &str,
        value: &DataValue,
        dimensions: &[i32],
    ) -> (r: Variable)
        requires
            dimensions@.len() <= i32::MAX,
        ensures
            r.wf(),
            r.base.node_id@ == node_id@,
            r.base.browse_name@ == browse_name@,
            r.base.display_name@ == display_name@,
            r.base.attribute(AttributeId::Value) == Some(value@),
            r.spec_access_level() == 0,
            r.spec_user_access_level() == 0,
            r.spec_value_rank() == dimensions@.len(),
            r.spec_historizing() == false,
            r.base.attribute_value(AttributeId::DataType) == Some(VariantModel::UInt32(spec_data_type_of(value@))),
            r.base.attribute(AttributeId::ArrayDimensions) matches Some(d) && d.value == Some(
                VariantModel::Int32Array(dimensions@),
            ) && d.status == Some(StatusCode::Good) && d.source_timestamp is Some && d.source_timestamp
                == d.server_timestamp,
    {
        let now = DateTime::now();
        Variable::new_array_at(node_id, browse_name, display_name, value, dimensions, &now)
    }

    /// An array variable: as `new`, with a value rank equal to the number of
    /// dimensions and the dimensions stored, both stamped with `now`.
    pub fn new_array_at(
        node_id: &NodeId,
        browse_name: &str,
        display_name: &str,
        value: &DataValue,
        dimensions: &[i32],
        now: &DateTime,
    ) -> (r: Variable)
        requires
            dimensions@.len() <= i32::MAX,
        ensures
            r.wf(),
            r.base.node_id@ == node_id@,
            r.base.browse_name@ == browse_name@,
            r.base.display_name@ == display_name@,
            r.base.attribute(AttributeId::Value) == Some(value@),
            r.spec_access_level() == 0,
            r.spec_user_access_level() == 0,
            r.spec_value_rank() == dimensions@.len(),
            r.spec_historizing() == false,
            r.base.attribute_value(AttributeId::DataType) == Some(VariantModel::UInt32(spec_data_type_of(value@))),
            r.base.attribute(AttributeId::ArrayDimensions) == Some(
                DataValueModel {
                    value: Some(VariantModel::Int32Array(dimensions@)),
                    status: Some(StatusCode::Good),
                    source_timestamp: Some(*now),
                    server_timestamp: Some(*now),
                },
            ),
    {
        let mut variable = Variable::new(node_id, browse_name, display_name, value);
        let rank = dimensions.len() as i32;
        variable.base.set_attribute_value(AttributeId::ValueRank, Variant::Int32(rank), now, now);
        variable.base.set_attribute_value(
            AttributeId::ArrayDimensions,
            Variant::from_i32_array(dimensions),
            now,
            now,
        );
        variable
    }

    /// The variable's value.
    pub fn value(&self) -> (r: DataValue)
        requires
            self.wf(),
            self.base.attribute(AttributeId::Value) is Some,
        ensures
            self.base.attribute(AttributeId::Value) == Some(r@),
    {
        let idx = Base::attribute_idx(AttributeId::Value);
        match &self.base.attributes[idx] {
            Some(attribute) => attribute.duplicate(),
            None => {
                proof {
                    assert(false);
                }
                DataValue { value: None, status: None, source_timestamp: None, server_timestamp: None }
            },
        }
    }

    /// Sets the variable's value, leaving every other attribute as it was.
    pub fn set_value(&mut self, value: DataValue)
        requires
            old(self).wf(),
        ensures
            final(self).wf(),
            final(self).base.same_identity(&old(self).base),
            final(self).base.attribute(AttributeId::Value) == Some(value@),
            forall|a: AttributeId|
                a != AttributeId::Value ==> #[trigger] final(self).base.attribute(a) == old(self).base.attribute(a),
    {
        self.base.set_attribute(AttributeId::Value, value);
    }

    pub fn access_level(&self) -> (r: u8)
        requires
            self.wf(),
        ensures
            r == self.spec_access_level(),
    {
        let idx = Base::attribute_idx(AttributeId::AccessLevel);
        match &self.base.attributes[idx] {
            Some(DataValue { value: Some(Variant::Byte(b)), .. }) => *b,
            _ => {
                proof {
                    assert(false);
                }
                0
            },
        }
    }

    pub fn user_access_level(&self) -> (r: u8)
        requires
            self.wf(),
        ensures
            r == self.spec_user_access_level(),
    {
        let idx = Base::attribute_idx(AttributeId::UserAccessLevel);
        match &self.base.attributes[idx] {
            Some(DataValue { value: Some(Variant::Byte(b)), .. }) => *b,
            _ => {
                proof {
                    assert(false);
                }
                0
            },
        }
    }

    pub fn value_rank(&self) -> (r: i32)
        requires
            self.wf(),
        ensures
            r == self.spec_value_rank(),
    {
        let idx = Base::attribute_idx(AttributeId::ValueRank);
        match &self.base.attributes[idx] {
            Some(DataValue { value: Some(Variant::Int32(n)), .. }) => *n,
            _ => {
                proof {
                    assert(false);
                }
                0
            },
        }
    }

    pub fn historizing(&self) -> (r: bool)
        requires
            self.wf(),
        ensures
            r == self.spec_historizing(),
    {
        let idx = Base::attribute_idx(AttributeId::Historizing);
        match &self.base.attributes[idx] {
            Some(DataValue { value: Some(Variant::Boolean(b)), .. }) => *b,
            _ => {
                proof {
                    assert(false);
                }
                false
            },
        }
    }
}

} // verus!
