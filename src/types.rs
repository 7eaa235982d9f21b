//! Plain protocol values: status codes, node ids, time stamps, variants and
//! data values, each with a mathematical model.

use vstd::prelude::*;

verus! {

/// The status codes that this library hands out.
#[derive(Debug, Clone, Copy, PartialEq, Eq, Structural)]
pub enum StatusCode {
    Good,
    BadUnexpectedError,
    BadDecodingError,
    BadEncodingLimitsExceeded,
    BadProtocolVersionUnsupported,
    BadNonceInvalid,
    BadSecurityModeRejected,
    BadConnectionClosed,
    BadCommunicationError,
    BadNodeIdUnknown,
    BadNodeIdExists,
    BadNodeIdInvalid,
    BadAttributeIdInvalid,
    BadWaitingForInitialData,
    BadTypeMismatch,
    BadNotWritable,
    BadSequenceNumberUnknown,
    BadContinuationPointInvalid,
    BadResponseTooLarge,
    BadTcpMessageTooLarge,
    BadNoContinuationPoints,
    BadSequenceNumberInvalid,
    BadMessageNotAvailable,
}

/// A point in time, in 100 ns ticks since 1601-01-01 UTC.
#[derive(Debug, Clone, Copy, PartialEq, Eq, Structural)]
pub struct DateTime {
    pub ticks: i64,
}

/// The identifier part of a node id.
#[derive(Debug, Clone, PartialEq)]
pub enum Identifier {
    Numeric(u32),
    String(String),
    ByteString(Vec<u8>),
}

/// Model of an identifier.
pub enum IdentifierModel {
    Numeric(u32),
    String(Seq<char>),
    ByteString(Seq<u8>),
}

impl View for Identifier {
    type V = IdentifierModel;

    open spec fn view(&self) -> IdentifierModel {
        match self {
            Identifier::Numeric(n) => IdentifierModel::Numeric(*n),
            Identifier::String(s) => IdentifierModel::String(s@),
            Identifier::ByteString(b) => IdentifierModel::ByteString(b@),
        }
    }
}

impl Identifier {
    /// A copy with the same model.
    pub fn duplicate(&self) -> (r: Identifier)
        ensures
            r@ == self@,
    {
        match self {
            Identifier::Numeric(n) => Identifier::Numeric(*n),
            Identifier::String(s) => Identifier::String(s.clone()),
            Identifier::ByteString(b) => Identifier::ByteString(b.clone()),
        }
    }
}

/// A node id: a namespace index and an identifier.
#[derive(Debug, Clone, PartialEq)]
pub struct NodeId {
    pub namespace: u16,
    pub identifier: Identifier,
}

/// Model of a node id.
pub struct NodeIdModel {
    pub namespace: u16,
    pub identifier: IdentifierModel,
}

impl View for NodeId {
    type V = NodeIdModel;

    open spec fn view(&self) -> NodeIdModel {
        NodeIdModel { namespace: self.namespace, identifier: self.identifier@ }
    }
}

impl NodeId {
    /// A numeric node id.
    pub fn new_numeric(namespace: u16, value: u32) -> (r: NodeId)
        ensures
            r@ == (NodeIdModel { namespace, identifier: IdentifierModel::Numeric(value) }),
    {
        NodeId { namespace, identifier: Identifier::Numeric(value) }
    }

    /// The null node id: namespace 0, numeric identifier 0.
    pub open spec fn spec_is_null(&self) -> bool {
        self.namespace == 0 && self.identifier@ == IdentifierModel::Numeric(0)
    }

    pub fn is_null(&self) -> (r: bool)
        ensures
            r == self.spec_is_null(),
    {
        self.namespace == 0 && match &self.identifier {
            Identifier::Numeric(n) => *n == 0,
            _ => false,
        }
    }

    /// Whether both parts are equal.
    pub fn equals(&self, other: &NodeId) -> (r: bool)
        ensures
            r == (self@ == other@),
    {
        if self.namespace != other.namespace {
            return false;
        }
        match &self.identifier {
            Identifier::Numeric(a) => match &other.identifier {
                Identifier::Numeric(b) => *a == *b,
                _ => false,
            },
            Identifier::String(a) => match &other.identifier {
                Identifier::String(b) => a.eq(b),
                _ => false,
            },
            Identifier::ByteString(a) => match &other.identifier {
                Identifier::ByteString(b) => bytes_equal(a.as_slice(), b.as_slice()),
                _ => false,
            },
        }
    }

    /// A copy with the same model.
    pub fn duplicate(&self) -> (r: NodeId)
        ensures
            r@ == self@,
    {
        NodeId { namespace: self.namespace, identifier: self.identifier.duplicate() }
    }
}

/// A tagged value of one of the protocol's types.
#[derive(Debug, Clone, PartialEq)]
pub enum Variant {
    Empty,
    Boolean(bool),
    SByte(i8),
    Byte(u8),
    Int16(i16),
    UInt16(u16),
    Int32(i32),
    UInt32(u32),
    Int64(i64),
    UInt64(u64),
    String(String),
    ByteString(Vec<u8>),
    StatusCode(StatusCode),
    Int32Array(Vec<i32>),
}

/// Model of a variant.
pub enum VariantModel {
    Empty,
    Boolean(bool),
    SByte(i8),
    Byte(u8),
    Int16(i16),
    UInt16(u16),
    Int32(i32),
    UInt32(u32),
    Int64(i64),
    UInt64(u64),
    String(Seq<char>),
    ByteString(Seq<u8>),
    StatusCode(StatusCode),
    Int32Array(Seq<i32>),
}

impl View for Variant {
    type V = VariantModel;

    open spec fn view(&self) -> VariantModel {
        match self {
            Variant::Empty => VariantModel::Empty,
            Variant::Boolean(v) => VariantModel::Boolean(*v),
            Variant::SByte(v) => VariantModel::SByte(*v),
            Variant::Byte(v) => VariantModel::Byte(*v),
            Variant::Int16(v) => VariantModel::Int16(*v),
            Variant::UInt16(v) => VariantModel::UInt16(*v),
            Variant::Int32(v) => VariantModel::Int32(*v),
            Variant::UInt32(v) => VariantModel::UInt32(*v),
            Variant::Int64(v) => VariantModel::Int64(*v),
            Variant::UInt64(v) => VariantModel::UInt64(*v),
            Variant::String(v) => VariantModel::String(v@),
            Variant::ByteString(v) => VariantModel::ByteString(v@),
            Variant::StatusCode(v) => VariantModel::StatusCode(*v),
            Variant::Int32Array(v) => VariantModel::Int32Array(v@),
        }
    }
}

impl Variant {
    /// A copy with the same model.
    pub fn duplicate(&self) -> (r: Variant)
        ensures
            r@ == self@,
    {
        match self {
            Variant::Empty => Variant::Empty,
            Variant::Boolean(v) => Variant::Boolean(*v),
            Variant::SByte(v) => Variant::SByte(*v),
            Variant::Byte(v) => Variant::Byte(*v),
            Variant::Int16(v) => Variant::Int16(*v),
            Variant::UInt16(v) => Variant::UInt16(*v),
            Variant::Int32(v) => Variant::Int32(*v),
            Variant::UInt32(v) => Variant::UInt32(*v),
            Variant::Int64(v) => Variant::Int64(*v),
            Variant::UInt64(v) => Variant::UInt64(*v),
            Variant::String(v) => Variant::String(v.clone()),
            Variant::ByteString(v) => Variant::ByteString(v.clone()),
            Variant::StatusCode(v) => Variant::StatusCode(*v),
            Variant::Int32Array(v) => Variant::Int32Array(v.clone()),
        }
    }

    /// Whether both carry the same type and value.
    pub fn equals(&self, other: &Variant) -> (r: bool)
        ensures
            r == (self@ == other@),
    {
        match (self, other) {
            (Variant::Empty, Variant::Empty) => true,
            (Variant::Boolean(a), Variant::Boolean(b)) => *a == *b,
            (Variant::SByte(a), Variant::SByte(b)) => *a == *b,
            (Variant::Byte(a), Variant::Byte(b)) => *a == *b,
            (Variant::Int16(a), Variant::Int16(b)) => *a == *b,
            (Variant::UInt16(a), Variant::UInt16(b)) => *a == *b,
            (Variant::Int32(a), Variant::Int32(b)) => *a == *b,
            (Variant::UInt32(a), Variant::UInt32(b)) => *a == *b,
            (Variant::Int64(a), Variant::Int64(b)) => *a == *b,
            (Variant::UInt64(a), Variant::UInt64(b)) => *a == *b,
            (Variant::String(a), Variant::String(b)) => a.eq(b),
            (Variant::ByteString(a), Variant::ByteString(b)) => bytes_equal(a.as_slice(), b.as_slice()),
            (Variant::StatusCode(a), Variant::StatusCode(b)) => *a == *b,
            (Variant::Int32Array(a), Variant::Int32Array(b)) => i32s_equal(a.as_slice(), b.as_slice()),
            _ => false,
        }
    }

    /// An array variant holding the given values.
    pub fn from_i32_array(values: &[i32]) -> (r: Variant)
        ensures
            r@ == VariantModel::Int32Array(values@),
    {
        let mut v: Vec<i32> = Vec::new();
        let mut i: usize = 0;
        while i < values.len()
            invariant
                i <= values@.len(),
                v@ == values@.subrange(0, i as int),
            decreases values@.len() - i,
        {
            v.push(values[i]);
            i = i + 1;
            assert(v@ =~= values@.subrange(0, i as int));
        }
        assert(v@ =~= values@);
        Variant::Int32Array(v)
    }
}

/// A vector holding the bytes of `s`.
pub fn copy_bytes(s: &[u8]) -> (r: Vec<u8>)
    ensures
        r@ == s@,
{
    let mut v: Vec<u8> = Vec::new();
    let mut i: usize = 0;
    while i < s.len()
        invariant
            i <= s@.len(),
            v@ == s@.subrange(0, i as int),
        decreases s@.len() - i,
    {
        v.push(s[i]);
        i = i + 1;
        assert(v@ =~= s@.subrange(0, i as int));
    }
    assert(v@ =~= s@);
    v
}

/// Whether two byte strings are equal.
pub fn bytes_equal(a: &[u8], b: &[u8]) -> (r: bool)
    ensures
        r == (a@ == b@),
{
    if a.len() != b.len() {
        return false;
    }
    let mut i: usize = 0;
    while i < a.len()
        invariant
            a@.len() == b@.len(),
            i <= a@.len(),
            forall|j: int| 0 <= j < i ==> a@[j] == b@[j],
        decreases a@.len() - i,
    {
        if a[i] != b[i] {
            return false;
        }
        i = i + 1;
    }
    assert(a@ =~= b@);
    true
}

/// Whether two integer arrays are equal.
pub fn i32s_equal(a: &[i32], b: &[i32]) -> (r: bool)
    ensures
        r == (a@ == b@),
{
    if a.len() != b.len() {
        return false;
    }
    let mut i: usize = 0;
    while i < a.len()
        invariant
            a@.len() == b@.len(),
            i <= a@.len(),
            forall|j: int| 0 <= j < i ==> a@[j] == b@[j],
        decreases a@.len() - i,
    {
        if a[i] != b[i] {
            return false;
        }
        i = i + 1;
    }
    assert(a@ =~= b@);
    true
}

/// A value with its status and two optional time stamps.
#[derive(Debug, Clone, PartialEq)]
pub struct DataValue {
    pub value: Option<Variant>,
    pub status: Option<StatusCode>,
    pub source_timestamp: Option<DateTime>,
    pub server_timestamp: Option<DateTime>,
}

/// Model of a data value.
pub struct DataValueModel {
    pub value: Option<VariantModel>,
    pub status: Option<StatusCode>,
    pub source_timestamp: Option<DateTime>,
    pub server_timestamp: Option<DateTime>,
}

pub open spec fn variant_option_view(v: Option<Variant>) -> Option<VariantModel> {
    match v {
        Some(x) => Some(x@),
        None => None,
    }
}

impl View for DataValue {
    type V = DataValueModel;

    open spec fn view(&self) -> DataValueModel {
        DataValueModel {
            value: variant_option_view(self.value),
            status: self.status,
            source_timestamp: self.source_timestamp,
            server_timestamp: self.server_timestamp,
        }
    }
}

impl DataValue {
    /// A data value that carries `value` with a good status and no time stamps.
    pub fn new(value: Variant) -> (r: DataValue)
        ensures
            r@ == (DataValueModel {
                value: Some(value@),
                status: Some(StatusCode::Good),
                source_timestamp: None,
                server_timestamp: None,
            }),
    {
        DataValue {
            value: Some(value),
            status: Some(StatusCode::Good),
            source_timestamp: None,
            server_timestamp: None,
        }
    }

    /// A copy with the same model.
    pub fn duplicate(&self) -> (r: DataValue)
        ensures
            r@ == self@,
    {
        let value = match &self.value {
            Some(v) => Some(v.duplicate()),
            None => None,
        };
        DataValue {
            value,
            status: self.status,
            source_timestamp: self.source_timestamp,
            server_timestamp: self.server_timestamp,
        }
    }
}

} // verus!
