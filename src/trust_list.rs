//! The TrustListDataType structure: which lists are given, and the
//! certificates and revocation lists, each an optional array of byte strings.

use vstd::prelude::*;
use crate::codec::{
    array_fits, array_view, array_within_limits, byte_len_array, lemma_parse_array, lemma_parse_u32, read_array,
    read_u32, spec_encode_array, spec_parse_array, spec_parse_u32, spec_u32_le, write_array, write_u32, ByteString,
};
use crate::types::StatusCode;

verus! {

/// The id of the default binary encoding of the structure.
pub const TRUST_LIST_DATA_TYPE_ENCODING_DEFAULT_BINARY: u32 = 12680;

#[derive(Debug, Clone, PartialEq)]
pub struct TrustListDataType {
    pub specified_lists: u32,
    pub trusted_certificates: Option<Vec<ByteString>>,
    pub trusted_crls: Option<Vec<ByteString>>,
    pub issuer_certificates: Option<Vec<ByteString>>,
    pub issuer_crls: Option<Vec<ByteString>>,
}

/// Model of a trust list.
pub struct TrustListModel {
    pub specified_lists: u32,
    pub trusted_certificates: Option<Seq<Option<Seq<u8>>>>,
    pub trusted_crls: Option<Seq<Option<Seq<u8>>>>,
    pub issuer_certificates: Option<Seq<Option<Seq<u8>>>>,
    pub issuer_crls: Option<Seq<Option<Seq<u8>>>>,
}

impl View for TrustListDataType {
    type V = TrustListModel;

    open spec fn view(&self) -> TrustListModel {
        TrustListModel {
            specified_lists: self.specified_lists,
            trusted_certificates: array_view(self.trusted_certificates),
            trusted_crls: array_view(self.trusted_crls),
            issuer_certificates: array_view(self.issuer_certificates),
            issuer_crls: array_view(self.issuer_crls),
        }
    }
}

/// The encoding: the fields in declaration order.
pub open spec fn spec_encode_trust_list(t: TrustListModel) -> Seq<u8> {
    spec_u32_le(t.specified_lists) + spec_encode_array(t.trusted_certificates) + spec_encode_array(
        t.trusted_crls,
    ) + spec_encode_array(t.issuer_certificates) + spec_encode_array(t.issuer_crls)
}

/// Every array and byte string within the length limit.
pub open spec fn trust_list_fits(t: TrustListModel) -> bool {
    &&& array_fits(t.trusted_certificates)
    &&& array_fits(t.trusted_crls)
    &&& array_fits(t.issuer_certificates)
    &&& array_fits(t.issuer_crls)
}

/// Reads a trust list at `pos`: the value and the position after it.
pub open spec fn spec_parse_trust_list(s: Seq<u8>, pos: int) -> Option<(TrustListModel, int)> {
    match spec_parse_u32(s, pos) {
        None => None,
        Some((sl, end1)) => match spec_parse_array(s, end1) {
            None => None,
            Some((tc, end2)) => match spec_parse_array(s, end2) {
                None => None,
                Some((tcrl, end3)) => match spec_parse_array(s, end3) {
                    None => None,
                    Some((ic, end4)) => match spec_parse_array(s, end4) {
                        None => None,
                        Some((icrl, end5)) => Some(
                            (
                                TrustListModel {
                                    specified_lists: sl,
                                    trusted_certificates: tc,
                                    trusted_crls: tcrl,
                                    issuer_certificates: ic,
                                    issuer_crls: icrl,
                                },
                                end5,
                            ),
                        ),
                    },
                },
            },
        },
    }
}

/// Decoding what was encoded gives the value back, and stops right after
/// it, whatever follows.
pub proof fn lemma_trust_list_round_trip(t: TrustListModel, rest: Seq<u8>)
    requires
        trust_list_fits(t),
    ensures
        spec_parse_trust_list(spec_encode_trust_list(t) + rest, 0) == Some(
            (t, spec_encode_trust_list(t).len() as int),
        ),
{
    let e0 = spec_u32_le(t.specified_lists);
    let e1 = spec_encode_array(t.trusted_certificates);
    let e2 = spec_encode_array(t.trusted_crls);
    let e3 = spec_encode_array(t.issuer_certificates);
    let e4 = spec_encode_array(t.issuer_crls);
    let s = spec_encode_trust_list(t) + rest;
    let end1 = e0.len() as int;
    let end2 = end1 + e1.len();
    let end3 = end2 + e2.len();
    let end4 = end3 + e3.len();
    let end5 = end4 + e4.len();
    assert(s.subrange(0, end1) =~= e0);
    assert(s.subrange(end1, end2) =~= e1);
    assert(s.subrange(end2, end3) =~= e2);
    assert(s.subrange(end3, end4) =~= e3);
    assert(s.subrange(end4, end5) =~= e4);
    lemma_parse_u32(s, 0, t.specified_lists);
    lemma_parse_array(s, end1, t.trusted_certificates);
    lemma_parse_array(s, end2, t.trusted_crls);
    lemma_parse_array(s, end3, t.issuer_certificates);
    lemma_parse_array(s, end4, t.issuer_crls);
}

/// The size an encoding of the value takes, and the number of bytes that
/// its encoder writes, are one and the same.
pub proof fn lemma_trust_list_byte_len(t: &TrustListDataType, before: Seq<u8>, after: Seq<u8>)
    requires
        after == before + spec_encode_trust_list(t@),
    ensures
        after.len() - before.len() == spec_encode_trust_list(t@).len(),
{
}

impl TrustListDataType {
    /// The id of the structure's default binary encoding.
    pub fn object_id(&self) -> (r: u32)
        ensures
            r == TRUST_LIST_DATA_TYPE_ENCODING_DEFAULT_BINARY,
    {
        TRUST_LIST_DATA_TYPE_ENCODING_DEFAULT_BINARY
    }

    /// The size of the encoding.
    pub fn byte_len(&self) -> (r: usize)
        requires
            spec_encode_trust_list(self@).len() <= usize::MAX,
        ensures
            r == spec_encode_trust_list(self@).len(),
    {
        let mut size: usize = 4;
        size = size + byte_len_array(&self.trusted_certificates);
        size = size + byte_len_array(&self.trusted_crls);
        size = size + byte_len_array(&self.issuer_certificates);
        size = size + byte_len_array(&self.issuer_crls);
        size
    }

    /// Appends the encoding and returns its size. A string or array beyond
    /// the length limit is `BadEncodingLimitsExceeded`, and nothing is
    /// written.
    pub fn encode(&self, stream: &mut Vec<u8>) -> (r: Result<usize, StatusCode>)
        ensures
            trust_list_fits(self@) ==> final(stream)@ == old(stream)@ + spec_encode_trust_list(self@) && r
                == Ok::<usize, StatusCode>(spec_encode_trust_list(self@).len() as usize),
            !trust_list_fits(self@) ==> final(stream)@ == old(stream)@ && r == Err::<usize, StatusCode>(
                StatusCode::BadEncodingLimitsExceeded,
            ),
    {
        if !(array_within_limits(&self.trusted_certificates) && array_within_limits(&self.trusted_crls)
            && array_within_limits(&self.issuer_certificates) && array_within_limits(&self.issuer_crls)) {
            return Err(StatusCode::BadEncodingLimitsExceeded);
        }
        let start = stream.len();
        let ghost t = self@;
        write_u32(stream, self.specified_lists);
        write_array(stream, &self.trusted_certificates);
        assert(stream@ =~= old(stream)@ + (spec_u32_le(t.specified_lists) + spec_encode_array(
            t.trusted_certificates,
        )));
        write_array(stream, &self.trusted_crls);
        write_array(stream, &self.issuer_certificates);
        write_array(stream, &self.issuer_crls);
        assert(stream@ =~= old(stream)@ + spec_encode_trust_list(t));
        Ok(stream.len() - start)
    }

    /// Reads a trust list at `pos`: the value and the position after it, or
    /// `BadDecodingError` on a short input or a length beyond the limit.
    pub fn decode(stream: &[u8], pos: usize) -> (r: Result<(TrustListDataType, usize), StatusCode>)
        ensures
            match spec_parse_trust_list(stream@, pos as int) {
                Some((t, p)) => match r {
                    Ok((x, q)) => x@ == t && q == p,
                    Err(_) => false,
                },
                None => r == Err::<(TrustListDataType, usize), StatusCode>(StatusCode::BadDecodingError),
            },
    {
        let (specified_lists, p) = read_u32(stream, pos)?;
        let (trusted_certificates, p) = read_array(stream, p)?;
        let (trusted_crls, p) = read_array(stream, p)?;
        let (issuer_certificates, p) = read_array(stream, p)?;
        let (issuer_crls, p) = read_array(stream, p)?;
        Ok(
            (
                TrustListDataType {
                    specified_lists,
                    trusted_certificates,
                    trusted_crls,
                    issuer_certificates,
                    issuer_crls,
                },
                p,
            ),
        )
    }
}

} // verus!
