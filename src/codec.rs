//! Little-endian binary codec of byte strings, arrays of byte strings and
//! the trust list structure, with a spec-level encoder and parser.

use vstd::prelude::*;
use crate::types::{copy_bytes, StatusCode};

verus! {

/// The length prefix that marks a null string or array (-1 as an Int32).
pub const NULL_LENGTH: u32 = 0xffff_ffff;

/// The largest length a string or array may declare: 64 MiB.
pub const MAX_LENGTH: u32 = 67108864;

/// The four little-endian bytes of `v`.
pub open spec fn spec_u32_le(v: u32) -> Seq<u8> {
    seq![
        (v & 0xff) as u8,
        ((v >> 8u32) & 0xff) as u8,
        ((v >> 16u32) & 0xff) as u8,
        ((v >> 24u32) & 0xff) as u8,
    ]
}

/// The value of four little-endian bytes.
pub open spec fn spec_u32_from_le(b0: u8, b1: u8, b2: u8, b3: u8) -> u32 {
    (b0 as u32) | ((b1 as u32) << 8u32) | ((b2 as u32) << 16u32) | ((b3 as u32) << 24u32)
}

/// A byte string that may be null.
#[derive(Debug, Clone, PartialEq)]
pub struct ByteString {
    pub value: Option<Vec<u8>>,
}

impl View for ByteString {
    type V = Option<Seq<u8>>;

    open spec fn view(&self) -> Option<Seq<u8>> {
        match self.value {
            Some(v) => Some(v@),
            None => None,
        }
    }
}

pub open spec fn byte_strings_view(v: Seq<ByteString>) -> Seq<Option<Seq<u8>>> {
    v.map_values(|b: ByteString| b@)
}

pub open spec fn array_view(a: Option<Vec<ByteString>>) -> Option<Seq<Option<Seq<u8>>>> {
    match a {
        Some(v) => Some(byte_strings_view(v@)),
        None => None,
    }
}

/// Encoding of a byte string: its length (or -1) and its bytes.
pub open spec fn spec_encode_byte_string(b: Option<Seq<u8>>) -> Seq<u8> {
    match b {
        None => spec_u32_le(NULL_LENGTH),
        Some(s) => spec_u32_le(s.len() as u32) + s,
    }
}

/// Encodings of the elements, one after another.
pub open spec fn spec_encode_elements(a: Seq<Option<Seq<u8>>>) -> Seq<u8>
    decreases a.len(),
{
    if a.len() == 0 {
        Seq::empty()
    } else {
        spec_encode_elements(a.drop_last()) + spec_encode_byte_string(a.last())
    }
}

/// Encoding of an array: its element count (or -1) and its elements.
pub open spec fn spec_encode_array(a: Option<Seq<Option<Seq<u8>>>>) -> Seq<u8> {
    match a {
        None => spec_u32_le(NULL_LENGTH),
        Some(s) => spec_u32_le(s.len() as u32) + spec_encode_elements(s),
    }
}

/// A byte string within the length limit.
pub open spec fn byte_string_fits(b: Option<Seq<u8>>) -> bool {
    match b {
        None => true,
        Some(s) => s.len() <= MAX_LENGTH,
    }
}

/// An array within the length limit, with each element within it too.
pub open spec fn array_fits(a: Option<Seq<Option<Seq<u8>>>>) -> bool {
    match a {
        None => true,
        Some(s) => s.len() <= MAX_LENGTH && forall|i: int| 0 <= i < s.len() ==> byte_string_fits(#[trigger] s[i]),
    }
}

/// Reads a little-endian `u32` at `pos`.
pub open spec fn spec_parse_u32(s: Seq<u8>, pos: int) -> Option<(u32, int)> {
    if 0 <= pos && pos + 4 <= s.len() {
        Some((spec_u32_from_le(s[pos], s[pos + 1], s[pos + 2], s[pos + 3]), pos + 4))
    } else {
        None
    }
}

/// Reads a byte string at `pos`: null for a -1 length, none for a length
/// beyond the limit or beyond the input.
pub open spec fn spec_parse_byte_string(s: Seq<u8>, pos: int) -> Option<(Option<Seq<u8>>, int)> {
    match spec_parse_u32(s, pos) {
        None => None,
        Some((n, p)) => if n == NULL_LENGTH {
            Some((None, p))
        } else if n > MAX_LENGTH || p + n > s.len() {
            None
        } else {
            Some((Some(s.subrange(p, p + n)), p + n))
        },
    }
}

/// Reads `count` byte strings one after another from `pos`.
pub open spec fn spec_parse_elements(s: Seq<u8>, pos: int, count: nat) -> Option<(Seq<Option<Seq<u8>>>, int)>
    decreases count,
{
    if count == 0 {
        Some((Seq::empty(), pos))
    } else {
        match spec_parse_elements(s, pos, (count - 1) as nat) {
            None => None,
            Some((xs, p)) => match spec_parse_byte_string(s, p) {
                None => None,
                Some((x, q)) => Some((xs.push(x), q)),
            },
        }
    }
}

/// Reads an array of byte strings at `pos`.
pub open spec fn spec_parse_array(s: Seq<u8>, pos: int) -> Option<(Option<Seq<Option<Seq<u8>>>>, int)> {
    match spec_parse_u32(s, pos) {
        None => None,
        Some((n, p)) => if n == NULL_LENGTH {
            Some((None, p))
        } else if n > MAX_LENGTH {
            None
        } else {
            match spec_parse_elements(s, p, n as nat) {
                None => None,
                Some((xs, q)) => Some((Some(xs), q)),
            }
        },
    }
}

/// Round trip of the four bytes of a `u32`.
pub proof fn lemma_u32_round_trip(v: u32)
    ensures
        spec_u32_from_le(
            spec_u32_le(v)[0],
            spec_u32_le(v)[1],
            spec_u32_le(v)[2],
            spec_u32_le(v)[3],
        ) == v,
{
    assert(((v & 0xff) as u8) as u32 | (((((v >> 8u32) & 0xff) as u8) as u32) << 8u32) | (((((v >> 16u32)
        & 0xff) as u8) as u32) << 16u32) | (((((v >> 24u32) & 0xff) as u8) as u32) << 24u32) == v) by (bit_vector);
}

/// A `u32` written at `pos` reads back.
pub proof fn lemma_parse_u32(s: Seq<u8>, pos: int, v: u32)
    requires
        0 <= pos,
        pos + 4 <= s.len(),
        s.subrange(pos, pos + 4) == spec_u32_le(v),
    ensures
        spec_parse_u32(s, pos) == Some((v, pos + 4)),
{
    lemma_u32_round_trip(v);
    assert(s[pos] == s.subrange(pos, pos + 4)[0]);
    assert(s[pos + 1] == s.subrange(pos, pos + 4)[1]);
    assert(s[pos + 2] == s.subrange(pos, pos + 4)[2]);
    assert(s[pos + 3] == s.subrange(pos, pos + 4)[3]);
}

/// A window of `s` that holds `x + y` holds `x`, then `y`.
proof fn lemma_window_split(s: Seq<u8>, pos: int, x: Seq<u8>, y: Seq<u8>)
    requires
        0 <= pos,
        pos + x.len() + y.len() <= s.len(),
        s.subrange(pos, pos + x.len() + y.len()) == x + y,
    ensures
        s.subrange(pos, pos + x.len()) == x,
        s.subrange(pos + x.len(), pos + x.len() + y.len()) == y,
{
    let w = s.subrange(pos, pos + x.len() + y.len());
    assert(s.subrange(pos, pos + x.len()) =~= w.subrange(0, x.len() as int));
    assert(w.subrange(0, x.len() as int) =~= (x + y).subrange(0, x.len() as int));
    assert((x + y).subrange(0, x.len() as int) =~= x);
    assert(s.subrange(pos + x.len(), pos + x.len() + y.len()) =~= w.subrange(x.len() as int, w.len() as int));
    assert((x + y).subrange(x.len() as int, (x + y).len() as int) =~= y);
}

/// A byte string within the limit, written at `pos`, reads back.
pub proof fn lemma_parse_byte_string(s: Seq<u8>, pos: int, b: Option<Seq<u8>>)
    requires
        0 <= pos,
        byte_string_fits(b),
        pos + spec_encode_byte_string(b).len() <= s.len(),
        s.subrange(pos, pos + spec_encode_byte_string(b).len()) == spec_encode_byte_string(b),
    ensures
        spec_parse_byte_string(s, pos) == Some((b, pos + spec_encode_byte_string(b).len())),
{
    match b {
        None => {
            lemma_parse_u32(s, pos, NULL_LENGTH);
        },
        Some(x) => {
            let n = x.len() as u32;
            lemma_window_split(s, pos, spec_u32_le(n), x);
            lemma_parse_u32(s, pos, n);
        },
    }
}

/// Byte strings within the limit, written one after another at `pos`, read
/// back.
pub proof fn lemma_parse_elements(s: Seq<u8>, pos: int, a: Seq<Option<Seq<u8>>>)
    requires
        0 <= pos,
        forall|i: int| 0 <= i < a.len() ==> byte_string_fits(#[trigger] a[i]),
        pos + spec_encode_elements(a).len() <= s.len(),
        s.subrange(pos, pos + spec_encode_elements(a).len()) == spec_encode_elements(a),
    ensures
        spec_parse_elements(s, pos, a.len()) == Some((a, pos + spec_encode_elements(a).len())),
    decreases a.len(),
{
    if a.len() > 0 {
        let init = a.drop_last();
        let x = spec_encode_elements(init);
        let y = spec_encode_byte_string(a.last());
        lemma_window_split(s, pos, x, y);
        assert forall|i: int| 0 <= i < init.len() implies byte_string_fits(#[trigger] init[i]) by {
            assert(init[i] == a[i]);
        }
        lemma_parse_elements(s, pos, init);
        assert(byte_string_fits(a[a.len() - 1]));
        lemma_parse_byte_string(s, pos + x.len(), a.last());
        assert(init.push(a.last()) =~= a);
    } else {
        assert(a =~= Seq::<Option<Seq<u8>>>::empty());
    }
}

/// An array within the limits, written at `pos`, reads back.
pub proof fn lemma_parse_array(s: Seq<u8>, pos: int, a: Option<Seq<Option<Seq<u8>>>>)
    requires
        0 <= pos,
        array_fits(a),
        pos + spec_encode_array(a).len() <= s.len(),
        s.subrange(pos, pos + spec_encode_array(a).len()) == spec_encode_array(a),
    ensures
        spec_parse_array(s, pos) == Some((a, pos + spec_encode_array(a).len())),
{
    match a {
        None => {
            lemma_parse_u32(s, pos, NULL_LENGTH);
        },
        Some(xs) => {
            let n = xs.len() as u32;
            lemma_window_split(s, pos, spec_u32_le(n), spec_encode_elements(xs));
            lemma_parse_u32(s, pos, n);
            lemma_parse_elements(s, pos + 4, xs);
        },
    }
}

/// Once a read of elements fails, reading more fails too.
proof fn lemma_parse_elements_fails_on(s: Seq<u8>, pos: int, k: nat, m: nat)
    requires
        k <= m,
        spec_parse_elements(s, pos, k) is None,
    ensures
        spec_parse_elements(s, pos, m) is None,
    decreases m - k,
{
    if k < m {
        lemma_parse_elements_fails_on(s, pos, k, (m - 1) as nat);
    }
}

/// The encoding of a prefix of elements is no longer than that of all.
proof fn lemma_encode_elements_prefix(a: Seq<Option<Seq<u8>>>, i: int)
    requires
        0 <= i <= a.len(),
    ensures
        spec_encode_elements(a.subrange(0, i)).len() <= spec_encode_elements(a).len(),
    decreases a.len(),
{
    if i == a.len() {
        assert(a.subrange(0, i) =~= a);
    } else {
        assert(a.subrange(0, i) =~= a.drop_last().subrange(0, i));
        lemma_encode_elements_prefix(a.drop_last(), i);
    }
}

/// Appends the four little-endian bytes of `v`.
pub fn write_u32(stream: &mut Vec<u8>, v: u32)
    ensures
        final(stream)@ == old(stream)@ + spec_u32_le(v),
{
    stream.push((v & 0xff) as u8);
    stream.push(((v >> 8u32) & 0xff) as u8);
    stream.push(((v >> 16u32) & 0xff) as u8);
    stream.push(((v >> 24u32) & 0xff) as u8);
    assert(stream@ =~= old(stream)@ + spec_u32_le(v));
}

/// Reads a little-endian `u32` at `pos`.
pub fn read_u32(stream: &[u8], pos: usize) -> (r: Result<(u32, usize), StatusCode>)
    ensures
        match r {
            Ok((v, p)) => spec_parse_u32(stream@, pos as int) == Some((v, p as int)) && p <= stream@.len(),
            Err(e) => spec_parse_u32(stream@, pos as int) is None && e == StatusCode::BadDecodingError,
        },
{
    if pos > stream.len() || stream.len() - pos < 4 {
        return Err(StatusCode::BadDecodingError);
    }
    let v = (stream[pos] as u32) | ((stream[pos + 1] as u32) << 8u32) | ((stream[pos + 2] as u32) << 16u32) | ((
    stream[pos + 3] as u32) << 24u32);
    Ok((v, pos + 4))
}

impl ByteString {
    pub fn null() -> (r: ByteString)
        ensures
            r@ is None,
    {
        ByteString { value: None }
    }

    pub fn from_bytes(b: &[u8]) -> (r: ByteString)
        ensures
            r@ == Some(b@),
    {
        ByteString { value: Some(copy_bytes(b)) }
    }

    /// Whether the string is within the length limit.
    pub fn fits(&self) -> (r: bool)
        ensures
            r == byte_string_fits(self@),
    {
        match &self.value {
            Some(v) => v.len() <= MAX_LENGTH as usize,
            None => true,
        }
    }

    /// The size of the encoding.
    pub fn byte_len(&self) -> (r: usize)
        requires
            spec_encode_byte_string(self@).len() <= usize::MAX,
        ensures
            r == spec_encode_byte_string(self@).len(),
    {
        match &self.value {
            Some(v) => 4 + v.len(),
            None => 4,
        }
    }

    /// Appends the encoding; the string must be within the limit.
    pub fn encode(&self, stream: &mut Vec<u8>)
        requires
            byte_string_fits(self@),
        ensures
            final(stream)@ == old(stream)@ + spec_encode_byte_string(self@),
    {
        match &self.value {
            None => write_u32(stream, NULL_LENGTH),
            Some(v) => {
                write_u32(stream, v.len() as u32);
                let ghost mid = stream@;
                let mut i: usize = 0;
                while i < v.len()
                    invariant
                        i <= v@.len(),
                        stream@ == mid + v@.subrange(0, i as int),
                    decreases v@.len() - i,
                {
                    stream.push(v[i]);
                    i = i + 1;
                    assert(stream@ =~= mid + v@.subrange(0, i as int));
                }
                assert(v@.subrange(0, v@.len() as int) =~= v@);
                assert(stream@ =~= old(stream)@ + spec_encode_byte_string(self@));
            },
        }
    }

    /// Reads a byte string at `pos`.
    pub fn decode(stream: &[u8], pos: usize) -> (r: Result<(ByteString, usize), StatusCode>)
        ensures
            match spec_parse_byte_string(stream@, pos as int) {
                Some((b, p)) => match r {
                    Ok((x, q)) => x@ == b && q == p,
                    Err(_) => false,
                },
                None => r == Err::<(ByteString, usize), StatusCode>(StatusCode::BadDecodingError),
            },
            match r {
                Ok((_, q)) => q <= stream@.len(),
                Err(_) => true,
            },
    {
        let (n, p) = match read_u32(stream, pos) {
            Ok(x) => x,
            Err(e) => {
                return Err(e);
            },
        };
        if n == NULL_LENGTH {
            return Ok((ByteString::null(), p));
        }
        if n > MAX_LENGTH || n as usize > stream.len() - p {
            return Err(StatusCode::BadDecodingError);
        }
        let end = p + n as usize;
        let mut v: Vec<u8> = Vec::new();
        let mut i: usize = p;
        while i < end
            invariant
                p <= i <= end <= stream@.len(),
                v@ == stream@.subrange(p as int, i as int),
            decreases end - i,
        {
            v.push(stream[i]);
            i = i + 1;
            assert(v@ =~= stream@.subrange(p as int, i as int));
        }
        Ok((ByteString { value: Some(v) }, end))
    }
}

/// Whether an array and each of its elements are within the limit.
pub fn array_within_limits(a: &Option<Vec<ByteString>>) -> (r: bool)
    ensures
        r == array_fits(array_view(*a)),
{
    match a {
        None => true,
        Some(v) => {
            if v.len() > MAX_LENGTH as usize {
                return false;
            }
            let mut i: usize = 0;
            while i < v.len()
                invariant
                    i <= v@.len(),
                    array_view(*a) == Some(byte_strings_view(v@)),
                    v@.len() <= MAX_LENGTH,
                    forall|j: int| 0 <= j < i ==> byte_string_fits(#[trigger] byte_strings_view(v@)[j]),
                decreases v@.len() - i,
            {
                assert(byte_strings_view(v@)[i as int] == v@[i as int]@);
                if !v[i].fits() {
                    assert(!byte_string_fits(byte_strings_view(v@)[i as int]));
                    return false;
                }
                i = i + 1;
            }
            true
        },
    }
}

/// The size of the encoding of an array.
pub fn byte_len_array(a: &Option<Vec<ByteString>>) -> (r: usize)
    requires
        spec_encode_array(array_view(*a)).len() <= usize::MAX,
    ensures
        r == spec_encode_array(array_view(*a)).len(),
{
    match a {
        None => 4,
        Some(v) => {
            let ghost all = byte_strings_view(v@);
            let mut size: usize = 4;
            let mut i: usize = 0;
            while i < v.len()
                invariant
                    i <= v@.len(),
                    all == byte_strings_view(v@),
                    4 + spec_encode_elements(all).len() <= usize::MAX,
                    size == 4 + spec_encode_elements(all.subrange(0, i as int)).len(),
                decreases v@.len() - i,
            {
                proof {
                    assert(all.subrange(0, i + 1).drop_last() =~= all.subrange(0, i as int));
                    lemma_encode_elements_prefix(all, i + 1);
                }
                size = size + v[i].byte_len();
                i = i + 1;
            }
            assert(all.subrange(0, v@.len() as int) =~= all);
            size
        },
    }
}

/// Appends the encoding of an array; it must be within the limits.
pub fn write_array(stream: &mut Vec<u8>, a: &Option<Vec<ByteString>>)
    requires
        array_fits(array_view(*a)),
    ensures
        final(stream)@ == old(stream)@ + spec_encode_array(array_view(*a)),
{
    match a {
        None => write_u32(stream, NULL_LENGTH),
        Some(v) => {
            let ghost all = byte_strings_view(v@);
            write_u32(stream, v.len() as u32);
            let ghost mid = stream@;
            let mut i: usize = 0;
            while i < v.len()
                invariant
                    i <= v@.len(),
                    all == byte_strings_view(v@),
                    array_view(*a) == Some(all),
                    array_fits(array_view(*a)),
                    stream@ == mid + spec_encode_elements(all.subrange(0, i as int)),
                decreases v@.len() - i,
            {
                assert(array_view(*a) == Some(all));
                assert(all[i as int] == v@[i as int]@);
                assert(byte_string_fits(all[i as int]));
                v[i].encode(stream);
                proof {
                    assert(all.subrange(0, i + 1).drop_last() =~= all.subrange(0, i as int));
                }
                i = i + 1;
                assert(stream@ =~= mid + spec_encode_elements(all.subrange(0, i as int)));
            }
            assert(all.subrange(0, v@.len() as int) =~= all);
            assert(stream@ =~= old(stream)@ + spec_encode_array(array_view(*a)));
        },
    }
}

/// Reads an array of byte strings at `pos`.
pub fn read_array(stream: &[u8], pos: usize) -> (r: Result<(Option<Vec<ByteString>>, usize), StatusCode>)
    ensures
        match spec_parse_array(stream@, pos as int) {
            Some((a, p)) => match r {
                Ok((x, q)) => array_view(x) == a && q == p,
                Err(_) => false,
            },
            None => r == Err::<(Option<Vec<ByteString>>, usize), StatusCode>(StatusCode::BadDecodingError),
        },
        match r {
            Ok((_, q)) => q <= stream@.len(),
            Err(_) => true,
        },
{
    let (n, first) = match read_u32(stream, pos) {
        Ok(x) => x,
        Err(e) => {
            return Err(e);
        },
    };
    if n == NULL_LENGTH {
        return Ok((None, first));
    }
    if n > MAX_LENGTH {
        return Err(StatusCode::BadDecodingError);
    }
    let mut v: Vec<ByteString> = Vec::new();
    let mut p: usize = first;
    let mut i: u32 = 0;
    while i < n
        invariant
            i <= n,
            n != NULL_LENGTH,
            n <= MAX_LENGTH,
            spec_parse_u32(stream@, pos as int) == Some((n, first as int)),
            p <= stream@.len(),
            spec_parse_elements(stream@, first as int, i as nat) == Some((byte_strings_view(v@), p as int)),
        decreases n - i,
    {
        match ByteString::decode(stream, p) {
            Ok((b, q)) => {
                proof {
                    assert(byte_strings_view(v@.push(b)) =~= byte_strings_view(v@).push(b@));
                }
                v.push(b);
                p = q;
            },
            Err(e) => {
                proof {
                    lemma_parse_elements_fails_on(stream@, first as int, (i + 1) as nat, n as nat);
                }
                return Err(e);
            },
        }
        i = i + 1;
    }
    Ok((Some(v), p))
}

} // verus!
