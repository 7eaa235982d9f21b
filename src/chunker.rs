//! Splitting an outbound message into framed chunks on a channel with a
//! symmetric security header.

use vstd::prelude::*;
use crate::codec::{spec_u32_le, write_u32};
use crate::secure_channel::{sequence_number_after, SecureChannel, SEQUENCE_NUMBER_WRAPAROUND};
use crate::types::StatusCode;

verus! {

/// Header bytes in front of each chunk's payload: message header (12),
/// token id (4) and sequence header (8).
pub const CHUNK_OVERHEAD: u32 = 24;

/// The kinds of message that travel under a symmetric header.
#[derive(Debug, Clone, Copy, PartialEq, Eq, Structural)]
pub enum MessageType {
    Message,
    Close,
}

/// The three-letter code of a message type.
pub open spec fn spec_type_code(t: MessageType) -> Seq<u8> {
    match t {
        MessageType::Message => seq![77u8, 83u8, 71u8],
        MessageType::Close => seq![67u8, 76u8, 79u8],
    }
}

/// The chunk type byte: `F` for the final chunk, `C` for the others.
pub open spec fn spec_chunk_type(is_final: bool) -> u8 {
    if is_final {
        70u8
    } else {
        67u8
    }
}

/// One chunk: header, token id, sequence header and payload.
pub open spec fn spec_chunk(
    t: MessageType,
    is_final: bool,
    channel_id: u32,
    token_id: u32,
    sequence_number: u32,
    request_id: u32,
    payload: Seq<u8>,
) -> Seq<u8> {
    spec_type_code(t) + seq![spec_chunk_type(is_final)] + spec_u32_le((CHUNK_OVERHEAD + payload.len()) as u32)
        + spec_u32_le(channel_id) + spec_u32_le(token_id) + spec_u32_le(sequence_number) + spec_u32_le(request_id)
        + payload
}

/// The payload of chunk `j` when chunks carry at most `p` bytes of `body`.
pub open spec fn piece(body: Seq<u8>, p: int, j: int) -> Seq<u8> {
    let start = j * p;
    let end = if start + p <= body.len() {
        start + p
    } else {
        body.len() as int
    };
    body.subrange(start, end)
}

/// The number of chunks a body of `len` bytes takes at `p` bytes each: at
/// least one.
pub open spec fn chunk_count(len: int, p: int) -> int
    recommends
        p > 0,
{
    if len == 0 {
        1
    } else {
        (len + p - 1) / p
    }
}

/// Splits `body` into chunks of at most `max_chunk_size` bytes, numbered
/// with the channel's successive send sequence numbers. A chunk size that
/// leaves no room for payload is `BadTcpMessageTooLarge`; a body over
/// `max_message_size`, or one that needs more than `max_chunk_count`
/// chunks, is `BadResponseTooLarge`, and no chunk is made (zero limits
/// mean no limit).
pub fn encode_chunks(
    channel: &mut SecureChannel,
    message_type: MessageType,
    request_id: u32,
    body: &[u8],
    max_chunk_size: u32,
    max_message_size: u32,
    max_chunk_count: u32,
) -> (r: Result<Vec<Vec<u8>>, StatusCode>)
    requires
        1 <= old(channel).send_sequence_number <= SEQUENCE_NUMBER_WRAPAROUND,
        body@.len() <= u32::MAX,
    ensures
        ({
            let p = max_chunk_size - CHUNK_OVERHEAD;
            let k = chunk_count(body@.len() as int, p);
            let s0 = old(channel).send_sequence_number;
            if max_chunk_size <= CHUNK_OVERHEAD {
                r == Err::<Vec<Vec<u8>>, StatusCode>(StatusCode::BadTcpMessageTooLarge) && *final(channel) == *old(
                    channel,
                )
            } else if (max_message_size != 0 && body@.len() > max_message_size) || (max_chunk_count != 0 && k
                > max_chunk_count) {
                r == Err::<Vec<Vec<u8>>, StatusCode>(StatusCode::BadResponseTooLarge) && *final(channel) == *old(
                    channel,
                )
            } else {
                &&& r matches Ok(chunks)
                &&& chunks@.len() == k
                &&& forall|j: int|
                    0 <= j < k ==> (#[trigger] chunks@[j])@ == spec_chunk(
                        message_type,
                        j == k - 1,
                        old(channel).secure_channel_id,
                        old(channel).token_id,
                        sequence_number_after(s0, j as nat),
                        request_id,
                        piece(body@, p as int, j),
                    )
                &&& final(channel).send_sequence_number == sequence_number_after(s0, k as nat)
                &&& *final(channel) == (SecureChannel {
                    send_sequence_number: final(channel).send_sequence_number,
                    ..*old(channel)
                })
            }
        }),
{
    if max_chunk_size <= CHUNK_OVERHEAD {
        return Err(StatusCode::BadTcpMessageTooLarge);
    }
    let p: u32 = max_chunk_size - CHUNK_OVERHEAD;
    let len: u32 = body.len() as u32;
    let q: u64 = (len as u64 + p as u64 - 1) / p as u64;
    proof {
        if len > 0 {
            let l = len as int;
            let d = p as int;
            assert((l + d - 1) / d <= l) by (nonlinear_arith)
                requires
                    l >= 1,
                    d >= 1,
            ;
            assert(((l + d - 1) / d - 1) * d < l && l <= ((l + d - 1) / d) * d) by (nonlinear_arith)
                requires
                    l >= 1,
                    d >= 1,
            ;
        }
    }
    let k: u32 = if len == 0 {
        1
    } else {
        q as u32
    };
    if (max_message_size != 0 && len > max_message_size) || (max_chunk_count != 0 && k > max_chunk_count) {
        return Err(StatusCode::BadResponseTooLarge);
    }
    let ghost c0 = *channel;
    let mut chunks: Vec<Vec<u8>> = Vec::new();
    let mut i: u32 = 0;
    let mut offset: u32 = 0;
    while i < k
        invariant
            0 < p,
            p == max_chunk_size - CHUNK_OVERHEAD,
            len == body@.len(),
            k == chunk_count(len as int, p as int),
            len == 0 ==> k == 1,
            len > 0 ==> (k - 1) * p < len && len <= k * p,
            i <= k,
            i < k ==> offset == i * p && offset <= len,
            chunks@.len() == i,
            channel.send_sequence_number == sequence_number_after(c0.send_sequence_number, i as nat),
            1 <= channel.send_sequence_number <= SEQUENCE_NUMBER_WRAPAROUND,
            1 <= c0.send_sequence_number <= SEQUENCE_NUMBER_WRAPAROUND,
            *channel == (SecureChannel { send_sequence_number: channel.send_sequence_number, ..c0 }),
            forall|j: int|
                0 <= j < i ==> (#[trigger] chunks@[j])@ == spec_chunk(
                    message_type,
                    j == k - 1,
                    c0.secure_channel_id,
                    c0.token_id,
                    sequence_number_after(c0.send_sequence_number, j as nat),
                    request_id,
                    piece(body@, p as int, j),
                ),
        decreases k - i,
    {
        proof {
            assert((i + 1) * p == i * p + p) by (nonlinear_arith);
            if i + 1 < k {
                assert((i + 1) * p <= (k - 1) * p) by (nonlinear_arith)
                    requires
                        i + 1 <= k - 1,
                ;
            }
        }
        let end: u32 = if len - offset >= p {
            offset + p
        } else {
            len
        };
        let is_final = i + 1 == k;
        let seq_no = channel.take_send_sequence_number();
        let mut chunk: Vec<u8> = Vec::new();
        match message_type {
            MessageType::Message => {
                chunk.push(77u8);
                chunk.push(83u8);
                chunk.push(71u8);
            },
            MessageType::Close => {
                chunk.push(67u8);
                chunk.push(76u8);
                chunk.push(79u8);
            },
        }
        chunk.push(if is_final { 70u8 } else { 67u8 });
        write_u32(&mut chunk, CHUNK_OVERHEAD + (end - offset));
        write_u32(&mut chunk, channel.secure_channel_id);
        write_u32(&mut chunk, channel.token_id);
        write_u32(&mut chunk, seq_no);
        write_u32(&mut chunk, request_id);
        let ghost head = chunk@;
        let mut b: u32 = offset;
        while b < end
            invariant
                offset <= b <= end <= len == body@.len(),
                chunk@ == head + body@.subrange(offset as int, b as int),
            decreases end - b,
        {
            chunk.push(body[b as usize]);
            b = b + 1;
            assert(chunk@ =~= head + body@.subrange(offset as int, b as int));
        }
        proof {
            assert(piece(body@, p as int, i as int) =~= body@.subrange(offset as int, end as int));
            assert(chunk@ =~= spec_chunk(
                message_type,
                i == k - 1,
                c0.secure_channel_id,
                c0.token_id,
                sequence_number_after(c0.send_sequence_number, i as nat),
                request_id,
                piece(body@, p as int, i as int),
            ));
            crate::secure_channel::lemma_sequence_numbers_successive(c0.send_sequence_number, (i + 1) as nat);
        }
        chunks.push(chunk);
        offset = end;
        i = i + 1;
    }
    Ok(chunks)
}

} // verus!
