//! Negotiation of the transport limits from a client's HELLO.

use vstd::prelude::*;
use crate::types::StatusCode;

verus! {

/// What a client proposes in HELLO. A zero size or count means no limit.
#[derive(Debug, Clone, Copy, PartialEq, Eq, Structural)]
pub struct HelloMessage {
    pub protocol_version: u32,
    pub receive_buffer_size: u32,
    pub send_buffer_size: u32,
    pub max_message_size: u32,
    pub max_chunk_count: u32,
}

/// The server's own limits; they cap the client's.
#[derive(Debug, Clone, Copy, PartialEq, Eq, Structural)]
pub struct TransportLimits {
    pub protocol_version: u32,
    pub receive_buffer_size: u32,
    pub send_buffer_size: u32,
    pub max_message_size: u32,
}

/// The server's answer to HELLO.
#[derive(Debug, Clone, Copy, PartialEq, Eq, Structural)]
pub struct AcknowledgeMessage {
    pub protocol_version: u32,
    pub receive_buffer_size: u32,
    pub send_buffer_size: u32,
    pub max_message_size: u32,
    pub max_chunk_count: u32,
}

pub open spec fn spec_min(a: u32, b: u32) -> u32 {
    if a <= b {
        a
    } else {
        b
    }
}

/// A client limit capped by the server's, where zero stands for no limit.
pub open spec fn spec_cap(client: u32, server: u32) -> u32 {
    if client == 0 {
        server
    } else if server == 0 {
        client
    } else {
        spec_min(client, server)
    }
}

/// The smallest number of chunks of `chunk` bytes that hold `size` bytes.
pub open spec fn spec_ceil_div(size: u32, chunk: u32) -> int
    recommends
        chunk > 0,
{
    (size as int + chunk as int - 1) / chunk as int
}

/// The acknowledgement for `hello` under `limits`: each size is the smaller
/// of the two, a zero message size yields to the other side's, and the
/// chunk count is what the message size needs in receive buffers, capped by
/// the client's count. A zero buffer size on either side is
/// `BadCommunicationError`.
pub open spec fn spec_acknowledge(hello: HelloMessage, limits: TransportLimits) -> Option<AcknowledgeMessage> {
    let receive = spec_min(hello.receive_buffer_size, limits.receive_buffer_size);
    let send = spec_min(hello.send_buffer_size, limits.send_buffer_size);
    let message = spec_cap(hello.max_message_size, limits.max_message_size);
    if receive == 0 || send == 0 {
        None
    } else {
        let needed = if message == 0 {
            0
        } else {
            spec_ceil_div(message, receive) as u32
        };
        Some(
            AcknowledgeMessage {
                protocol_version: spec_min(hello.protocol_version, limits.protocol_version),
                receive_buffer_size: receive,
                send_buffer_size: send,
                max_message_size: message,
                max_chunk_count: spec_cap(hello.max_chunk_count, needed),
            },
        )
    }
}

fn min_u32(a: u32, b: u32) -> (r: u32)
    ensures
        r == spec_min(a, b),
{
    if a <= b {
        a
    } else {
        b
    }
}

fn cap_u32(client: u32, server: u32) -> (r: u32)
    ensures
        r == spec_cap(client, server),
{
    if client == 0 {
        server
    } else if server == 0 {
        client
    } else {
        min_u32(client, server)
    }
}

/// Answers a HELLO: the negotiated limits, or `BadCommunicationError` for a
/// zero buffer size.
pub fn acknowledge(hello: &HelloMessage, limits: &TransportLimits) -> (r: Result<AcknowledgeMessage, StatusCode>)
    ensures
        match spec_acknowledge(*hello, *limits) {
            Some(ack) => r == Ok::<AcknowledgeMessage, StatusCode>(ack),
            None => r == Err::<AcknowledgeMessage, StatusCode>(StatusCode::BadCommunicationError),
        },
{
    let receive = min_u32(hello.receive_buffer_size, limits.receive_buffer_size);
    let send = min_u32(hello.send_buffer_size, limits.send_buffer_size);
    let message = cap_u32(hello.max_message_size, limits.max_message_size);
    if receive == 0 || send == 0 {
        return Err(StatusCode::BadCommunicationError);
    }
    let needed: u32 = if message == 0 {
        0
    } else {
        let q: u64 = (message as u64 + receive as u64 - 1) / (receive as u64);
        proof {
            let m = message as int;
            let d = receive as int;
            assert((m + d - 1) / d <= m) by (nonlinear_arith)
                requires
                    m >= 1,
                    d >= 1,
            ;
        }
        q as u32
    };
    Ok(
        AcknowledgeMessage {
            protocol_version: min_u32(hello.protocol_version, limits.protocol_version),
            receive_buffer_size: receive,
            send_buffer_size: send,
            max_message_size: message,
            max_chunk_count: cap_u32(hello.max_chunk_count, needed),
        },
    )
}

} // verus!
