//! The service messages that the secure channel service reads and writes.

use vstd::prelude::*;
use crate::types::{DateTime, StatusCode};

verus! {

/// The per-message protection level a client asks for.
#[derive(Debug, Clone, Copy, PartialEq, Eq, Structural)]
pub enum MessageSecurityMode {
    Invalid,
    NoSecurity,
    Sign,
    SignAndEncrypt,
}

/// Whether a token is asked for the first time or renewed.
#[derive(Debug, Clone, Copy, PartialEq, Eq, Structural)]
pub enum SecurityTokenRequestType {
    Issue,
    Renew,
}

#[derive(Debug, Clone, Copy, PartialEq, Eq, Structural)]
pub struct RequestHeader {
    pub request_handle: u32,
    pub timestamp: DateTime,
}

#[derive(Debug, Clone, Copy, PartialEq, Eq, Structural)]
pub struct ResponseHeader {
    pub request_handle: u32,
    pub timestamp: DateTime,
    pub service_result: StatusCode,
}

impl ResponseHeader {
    /// The header answering `request_header` with `service_result` at `now`.
    pub fn new_service_result(request_header: &RequestHeader, now: DateTime, service_result: StatusCode) -> (r:
        ResponseHeader)
        ensures
            r == (ResponseHeader { request_handle: request_header.request_handle, timestamp: now, service_result }),
    {
        ResponseHeader { request_handle: request_header.request_handle, timestamp: now, service_result }
    }
}

#[derive(Debug, Clone, PartialEq)]
pub struct OpenSecureChannelRequest {
    pub request_header: RequestHeader,
    pub client_protocol_version: u32,
    pub request_type: SecurityTokenRequestType,
    pub security_mode: MessageSecurityMode,
    pub client_nonce: Vec<u8>,
    pub requested_lifetime: u32,
}

#[derive(Debug, Clone, Copy, PartialEq, Eq, Structural)]
pub struct ChannelSecurityToken {
    pub channel_id: u32,
    pub token_id: u32,
    pub created_at: DateTime,
    pub revised_lifetime: u32,
}

#[derive(Debug, Clone, PartialEq)]
pub struct OpenSecureChannelResponse {
    pub response_header: ResponseHeader,
    pub server_protocol_version: u32,
    pub security_token: ChannelSecurityToken,
    pub server_nonce: Vec<u8>,
}

#[derive(Debug, Clone, Copy, PartialEq, Eq, Structural)]
pub struct CloseSecureChannelRequest {
    pub request_header: RequestHeader,
}

#[derive(Debug, Clone, Copy, PartialEq, Eq, Structural)]
pub struct ServiceFault {
    pub response_header: ResponseHeader,
}

/// The message kinds that this library handles.
#[derive(Debug, Clone, PartialEq)]
pub enum SupportedMessage {
    OpenSecureChannelRequest(OpenSecureChannelRequest),
    OpenSecureChannelResponse(OpenSecureChannelResponse),
    CloseSecureChannelRequest(CloseSecureChannelRequest),
    ServiceFault(ServiceFault),
}

impl ServiceFault {
    /// A service fault answering `request_header` with `status` at `now`.
    pub fn new_supported_message(request_header: &RequestHeader, now: DateTime, status: StatusCode) -> (r:
        SupportedMessage)
        ensures
            r == SupportedMessage::ServiceFault(
                ServiceFault {
                    response_header: ResponseHeader {
                        request_handle: request_header.request_handle,
                        timestamp: now,
                        service_result: status,
                    },
                },
            ),
    {
        SupportedMessage::ServiceFault(
            ServiceFault { response_header: ResponseHeader::new_service_result(request_header, now, status) },
        )
    }
}

#[derive(Debug, Clone, PartialEq)]
pub struct AsymmetricSecurityHeader {
    pub security_policy_uri: String,
    pub sender_certificate: Option<Vec<u8>>,
    pub receiver_certificate_thumbprint: Option<Vec<u8>>,
}

#[derive(Debug, Clone, Copy, PartialEq, Eq, Structural)]
pub struct SymmetricSecurityHeader {
    pub token_id: u32,
}

/// The security header of a chunk: asymmetric on OPN, symmetric otherwise.
#[derive(Debug, Clone, PartialEq)]
pub enum SecurityHeader {
    Asymmetric(AsymmetricSecurityHeader),
    Symmetric(SymmetricSecurityHeader),
}

} // verus!
