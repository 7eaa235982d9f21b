use opcua_server::messages::{
    AsymmetricSecurityHeader, MessageSecurityMode, OpenSecureChannelRequest, RequestHeader, SecurityHeader,
    SecurityTokenRequestType, SupportedMessage, SymmetricSecurityHeader,
};
use opcua_server::secure_channel::{next_sequence_number, SecureChannel, SecurityPolicy, SEQUENCE_NUMBER_WRAPAROUND};
use opcua_server::secure_channel_service::SecureChannelService;
use opcua_server::types::{DateTime, StatusCode};

fn header() -> SecurityHeader {
    SecurityHeader::Asymmetric(AsymmetricSecurityHeader {
        security_policy_uri: "http://opcfoundation.org/UA/SecurityPolicy#None".to_string(),
        sender_certificate: None,
        receiver_certificate_thumbprint: None,
    })
}

fn request(kind: SecurityTokenRequestType, mode: MessageSecurityMode, nonce: Vec<u8>) -> SupportedMessage {
    SupportedMessage::OpenSecureChannelRequest(OpenSecureChannelRequest {
        request_header: RequestHeader { request_handle: 5, timestamp: DateTime { ticks: 1 } },
        client_protocol_version: 0,
        request_type: kind,
        security_mode: mode,
        client_nonce: nonce,
        requested_lifetime: 3600000,
    })
}

fn fault_code(r: Result<SupportedMessage, StatusCode>) -> StatusCode {
    match r {
        Ok(SupportedMessage::ServiceFault(f)) => f.response_header.service_result,
        other => panic!("expected a service fault, got {:?}", other),
    }
}

#[test]
fn open_then_renew() {
    let mut service = SecureChannelService::new();
    let mut channel = SecureChannel::new(SecurityPolicy::NoSecurity, 1);
    let now = DateTime { ticks: 10 };
    let r = service.open_secure_channel_with(
        &mut channel,
        &header(),
        0,
        &request(SecurityTokenRequestType::Issue, MessageSecurityMode::NoSecurity, vec![]),
        now,
        vec![9, 9],
    );
    match r {
        Ok(SupportedMessage::OpenSecureChannelResponse(resp)) => {
            assert_eq!(resp.security_token.channel_id, 1);
            assert_eq!(resp.security_token.token_id, 1);
            assert_eq!(resp.security_token.revised_lifetime, 3600000);
            assert_eq!(resp.security_token.created_at, now);
            assert_eq!(resp.response_header.request_handle, 5);
            assert_eq!(resp.response_header.service_result, StatusCode::Good);
            assert_eq!(resp.server_nonce, vec![9, 9]);
        }
        other => panic!("unexpected {:?}", other),
    }
    assert!(service.secure_channel_state.issued);
    let r = service.open_secure_channel_with(
        &mut channel,
        &header(),
        0,
        &request(SecurityTokenRequestType::Renew, MessageSecurityMode::NoSecurity, vec![0x01]),
        now,
        vec![8],
    );
    match r {
        Ok(SupportedMessage::OpenSecureChannelResponse(resp)) => {
            assert_eq!(resp.security_token.channel_id, 1);
            assert_eq!(resp.security_token.token_id, 2);
        }
        other => panic!("unexpected {:?}", other),
    }
    assert_eq!(channel.client_nonce, vec![0x01]);
    assert_eq!(channel.server_nonce, vec![8]);
    assert_eq!(service.secure_channel_state.renew_count, 1);
}

#[test]
fn renew_with_same_nonce_is_rejected_and_changes_nothing() {
    let mut service = SecureChannelService::new();
    let mut channel = SecureChannel::new(SecurityPolicy::NoSecurity, 1);
    let now = DateTime { ticks: 10 };
    let _ = service.open_secure_channel_with(
        &mut channel,
        &header(),
        0,
        &request(SecurityTokenRequestType::Issue, MessageSecurityMode::NoSecurity, vec![1, 2]),
        now,
        vec![],
    );
    let before = channel.clone();
    let state_before = service.secure_channel_state;
    let r = service.open_secure_channel_with(
        &mut channel,
        &header(),
        0,
        &request(SecurityTokenRequestType::Renew, MessageSecurityMode::NoSecurity, vec![1, 2]),
        now,
        vec![],
    );
    assert_eq!(fault_code(r), StatusCode::BadNonceInvalid);
    assert_eq!(channel, before);
    assert_eq!(service.secure_channel_state, state_before);
    assert!(service.secure_channel_state.issued);
}

#[test]
fn renew_before_issue_is_an_error() {
    let mut service = SecureChannelService::new();
    let mut channel = SecureChannel::new(SecurityPolicy::NoSecurity, 1);
    let r = service.open_secure_channel_with(
        &mut channel,
        &header(),
        0,
        &request(SecurityTokenRequestType::Renew, MessageSecurityMode::NoSecurity, vec![1]),
        DateTime { ticks: 0 },
        vec![],
    );
    assert_eq!(r, Err(StatusCode::BadUnexpectedError));
}

#[test]
fn wrong_message_kind_is_an_error() {
    let mut service = SecureChannelService::new();
    let mut channel = SecureChannel::new(SecurityPolicy::NoSecurity, 1);
    let msg = SupportedMessage::CloseSecureChannelRequest(opcua_server::messages::CloseSecureChannelRequest {
        request_header: RequestHeader { request_handle: 1, timestamp: DateTime { ticks: 0 } },
    });
    let r = service.open_secure_channel_with(&mut channel, &header(), 0, &msg, DateTime { ticks: 0 }, vec![]);
    assert_eq!(r, Err(StatusCode::BadUnexpectedError));
}

#[test]
fn symmetric_header_is_an_error() {
    let mut service = SecureChannelService::new();
    let mut channel = SecureChannel::new(SecurityPolicy::NoSecurity, 1);
    let hdr = SecurityHeader::Symmetric(SymmetricSecurityHeader { token_id: 1 });
    let msg = request(SecurityTokenRequestType::Issue, MessageSecurityMode::NoSecurity, vec![]);
    let r = service.open_secure_channel_with(&mut channel, &hdr, 0, &msg, DateTime { ticks: 0 }, vec![]);
    assert_eq!(r, Err(StatusCode::BadUnexpectedError));
}

#[test]
fn protocol_version_mismatch_is_a_fault() {
    let mut service = SecureChannelService::new();
    let mut channel = SecureChannel::new(SecurityPolicy::NoSecurity, 1);
    let msg = request(SecurityTokenRequestType::Issue, MessageSecurityMode::NoSecurity, vec![]);
    let r = service.open_secure_channel_with(&mut channel, &header(), 1, &msg, DateTime { ticks: 0 }, vec![]);
    assert_eq!(fault_code(r), StatusCode::BadProtocolVersionUnsupported);
    assert!(!service.secure_channel_state.issued);
}

#[test]
fn invalid_security_mode_is_a_fault() {
    let mut service = SecureChannelService::new();
    let mut channel = SecureChannel::new(SecurityPolicy::NoSecurity, 1);
    let msg = request(SecurityTokenRequestType::Issue, MessageSecurityMode::Invalid, vec![]);
    let r = service.open_secure_channel_with(&mut channel, &header(), 0, &msg, DateTime { ticks: 0 }, vec![]);
    assert_eq!(fault_code(r), StatusCode::BadSecurityModeRejected);
}

#[test]
fn nonce_of_wrong_length_is_a_fault() {
    let mut service = SecureChannelService::new();
    let mut channel = SecureChannel::new(SecurityPolicy::Basic256, 1);
    let msg = request(SecurityTokenRequestType::Issue, MessageSecurityMode::Sign, vec![1, 2, 3]);
    let r = service.open_secure_channel_with(&mut channel, &header(), 0, &msg, DateTime { ticks: 0 }, vec![]);
    assert_eq!(fault_code(r), StatusCode::BadNonceInvalid);
    assert_eq!(channel.token_id, 0);
    let msg = request(SecurityTokenRequestType::Issue, MessageSecurityMode::Sign, vec![7; 32]);
    let r = service.open_secure_channel_with(&mut channel, &header(), 0, &msg, DateTime { ticks: 0 }, vec![5; 32]);
    assert!(matches!(r, Ok(SupportedMessage::OpenSecureChannelResponse(_))));
    assert!(channel.needs_key_derivation());
}

#[test]
fn sender_certificate_is_kept() {
    let mut service = SecureChannelService::new();
    let mut channel = SecureChannel::new(SecurityPolicy::NoSecurity, 1);
    let hdr = SecurityHeader::Asymmetric(AsymmetricSecurityHeader {
        security_policy_uri: String::new(),
        sender_certificate: Some(vec![0x30, 0x82]),
        receiver_certificate_thumbprint: None,
    });
    let msg = request(SecurityTokenRequestType::Issue, MessageSecurityMode::NoSecurity, vec![]);
    let _ = service.open_secure_channel_with(&mut channel, &hdr, 0, &msg, DateTime { ticks: 0 }, vec![]);
    assert_eq!(channel.their_cert, Some(vec![0x30, 0x82]));
    assert!(!channel.needs_key_derivation());
}

#[test]
fn close_returns_connection_closed() {
    let mut service = SecureChannelService::new();
    let msg = request(SecurityTokenRequestType::Issue, MessageSecurityMode::NoSecurity, vec![]);
    assert_eq!(service.close_secure_channel(&msg), Err(StatusCode::BadConnectionClosed));
}

#[test]
fn sequence_numbers_wrap_to_one() {
    assert_eq!(SEQUENCE_NUMBER_WRAPAROUND, 4294966271);
    assert_eq!(next_sequence_number(1), 2);
    assert_eq!(next_sequence_number(SEQUENCE_NUMBER_WRAPAROUND - 1), SEQUENCE_NUMBER_WRAPAROUND);
    assert_eq!(next_sequence_number(SEQUENCE_NUMBER_WRAPAROUND), 1);
    let mut channel = SecureChannel::new(SecurityPolicy::NoSecurity, SEQUENCE_NUMBER_WRAPAROUND - 1);
    assert_eq!(channel.take_send_sequence_number(), SEQUENCE_NUMBER_WRAPAROUND - 1);
    assert_eq!(channel.take_send_sequence_number(), SEQUENCE_NUMBER_WRAPAROUND);
    assert_eq!(channel.take_send_sequence_number(), 1);
    assert_eq!(channel.take_send_sequence_number(), 2);
}

#[test]
fn open_uses_clock_and_fresh_nonce() {
    let mut service = SecureChannelService::new();
    let mut channel = SecureChannel::new(SecurityPolicy::Basic128Rsa15, 1);
    let msg = request(SecurityTokenRequestType::Issue, MessageSecurityMode::SignAndEncrypt, vec![3; 16]);
    match service.open_secure_channel(&mut channel, &header(), 0, &msg) {
        Ok(SupportedMessage::OpenSecureChannelResponse(resp)) => {
            assert_eq!(resp.security_token.channel_id, 1);
            assert_eq!(resp.security_token.token_id, 1);
            assert_eq!(resp.server_nonce.len(), 16);
            assert_eq!(channel.server_nonce, resp.server_nonce);
            assert!(resp.security_token.created_at.ticks > 132_223_104_000_000_000);
        }
        other => panic!("unexpected {:?}", other),
    }
    assert_eq!(opcua_server::platform::random_nonce(32).len(), 32);
}

#[test]
fn receive_sequence_numbers_must_follow_and_survive_renewal() {
    let mut service = SecureChannelService::new();
    let mut channel = SecureChannel::new(SecurityPolicy::NoSecurity, 1);
    assert_eq!(channel.accept_receive_sequence_number(SEQUENCE_NUMBER_WRAPAROUND), Ok(()));
    let now = DateTime { ticks: 10 };
    let _ = service.open_secure_channel_with(
        &mut channel,
        &header(),
        0,
        &request(SecurityTokenRequestType::Issue, MessageSecurityMode::NoSecurity, vec![]),
        now,
        vec![],
    );
    assert_eq!(channel.receive_sequence_number, SEQUENCE_NUMBER_WRAPAROUND);
    assert_eq!(channel.accept_receive_sequence_number(2), Err(StatusCode::BadSequenceNumberInvalid));
    assert_eq!(channel.accept_receive_sequence_number(1), Ok(()));
    assert_eq!(channel.accept_receive_sequence_number(2), Ok(()));
    let mut fresh = SecureChannel::new(SecurityPolicy::NoSecurity, 1);
    assert_eq!(fresh.accept_receive_sequence_number(0), Err(StatusCode::BadSequenceNumberInvalid));
}
