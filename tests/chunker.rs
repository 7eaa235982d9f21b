use opcua_server::chunker::{encode_chunks, MessageType};
use opcua_server::secure_channel::{SecureChannel, SecurityPolicy, SEQUENCE_NUMBER_WRAPAROUND};
use opcua_server::types::StatusCode;

fn channel(first: u32) -> SecureChannel {
    let mut c = SecureChannel::new(SecurityPolicy::NoSecurity, first);
    c.secure_channel_id = 9;
    c.token_id = 3;
    c
}

#[test]
fn chunks_carry_successive_sequence_numbers_across_the_wrap() {
    let mut c = channel(SEQUENCE_NUMBER_WRAPAROUND - 1);
    let body: Vec<u8> = (1..=10).collect();
    let chunks = encode_chunks(&mut c, MessageType::Message, 77, &body, 28, 0, 0).unwrap();
    assert_eq!(chunks.len(), 3);
    let seq = |ch: &Vec<u8>| u32::from_le_bytes([ch[16], ch[17], ch[18], ch[19]]);
    assert_eq!(seq(&chunks[0]), SEQUENCE_NUMBER_WRAPAROUND - 1);
    assert_eq!(seq(&chunks[1]), SEQUENCE_NUMBER_WRAPAROUND);
    assert_eq!(seq(&chunks[2]), 1);
    assert_eq!(c.send_sequence_number, 2);
    assert_eq!(&chunks[0][0..4], b"MSGC");
    assert_eq!(&chunks[2][0..4], b"MSGF");
    assert_eq!(chunks[0].len(), 28);
    assert_eq!(chunks[2].len(), 26);
    assert_eq!(u32::from_le_bytes([chunks[2][4], chunks[2][5], chunks[2][6], chunks[2][7]]), 26);
    assert_eq!(u32::from_le_bytes([chunks[0][8], chunks[0][9], chunks[0][10], chunks[0][11]]), 9);
    assert_eq!(u32::from_le_bytes([chunks[0][12], chunks[0][13], chunks[0][14], chunks[0][15]]), 3);
    assert_eq!(u32::from_le_bytes([chunks[1][20], chunks[1][21], chunks[1][22], chunks[1][23]]), 77);
    let payload: Vec<u8> = chunks.iter().flat_map(|ch| ch[24..].to_vec()).collect();
    assert_eq!(payload, body);
}

#[test]
fn empty_close_message_is_one_final_chunk() {
    let mut c = channel(5);
    let chunks = encode_chunks(&mut c, MessageType::Close, 1, &[], 8192, 0, 0).unwrap();
    assert_eq!(chunks.len(), 1);
    assert_eq!(&chunks[0][0..4], b"CLOF");
    assert_eq!(chunks[0].len(), 24);
    assert_eq!(c.send_sequence_number, 6);
}

#[test]
fn oversized_messages_are_refused_before_any_chunk() {
    let mut c = channel(5);
    let body = vec![0u8; 100];
    assert_eq!(encode_chunks(&mut c, MessageType::Message, 1, &body, 24, 0, 0), Err(StatusCode::BadTcpMessageTooLarge));
    assert_eq!(encode_chunks(&mut c, MessageType::Message, 1, &body, 8192, 99, 0), Err(StatusCode::BadResponseTooLarge));
    assert_eq!(encode_chunks(&mut c, MessageType::Message, 1, &body, 74, 0, 1), Err(StatusCode::BadResponseTooLarge));
    assert_eq!(c.send_sequence_number, 5);
    assert_eq!(encode_chunks(&mut c, MessageType::Message, 1, &body, 74, 0, 2).unwrap().len(), 2);
}
