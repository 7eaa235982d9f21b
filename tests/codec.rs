use opcua_server::codec::{read_array, read_u32, write_array, write_u32, ByteString};
use opcua_server::trust_list::TrustListDataType;
use opcua_server::types::StatusCode;

fn sample() -> TrustListDataType {
    TrustListDataType {
        specified_lists: 0x0102_0304,
        trusted_certificates: Some(vec![ByteString::from_bytes(&[1, 2, 3]), ByteString::null()]),
        trusted_crls: None,
        issuer_certificates: Some(vec![]),
        issuer_crls: Some(vec![ByteString::from_bytes(&[])]),
    }
}

#[test]
fn u32_is_little_endian() {
    let mut out = Vec::new();
    write_u32(&mut out, 0x0102_0304);
    assert_eq!(out, vec![4, 3, 2, 1]);
    assert_eq!(read_u32(&out, 0), Ok((0x0102_0304, 4)));
    assert_eq!(read_u32(&out, 1), Err(StatusCode::BadDecodingError));
}

#[test]
fn null_and_empty_arrays_differ() {
    let mut out = Vec::new();
    write_array(&mut out, &None);
    assert_eq!(out, vec![0xff, 0xff, 0xff, 0xff]);
    let mut out2 = Vec::new();
    write_array(&mut out2, &Some(vec![]));
    assert_eq!(out2, vec![0, 0, 0, 0]);
    assert_eq!(read_array(&out, 0), Ok((None, 4)));
    assert_eq!(read_array(&out2, 0), Ok((Some(vec![]), 4)));
}

#[test]
fn trust_list_encoding_is_exact() {
    let t = sample();
    let mut out = Vec::new();
    let n = t.encode(&mut out).unwrap();
    let expected: Vec<u8> = vec![
        4, 3, 2, 1, // specified lists
        2, 0, 0, 0, 3, 0, 0, 0, 1, 2, 3, 0xff, 0xff, 0xff, 0xff, // trusted certificates
        0xff, 0xff, 0xff, 0xff, // trusted crls
        0, 0, 0, 0, // issuer certificates
        1, 0, 0, 0, 0, 0, 0, 0, // issuer crls
    ];
    assert_eq!(out, expected);
    assert_eq!(n, expected.len());
    assert_eq!(t.byte_len(), expected.len());
}

#[test]
fn trust_list_round_trip() {
    let t = sample();
    let mut out = vec![0xaa];
    t.encode(&mut out).unwrap();
    out.push(0xbb);
    let (back, end) = TrustListDataType::decode(&out, 1).unwrap();
    assert_eq!(back, t);
    assert_eq!(end, out.len() - 1);
}

#[test]
fn short_input_fails_to_decode() {
    let t = sample();
    let mut out = Vec::new();
    t.encode(&mut out).unwrap();
    out.pop();
    assert_eq!(TrustListDataType::decode(&out, 0), Err(StatusCode::BadDecodingError));
}

#[test]
fn length_beyond_limit_fails_to_decode() {
    let bytes = vec![0, 0, 0, 0, 0x01, 0x00, 0x00, 0x05];
    assert_eq!(TrustListDataType::decode(&bytes, 0), Err(StatusCode::BadDecodingError));
    let bytes = vec![0xfe, 0xff, 0xff, 0xff];
    assert_eq!(ByteString::decode(&bytes, 0), Err(StatusCode::BadDecodingError));
}

#[test]
fn object_id_is_default_binary_encoding() {
    assert_eq!(sample().object_id(), 12680);
}

#[test]
fn oversized_byte_string_is_not_encoded() {
    let big = ByteString { value: Some(vec![0u8; 67_108_865]) };
    assert!(!big.fits());
    let t = TrustListDataType {
        specified_lists: 1,
        trusted_certificates: Some(vec![big]),
        trusted_crls: None,
        issuer_certificates: None,
        issuer_crls: None,
    };
    let mut out = vec![7];
    assert_eq!(t.encode(&mut out), Err(StatusCode::BadEncodingLimitsExceeded));
    assert_eq!(out, vec![7]);
}
