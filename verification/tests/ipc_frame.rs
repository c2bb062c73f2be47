//! IPC framing: a 4-byte little-endian length, then the JSON body.

use avix_core::error::AvixError;
use avix_core::ipc_frame::{body_len, decode, encode, MAX_FRAME_BYTES};
use serde_json::Value;

fn object(pairs: Vec<(&str, Value)>) -> Value {
    let mut m = serde_json::Map::new();
    for (k, v) in pairs {
        m.insert(k.to_string(), v);
    }
    Value::Object(m)
}

#[test]
fn test_encode_then_decode_roundtrip() {
    let msg = object(vec![("hello", Value::from("world")), ("count", Value::from(42))]);
    let encoded = encode(&serde_json::to_vec(&msg).unwrap()).unwrap();
    // First 4 bytes are the length
    assert!(encoded.len() >= 4);
    let decoded: Value = serde_json::from_slice(&decode(&encoded).unwrap()).unwrap();
    assert_eq!(decoded["hello"], "world");
    assert_eq!(decoded["count"], 42);
}

#[test]
fn test_decode_too_short_returns_error() {
    let short = &[1u8, 2, 3]; // only 3 bytes, need at least 4
    let result = decode(short);
    match result {
        Err(AvixError::ConfigParse(m)) => assert!(m.contains("frame too short"), "got: {m}"),
        other => panic!("expected an error, got {other:?}"),
    }
}

#[test]
fn test_decode_invalid_json_body_returns_error() {
    // A frame with a correct length prefix but a body that is not JSON.
    let body = b"not-valid-json!!!";
    let len = (body.len() as u32).to_le_bytes();
    let mut frame = Vec::new();
    frame.extend_from_slice(&len);
    frame.extend_from_slice(body);

    let raw = decode(&frame).unwrap();
    assert_eq!(raw, body.to_vec());
    let result: Result<Value, _> = serde_json::from_slice(&raw);
    assert!(result.is_err());
}

#[test]
fn test_encode_simple_struct() {
    let msg = object(vec![("id", Value::from(7)), ("name", Value::from("test"))]);
    let encoded = encode(&serde_json::to_vec(&msg).unwrap()).unwrap();
    let decoded: Value = serde_json::from_slice(&decode(&encoded).unwrap()).unwrap();
    assert_eq!(decoded, msg);
}

#[test]
fn header_is_little_endian_length() {
    let encoded = encode(b"abcde").unwrap();
    assert_eq!(encoded, vec![5, 0, 0, 0, b'a', b'b', b'c', b'd', b'e']);
    assert_eq!(body_len(&encoded[0..4]).unwrap(), 5);
}

#[test]
fn header_of_300_bytes() {
    let body = vec![b'x'; 300];
    let encoded = encode(&body).unwrap();
    assert_eq!(&encoded[0..4], &[44u8, 1, 0, 0]);
    assert_eq!(body_len(&encoded[0..4]).unwrap(), 300);
    assert_eq!(decode(&encoded).unwrap(), body);
}

#[test]
fn empty_body_frames_to_header_only() {
    let encoded = encode(&[]).unwrap();
    assert_eq!(encoded, vec![0, 0, 0, 0]);
    assert!(decode(&encoded).unwrap().is_empty());
}

#[test]
fn oversized_header_is_refused() {
    let too_big = ((MAX_FRAME_BYTES + 1) as u32).to_le_bytes();
    match body_len(&too_big) {
        Err(AvixError::ConfigParse(m)) => assert_eq!(m, "frame too large"),
        other => panic!("expected refusal, got {other:?}"),
    }
    let limit = (MAX_FRAME_BYTES as u32).to_le_bytes();
    assert_eq!(body_len(&limit).unwrap(), MAX_FRAME_BYTES);
}

#[test]
fn oversized_body_is_refused() {
    let body = vec![0u8; MAX_FRAME_BYTES + 1];
    match encode(&body) {
        Err(AvixError::ConfigParse(m)) => assert_eq!(m, "message exceeds 16 MB limit"),
        other => panic!("expected refusal, got {:?}", other.map(|v| v.len())),
    }
}
