use wascc_actor::error::Error;
use wascc_actor::keyvalue::read_value;
use wascc_actor::msgpack::{within_nesting, MAX_NESTING};
use wascc_actor::objectstore::read_chunk_size;

/// `levels` arrays, each holding the next, around an empty array.
fn nested(levels: usize) -> Vec<u8> {
    let mut v = vec![0x91; levels];
    v.push(0x90);
    v
}

fn fixstr(s: &str) -> Vec<u8> {
    let mut v = vec![0xa0 | s.len() as u8];
    v.extend_from_slice(s.as_bytes());
    v
}

/// A get response with one more field, `junk`, holding `extra`.
fn get_response_with(extra: &[u8]) -> Vec<u8> {
    let mut v = vec![0x83];
    v.extend(fixstr("value"));
    v.extend(fixstr("v"));
    v.extend(fixstr("exists"));
    v.push(0xc3);
    v.extend(fixstr("junk"));
    v.extend_from_slice(extra);
    v
}

#[test]
fn nesting_limit_is_exact() {
    assert_eq!(MAX_NESTING, 32);
    assert!(within_nesting(&nested(31)));
    assert!(!within_nesting(&nested(32)));
    assert!(within_nesting(&[0x2a]));
    assert!(!within_nesting(&[]));
    assert!(!within_nesting(&[0xc1]));
    assert!(!within_nesting(&[0x92, 0x01]));
    assert!(within_nesting(&[0x82, 0xa1, b'a', 0xcd, 0x01, 0x02, 0xa1, b'b', 0xc4, 0x02, 9, 9]));
}

#[test]
fn deeply_nested_reply_is_decode_error() {
    let reply = get_response_with(&nested(200_000));
    assert!(matches!(read_value(Ok(reply.clone())), Err(Error::Decode(_))));
    assert_eq!(read_chunk_size(Ok(reply), 64), Ok(64));
}

#[test]
fn moderately_nested_extra_field_is_skipped() {
    let reply = get_response_with(&nested(20));
    assert_eq!(read_value(Ok(reply)), Ok(Some("v".to_string())));
}
