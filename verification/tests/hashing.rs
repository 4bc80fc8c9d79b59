use fact_gpt_solana::hashing::{build_message, encode_outcome, message_hash};

use primitive_types::U256;
use sha3::{Digest, Keccak256};

/// The 256-bit application identifier 42, as 32 big-endian bytes.
fn app_id_42() -> [u8; 32] {
    let mut bytes = [0u8; 32];
    bytes[31] = 42;
    bytes
}

fn keccak(data: &[u8]) -> Vec<u8> {
    Keccak256::digest(data).to_vec()
}

#[test]
fn app_id_bytes_are_big_endian_u256() {
    let mut bytes = [0u8; 32];
    U256::from(42u64).to_big_endian(&mut bytes);
    assert_eq!(bytes, app_id_42());
}

#[test]
fn outcome_encoding_is_ascii_text() {
    assert_eq!(encode_outcome(true), b"true".to_vec());
    assert_eq!(encode_outcome(false), b"false".to_vec());
    // the wire form is the text, never a single 0/1 byte
    assert_ne!(encode_outcome(true), vec![1u8]);
    assert_ne!(encode_outcome(false), vec![0u8]);
}

#[test]
fn message_layout_has_no_delimiters() {
    let app_id = app_id_42();
    let req_id: Vec<u8> = vec![9, 8, 7];
    let msg = build_message(&app_id, &req_id, true);
    let mut expected: Vec<u8> = Vec::new();
    expected.extend_from_slice(&app_id);
    expected.extend_from_slice(&req_id);
    expected.extend_from_slice(b"true");
    assert_eq!(msg, expected);

    let msg_false = build_message(&app_id, &req_id, false);
    let mut expected_false: Vec<u8> = Vec::new();
    expected_false.extend_from_slice(&app_id);
    expected_false.extend_from_slice(&req_id);
    expected_false.extend_from_slice(b"false");
    assert_eq!(msg_false, expected_false);
}

#[test]
fn message_hash_is_deterministic() {
    let app_id = app_id_42();
    let req_id: Vec<u8> = vec![1, 2, 3, 4];
    let first = message_hash(&app_id, &req_id, true);
    let second = message_hash(&app_id, &req_id, true);
    assert_eq!(first, second);
}

#[test]
fn message_hash_matches_independent_keccak() {
    let app_id = app_id_42();
    let req_id: Vec<u8> = vec![0xde, 0xad, 0xbe, 0xef];
    let hash = message_hash(&app_id, &req_id, true);

    let mut bytes: Vec<u8> = Vec::new();
    bytes.extend_from_slice(&app_id);
    bytes.extend_from_slice(&req_id);
    bytes.extend_from_slice(b"true");
    let expected = keccak(&bytes);
    assert_eq!(hash.to_vec(), expected);
    // the digest is a real digest, not the input handed back
    assert_ne!(hash.to_vec(), bytes[..32].to_vec());
}

#[test]
fn message_hash_binds_the_outcome() {
    let app_id = app_id_42();
    let req_id: Vec<u8> = vec![1, 2, 3];
    let hash_true = message_hash(&app_id, &req_id, true);
    let hash_false = message_hash(&app_id, &req_id, false);
    assert_ne!(hash_true, hash_false);
}

#[test]
fn message_hash_binds_the_request() {
    let app_id = app_id_42();
    let hash_a = message_hash(&app_id, &vec![1u8], true);
    let hash_b = message_hash(&app_id, &vec![2u8], true);
    assert_ne!(hash_a, hash_b);
}
