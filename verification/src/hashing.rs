//! Canonical construction of the message the oracle group signs.
//!
//! The signed message binds the oracle application, the request round and the
//! proposed answer together, byte-exactly and with no delimiters:
//! the 32 big-endian bytes of the application identifier, then the request
//! identifier bytes as supplied, then the ASCII text `"true"` or `"false"`.
//! The message hash is the Keccak-256 digest of those bytes.

use vstd::prelude::*;

use sha3::{Digest, Keccak256};

verus! {

/// The Keccak-256 digest of a byte sequence, left uninterpreted: the digest
/// of given bytes is a fixed 32-byte value, but nothing here states which.
pub uninterp spec fn keccak256(data: Seq<u8>) -> Seq<u8>;

/// Relies on sha3::Keccak256 through the Digest trait: the digest is 32 bytes
/// and depends on the input bytes alone.
#[verifier::external_body]
fn keccak256_digest(data: &Vec<u8>) -> (r: [u8; 32])
    ensures
        r@ == keccak256(data@),
{
    Keccak256::digest(data.as_slice()).into()
}

/// The ASCII bytes `"true"` or `"false"`, the wire encoding of the proposed
/// outcome inside the signed message. The textual form is a deliberate
/// compatibility choice with the oracle network's own hashing convention.
pub open spec fn outcome_bytes(outcome: bool) -> Seq<u8> {
    if outcome {
        seq![116u8, 114u8, 117u8, 101u8]
    } else {
        seq![102u8, 97u8, 108u8, 115u8, 101u8]
    }
}

/// The exact byte string the oracle group signs: application identifier in
/// 32 big-endian bytes, request identifier as supplied, ASCII outcome text,
/// concatenated with no delimiters.
pub open spec fn message_bytes(app_id: Seq<u8>, req_id: Seq<u8>, outcome: bool) -> Seq<u8> {
    app_id + req_id + outcome_bytes(outcome)
}

/// The 256-bit message hash the oracle signature is checked against.
pub open spec fn message_hash_spec(app_id: Seq<u8>, req_id: Seq<u8>, outcome: bool) -> Seq<u8> {
    keccak256(message_bytes(app_id, req_id, outcome))
}

/// Encodes the proposed outcome as the ASCII text `"true"` or `"false"`.
pub fn encode_outcome(outcome: bool) -> (r: Vec<u8>)
    ensures
        r@ == outcome_bytes(outcome),
{
    let mut v: Vec<u8> = Vec::new();
    if outcome {
        v.push(116);
        v.push(114);
        v.push(117);
        v.push(101);
    } else {
        v.push(102);
        v.push(97);
        v.push(108);
        v.push(115);
        v.push(101);
    }
    proof {
        assert(v@ =~= outcome_bytes(outcome));
    }
    v
}

/// Builds the canonical message bytes for a proposed outcome.
pub fn build_message(app_id: &[u8; 32], req_id: &Vec<u8>, outcome: bool) -> (r: Vec<u8>)
    ensures
        r@ == message_bytes(app_id@, req_id@, outcome),
{
    let mut bytes: Vec<u8> = Vec::new();
    let mut i: usize = 0;
    while i < 32
        invariant
            i <= 32,
            bytes@ =~= app_id@.take(i as int),
        decreases 32 - i,
    {
        bytes.push(app_id[i]);
        i = i + 1;
    }
    assert(bytes@ =~= app_id@);
    let mut j: usize = 0;
    while j < req_id.len()
        invariant
            j <= req_id@.len(),
            bytes@ =~= app_id@ + req_id@.take(j as int),
        decreases req_id@.len() - j,
    {
        bytes.push(req_id[j]);
        j = j + 1;
    }
    assert(bytes@ =~= app_id@ + req_id@);
    let mut tail = encode_outcome(outcome);
    bytes.append(&mut tail);
    proof {
        assert(bytes@ =~= message_bytes(app_id@, req_id@, outcome));
    }
    bytes
}

/// Computes the message hash for a proposed outcome: the Keccak-256 digest
/// of the canonical message bytes.
pub fn message_hash(app_id: &[u8; 32], req_id: &Vec<u8>, outcome: bool) -> (r: [u8; 32])
    ensures
        r@ == message_hash_spec(app_id@, req_id@, outcome),
{
    let bytes = build_message(app_id, req_id, outcome);
    keccak256_digest(&bytes)
}

/// The message hash is a function of the `(app_id, request_id, outcome)`
/// triple alone: equal triples always yield the same hash, with no hidden
/// randomness in the construction.
pub proof fn lemma_message_hash_deterministic(
    app_id1: Seq<u8>,
    req_id1: Seq<u8>,
    outcome1: bool,
    app_id2: Seq<u8>,
    req_id2: Seq<u8>,
    outcome2: bool,
)
    requires
        app_id1 == app_id2,
        req_id1 == req_id2,
        outcome1 == outcome2,
    ensures
        message_hash_spec(app_id1, req_id1, outcome1) == message_hash_spec(
            app_id2,
            req_id2,
            outcome2,
        ),
{
}

/// The two possible answers are never hashed from the same bytes: for one
/// application and one request round, the signed message for `true` differs
/// from the signed message for `false`.
pub proof fn lemma_message_bytes_bind_outcome(app_id: Seq<u8>, req_id: Seq<u8>)
    ensures
        message_bytes(app_id, req_id, true) != message_bytes(app_id, req_id, false),
{
    assert(message_bytes(app_id, req_id, true).len() == app_id.len() + req_id.len() + 4);
    assert(message_bytes(app_id, req_id, false).len() == app_id.len() + req_id.len() + 5);
}

/// The outcome is hashed as the ASCII text `"true"` or `"false"`, lowercase,
/// and never as a single `0x01` or `0x00` byte.
pub proof fn lemma_outcome_encoding_is_ascii(outcome: bool)
    ensures
        outcome_bytes(true) =~= seq![116u8, 114u8, 117u8, 101u8],
        outcome_bytes(false) =~= seq![102u8, 97u8, 108u8, 115u8, 101u8],
        outcome_bytes(outcome) != seq![if outcome { 1u8 } else { 0u8 }],
{
    assert(outcome_bytes(outcome).len() >= 4);
    assert(seq![if outcome { 1u8 } else { 0u8 }].len() == 1);
}

} // verus!
