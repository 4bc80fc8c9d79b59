//! Data model: the question registry, the oracle binding, and the plain
//! forms of the values the oracle network exchanges.
//!
//! Signature and key material is carried as plain bytes: the protocol never
//! inspects it, only forwards it to the bound verification endpoint.

use vstd::prelude::*;

verus! {

/// A 32-byte account identity on the host ledger.
#[derive(Clone, Copy, Debug)]
pub struct Pubkey {
    pub bytes: [u8; 32],
}

/// Byte-for-byte equality of two identities.
pub fn pubkey_eq(a: &Pubkey, b: &Pubkey) -> (r: bool)
    ensures
        r == (a.bytes@ == b.bytes@),
{
    let mut i: usize = 0;
    while i < 32
        invariant
            i <= 32,
            forall|k: int| 0 <= k < i ==> a.bytes@[k] == b.bytes@[k],
        decreases 32 - i,
    {
        if a.bytes[i] != b.bytes[i] {
            assert(a.bytes@ != b.bytes@);
            return false;
        }
        i = i + 1;
    }
    proof {
        assert(a.bytes@ =~= b.bytes@);
    }
    true
}

/// The opaque correlation identifier of one oracle signing round, echoed
/// byte-for-byte into the signed message.
#[derive(Clone, Debug)]
pub struct MuonRequestId {
    pub val: Vec<u8>,
}

/// A Schnorr-style threshold signature produced by the oracle group.
/// Opaque to this protocol: forwarded to the verification endpoint unread.
#[derive(Clone, Copy, Debug)]
pub struct SchnorrSign {
    /// x-coordinate of the signature's nonce point `R`.
    pub r: [u8; 32],
    /// The signature scalar `s`.
    pub s: [u8; 32],
    /// Parity bit of the nonce point.
    pub parity: u8,
}

/// The oracle group's collective public key, the verification key for every
/// commit against this question. Opaque to this protocol.
#[derive(Clone, Copy, Debug)]
pub struct GroupPubKey {
    /// x-coordinate of the group key point.
    pub x: [u8; 32],
    /// Parity bit of the group key point.
    pub parity: u8,
}

/// Identity of the oracle application authorized to answer this question,
/// together with the group key that must sign every answer.
#[derive(Clone, Copy, Debug)]
pub struct MuonAppInfo {
    pub group_pub_key: GroupPubKey,
    /// The 256-bit application identifier, as 32 big-endian bytes.
    pub app_id: [u8; 32],
}

/// The oracle binding: which application may answer, under which group key,
/// and through which verification endpoint. Written once at setup and only
/// re-read afterwards; a caller can never substitute another endpoint.
#[derive(Clone, Copy, Debug)]
pub struct MuonInfo {
    pub app_info: MuonAppInfo,
    /// Identity of the trusted oracle-network verification entry point.
    pub program_id: Pubkey,
}

/// The question registry: immutable question metadata plus the single
/// mutable field `outcome`.
#[derive(Clone, Debug)]
pub struct StateAccount {
    pub initialized: bool,
    /// Identity permitted to create and configure the instance.
    pub owner: Pubkey,
    /// Free-text question prompt, immutable after creation.
    pub prompt: String,
    /// The committed answer; meaningful only after a successful commit,
    /// `false` by default.
    pub outcome: bool,
    /// Absolute timestamp (seconds since epoch) after which no outcome may
    /// be committed.
    pub outcome_date: u32,
}

} // verus!
