//! The resolution protocol: `initialize` and the outcome commit.
//!
//! The two records of one question instance live in a single-slot store, so
//! that exactly one instance of each can exist: creating them a second time
//! fails instead of overwriting. The oracle binding is written at
//! `initialize` and only re-read afterwards; the verification call that
//! [`verify_request`] builds is always routed to the bound endpoint, never to
//! a caller-supplied one. The oracle network itself is outside this crate:
//! its verdict comes back to [`set_outcome`] as a value, and the outcome is
//! written only on a confirmed verdict strictly before the deadline.

use vstd::prelude::*;

use crate::hashing::{message_hash, message_hash_spec};
use crate::types::{
    pubkey_eq, GroupPubKey, MuonAppInfo, MuonInfo, MuonRequestId, Pubkey, SchnorrSign,
    StateAccount,
};

verus! {

/// Why a protocol call failed.
#[derive(Clone, Copy, Debug, PartialEq, Eq, Structural)]
pub enum OutcomeError {
    /// Setup was attempted against an instance whose records already exist.
    AlreadyInitialized,
    /// A commit was attempted at or after the resolution deadline.
    DeadlineExpired,
    /// The oracle capability declined to confirm the signature.
    SignatureRejected,
    /// Verification was about to be routed through an endpoint other than
    /// the bound one.
    UnauthorizedOracleEndpoint,
}

/// The oracle verification capability's answer for one signature.
#[derive(Clone, Copy, Debug, PartialEq, Eq, Structural)]
pub enum VerifyResult {
    /// The signature is a valid threshold signature by the bound group over
    /// the reconstructed message hash.
    Confirmed,
    /// The oracle capability rejected the signature.
    Rejected,
}

/// One question instance: the single-slot store for its two records.
///
/// Both slots are filled together by a successful [`initialize`] and never
/// emptied, mirroring records at fixed, derived storage locations: creation
/// fails if the slots are already occupied.
pub struct Instance {
    pub state_account: Option<StateAccount>,
    pub muon_info: Option<MuonInfo>,
}

impl Instance {
    /// Both records exist.
    pub open spec fn is_initialized(self) -> bool {
        self.state_account is Some && self.muon_info is Some
    }

    /// The question registry, once initialized.
    pub open spec fn state(self) -> StateAccount {
        self.state_account->Some_0
    }

    /// The oracle binding, once initialized.
    pub open spec fn binding(self) -> MuonInfo {
        self.muon_info->Some_0
    }

    /// A fresh, uninitialized instance.
    pub fn new() -> (r: Instance)
        ensures
            r.state_account is None,
            r.muon_info is None,
    {
        Instance { state_account: None, muon_info: None }
    }
}

/// The caller-supplied parameters of `initialize`.
pub struct Initialize {
    /// Identity permitted to create and configure the instance.
    pub owner: Pubkey,
    /// The question prompt.
    pub prompt: String,
    /// Resolution deadline, seconds since epoch.
    pub outcome_date: u32,
    /// The oracle application and group key bound to this question.
    pub muon_app_info: MuonAppInfo,
    /// Identity of the oracle-network verification entry point to bind.
    pub muon_program: Pubkey,
}

/// The caller-supplied parameters of a commit attempt.
pub struct SetOutcome {
    /// The proposed answer.
    pub outcome: bool,
    /// Correlation identifier of the oracle signing round.
    pub req_id: MuonRequestId,
    /// The oracle group's signature over the expected message hash.
    pub sign: SchnorrSign,
    /// The verification endpoint the caller intends to route through; the
    /// protocol refuses any endpoint other than the bound one.
    pub muon_program: Pubkey,
    /// Current time, seconds since epoch.
    pub now: i64,
}

/// The one verification call a commit attempt is allowed to make: every
/// field but the caller's request identifier and signature is re-read from
/// the stored binding.
pub struct VerifyCall {
    /// The bound verification endpoint the call must go to.
    pub program_id: Pubkey,
    /// The request identifier, echoed from the commit attempt.
    pub req_id: MuonRequestId,
    /// The independently reconstructed message hash, 32 big-endian bytes.
    pub msg_hash: [u8; 32],
    /// The signature to check, forwarded unread.
    pub sign: SchnorrSign,
    /// The bound group public key to check against.
    pub group_pub_key: GroupPubKey,
}

/// Creates the question registry and the oracle binding.
///
/// Fails with `AlreadyInitialized`, mutating nothing, if either record
/// already exists; otherwise fills both exactly from the given parameters,
/// with `outcome` defaulting to `false`.
pub fn initialize(inst: &mut Instance, args: Initialize) -> (r: Result<(), OutcomeError>)
    requires
        args.prompt@.len() <= 100,
    ensures
        (old(inst).state_account is Some || old(inst).muon_info is Some) ==> (r == Err::<
            (),
            OutcomeError,
        >(OutcomeError::AlreadyInitialized) && *final(inst) == *old(inst)),
        (old(inst).state_account is None && old(inst).muon_info is None) ==> (r == Ok::<
            (),
            OutcomeError,
        >(()) && final(inst).is_initialized() && final(inst).state() == (StateAccount {
            initialized: true,
            owner: args.owner,
            prompt: args.prompt,
            outcome: false,
            outcome_date: args.outcome_date,
        }) && final(inst).binding() == (MuonInfo {
            app_info: args.muon_app_info,
            program_id: args.muon_program,
        })),
{
    if inst.state_account.is_some() || inst.muon_info.is_some() {
        return Err(OutcomeError::AlreadyInitialized);
    }
    inst.state_account = Some(
        StateAccount {
            initialized: true,
            owner: args.owner,
            prompt: args.prompt,
            outcome: false,
            outcome_date: args.outcome_date,
        },
    );
    inst.muon_info = Some(MuonInfo { app_info: args.muon_app_info, program_id: args.muon_program });
    Ok(())
}

/// A verified byte-for-byte copy.
fn copy_bytes(v: &Vec<u8>) -> (r: Vec<u8>)
    ensures
        r@ == v@,
{
    let mut r: Vec<u8> = Vec::new();
    let mut i: usize = 0;
    while i < v.len()
        invariant
            i <= v@.len(),
            r@ =~= v@.take(i as int),
        decreases v@.len() - i,
    {
        r.push(v[i]);
        i = i + 1;
    }
    proof {
        assert(r@ =~= v@);
    }
    r
}

/// Builds the single oracle verification call a commit attempt may make.
///
/// Checked in order, before any hashing work: the intended endpoint must be
/// exactly the bound one, and the current time must be strictly before the
/// deadline. Only then is the message hash reconstructed from the stored
/// application identifier, the supplied request identifier and the proposed
/// outcome. A failed check yields no call at all, so an expired or
/// misrouted attempt can never reach the oracle capability.
pub fn verify_request(inst: &Instance, args: &SetOutcome) -> (r: Result<VerifyCall, OutcomeError>)
    requires
        inst.is_initialized(),
    ensures
        args.muon_program.bytes@ != inst.binding().program_id.bytes@ ==> r == Err::<
            VerifyCall,
            OutcomeError,
        >(OutcomeError::UnauthorizedOracleEndpoint),
        (args.muon_program.bytes@ == inst.binding().program_id.bytes@ && (args.now as int)
            >= inst.state().outcome_date as int) ==> r == Err::<VerifyCall, OutcomeError>(
            OutcomeError::DeadlineExpired,
        ),
        (args.muon_program.bytes@ == inst.binding().program_id.bytes@ && (args.now as int)
            < inst.state().outcome_date as int) ==> (r is Ok && (r->Ok_0).program_id
            == inst.binding().program_id && (r->Ok_0).req_id.val@ == args.req_id.val@ && (
        r->Ok_0).msg_hash@ == message_hash_spec(
            inst.binding().app_info.app_id@,
            args.req_id.val@,
            args.outcome,
        ) && (r->Ok_0).sign == args.sign && (r->Ok_0).group_pub_key
            == inst.binding().app_info.group_pub_key),
{
    let muon_info = match &inst.muon_info {
        Some(m) => m,
        None => vstd::pervasive::unreached(),
    };
    let state = match &inst.state_account {
        Some(s) => s,
        None => vstd::pervasive::unreached(),
    };
    if !pubkey_eq(&args.muon_program, &muon_info.program_id) {
        return Err(OutcomeError::UnauthorizedOracleEndpoint);
    }
    if (state.outcome_date as i64) <= args.now {
        return Err(OutcomeError::DeadlineExpired);
    }
    let msg_hash = message_hash(&muon_info.app_info.app_id, &args.req_id.val, args.outcome);
    Ok(
        VerifyCall {
            program_id: muon_info.program_id,
            req_id: MuonRequestId { val: copy_bytes(&args.req_id.val) },
            msg_hash,
            sign: args.sign,
            group_pub_key: muon_info.app_info.group_pub_key,
        },
    )
}

/// Applies the oracle capability's verdict to a commit attempt.
///
/// Tests the endpoint and the deadline again, ordered as in
/// [`verify_request`], and applies what the capability answered. A rejected
/// signature fails with `SignatureRejected`; only a confirmed one writes the
/// proposed outcome into the registry. On every failure the instance is unchanged;
/// on success the single field `outcome` is the only change.
pub fn set_outcome(inst: &mut Instance, args: &SetOutcome, verdict: VerifyResult) -> (r: Result<
    (),
    OutcomeError,
>)
    requires
        old(inst).is_initialized(),
    ensures
        final(inst).is_initialized(),
        final(inst).muon_info == old(inst).muon_info,
        r is Err ==> *final(inst) == *old(inst),
        args.muon_program.bytes@ != old(inst).binding().program_id.bytes@ ==> r == Err::<
            (),
            OutcomeError,
        >(OutcomeError::UnauthorizedOracleEndpoint),
        (args.muon_program.bytes@ == old(inst).binding().program_id.bytes@ && (args.now as int)
            >= old(inst).state().outcome_date as int) ==> r == Err::<(), OutcomeError>(
            OutcomeError::DeadlineExpired,
        ),
        (args.muon_program.bytes@ == old(inst).binding().program_id.bytes@ && (args.now as int)
            < old(inst).state().outcome_date as int && verdict is Rejected) ==> r == Err::<
            (),
            OutcomeError,
        >(OutcomeError::SignatureRejected),
        (args.muon_program.bytes@ == old(inst).binding().program_id.bytes@ && (args.now as int)
            < old(inst).state().outcome_date as int && verdict is Confirmed) ==> (r == Ok::<
            (),
            OutcomeError,
        >(()) && final(inst).state() == (StateAccount {
            outcome: args.outcome,
            ..old(inst).state()
        })),
{
    let muon_program_id = match &inst.muon_info {
        Some(m) => m.program_id,
        None => vstd::pervasive::unreached(),
    };
    let outcome_date = match &inst.state_account {
        Some(s) => s.outcome_date,
        None => vstd::pervasive::unreached(),
    };
    if !pubkey_eq(&args.muon_program, &muon_program_id) {
        return Err(OutcomeError::UnauthorizedOracleEndpoint);
    }
    if (outcome_date as i64) <= args.now {
        return Err(OutcomeError::DeadlineExpired);
    }
    match verdict {
        VerifyResult::Rejected => Err(OutcomeError::SignatureRejected),
        VerifyResult::Confirmed => {
            match &mut inst.state_account {
                Some(state) => {
                    state.outcome = args.outcome;
                },
                None => {},
            }
            Ok(())
        },
    }
}

} // verus!
