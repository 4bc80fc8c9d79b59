//! A single-question outcome resolution protocol.
//!
//! One boolean real-world question is registered with a prompt and a
//! resolution deadline, and its answer is later committed exactly as an
//! external oracle network attested it: the protocol rebuilds the message
//! the oracle group must have signed, hands the verification to the bound
//! oracle endpoint, and writes the outcome only on a confirmed signature
//! strictly before the deadline.

pub mod hashing;
pub mod protocol;
pub mod types;

pub use protocol::{initialize, set_outcome, verify_request};
pub use protocol::{Initialize, Instance, OutcomeError, SetOutcome, VerifyCall, VerifyResult};
pub use types::{GroupPubKey, MuonAppInfo, MuonInfo, MuonRequestId, Pubkey, SchnorrSign, StateAccount};
