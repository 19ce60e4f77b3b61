use vstd::prelude::*;

verus! {

/// Why the durable-nonce token could not be used.
#[derive(Clone, Copy, Debug, PartialEq, Eq, Structural)]
pub enum ReplayError {
    /// The token account presented is not the one the intent names.
    TokenMismatch,
    /// The authority account presented is not the one the intent names.
    AuthorityMismatch,
    /// The token's authority did not sign the invocation.
    MissingAuthoritySignature,
    /// The token account is not owned by the system program or is too short
    /// to be an initialized token.
    MalformedToken,
}

/// Why a settlement was rejected. The first failing check decides.
#[derive(Clone, Copy, Debug, PartialEq, Eq, Structural)]
pub enum SettleError {
    /// The instruction envelope could not be decoded.
    InvalidInstruction,
    /// The intent bytes could not be decoded, or carry only one of the two
    /// durable-nonce fields.
    Decode,
    /// No signature-verification instruction covers the intent bytes with
    /// the sender's key and the given signature.
    Auth,
    /// Fewer accounts were presented than the settlement needs.
    NotEnoughAccounts,
    /// The sender or recipient account is not the one the intent names.
    IdentityMismatch,
    /// The current time is past the intent's expiry.
    Expired,
    /// The durable-nonce token was rejected.
    Replay(ReplayError),
    /// A ledger call (token advance or transfer) failed.
    LedgerCall,
}

} // verus!
