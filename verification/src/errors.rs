use vstd::prelude::*;

verus! {

/// Every way an operation can be rejected. All rejections are terminal and
/// leave the engine's state unchanged.
#[derive(Clone, Copy, Debug, PartialEq, Eq, Structural)]
pub enum FlowError {
    /// The vault's available balance does not cover the requested settlement.
    InsufficientFunds,
    /// The attestation is missing, signed by the wrong identity, or covers
    /// different message bytes than the canonical settlement message.
    InvalidSignature,
    /// The submitted nonce is a replay of a consumed nonce or skips ahead.
    InvalidNonce,
    /// The settlement amount is below the configured minimum threshold.
    BelowThreshold,
    /// A checked arithmetic step would overflow.
    Overflow,
    /// The referenced config, vault, or provider record does not exist.
    NotFound,
    /// A record keyed by this identity already exists.
    AlreadyExists,
    /// The caller's identity does not match the record's owner.
    Unauthorized,
}

} // verus!
