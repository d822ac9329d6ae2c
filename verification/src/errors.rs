//! Error taxonomy of the admission and replication protocol.

use vstd::prelude::*;

verus! {

/// Everything that can go wrong while issuing or verifying quotes, sealing or
/// unsealing the group secret, or serving the admission endpoint.
#[derive(Clone, Copy, Debug, PartialEq, Eq, Structural)]
pub enum NodeError {
    /// The hardware/attestation channel cannot be reached.
    AttestationUnavailable,
    /// The attestation hardware reported an error while producing a quote.
    QuoteGenerationFailed,
    /// A quote (or its report data) could not be decoded.
    MalformedQuote,
    /// Verification collateral could not be fetched.
    CollateralFetchFailed,
    /// The quote's signature chain or collateral was rejected.
    VerificationRejected,
    /// The quote's report data does not match the candidate's public key.
    AppdataMismatch,
    /// The AEAD encryption of the group secret failed.
    SealFailed,
    /// The sealed message was not produced for this key pair
    /// (tampered, wrong key, or wrong nonce).
    UnsealFailed,
    /// The node holds no group secret yet.
    NotReady,
    /// The bulletin-board coordinator cannot be reached.
    CoordinatorUnreachable,
}

} // verus!
