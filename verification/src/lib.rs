//! Verified core of a confidential-computing cluster: attestation-gated
//! admission of new nodes and replication of a shared group secret.
//!
//! A joining node generates an ephemeral keypair, obtains a hardware quote
//! binding its public key, and either bootstraps a new group or registers and
//! waits for an existing member to seal the group secret to its key. An
//! admitting member re-verifies the quote binding and seals the secret with an
//! authenticated Diffie-Hellman exchange. The surrounding process (transport,
//! attestation hardware, the bulletin-board chain) stays outside this crate;
//! the decisions, the data model and the sealing scheme are verified here.

pub mod attestation;
pub mod contract;
pub mod crypto;
pub mod digest;
pub mod encoding;
pub mod errors;
pub mod guest;
pub mod host;
pub mod quotes;
pub mod records;
pub mod tdx;
