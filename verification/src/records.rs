//! The records exchanged through the bulletin-board coordinator.

use vstd::prelude::*;

verus! {

/// A pending registration: a joining node's public key and quote, with the
/// ledger timestamp at which it was posted. Relays read these and never
/// delete them; each relay keeps its own watermark over `at_time`.
#[derive(Clone)]
pub struct PendingObject {
    pub pubkey: Vec<u8>,
    pub quote: Vec<u8>,
    pub at_time: i64,
}

/// A completed admission: the group secret sealed to `node_pubkey`, with the
/// ledger timestamp. Posted by whichever relay processed the registration
/// first; duplicates for one key are possible and tolerated.
#[derive(Clone)]
pub struct OnboardedObject {
    pub node_pubkey: Vec<u8>,
    pub shared_secret: Vec<u8>,
    pub at_time: i64,
}

} // verus!
