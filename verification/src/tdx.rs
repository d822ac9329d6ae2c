//! The TDX-flavoured attestation provider's verified half.
//!
//! TDX report data is 64 bytes; the 32-byte binding hash is padded with
//! zeroes. Talking to the TDX device and verifying quote collateral happen
//! outside this crate.

use vstd::prelude::*;
use crate::attestation::{register_digest, register_digest_of};

verus! {

/// The 64-byte TDX report data for `appdata`: the binding hash, zero-padded.
pub open spec fn padded_report_data_of(appdata: Seq<u8>) -> Seq<u8> {
    register_digest_of(appdata) + Seq::new(32, |i: int| 0u8)
}

/// The TDX attestation provider's verified half: the report data a TDX quote
/// for `appdata` must carry.
pub struct Attestation {}

impl Attestation {
    pub fn new() -> (r: Self) {
        Attestation {  }
    }

    /// The 64-byte report data handed to the TDX quoting device:
    /// `H("register" ‖ hex(appdata))`, zero-padded.
    pub fn padded_report_data(&self, appdata: &Vec<u8>) -> (r: [u8; 64])
        ensures
            r@ == padded_report_data_of(appdata@),
    {
        let digest = register_digest(appdata);
        let mut out = [0u8; 64];
        let mut i: usize = 0;
        while i < 32
            invariant
                i <= 32,
                forall|k: int| 0 <= k < i ==> out@[k] == digest@[k],
                forall|k: int| i <= k < 64 ==> out@[k] == 0u8,
            decreases 32 - i,
        {
            out[i] = digest[i];
            i = i + 1;
        }
        proof {
            assert(out@ =~= padded_report_data_of(appdata@));
        }
        out
    }
}

} // verus!
