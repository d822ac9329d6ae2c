//! The quote-binding computation of the attestation provider.
//!
//! A quote binds a public key by carrying `H("register" ‖ hex(pubkey))` in
//! its report data. Producing and verifying quotes is the hardware's (or the
//! attestation service's) job, done outside this crate; the hash that both
//! sides must compute, and that every verifier must compare, is verified
//! here.

use vstd::prelude::*;
use crate::digest::{sha256, sha256_of};
use crate::encoding::{hex_bytes, hex_encode};

verus! {

/// The ASCII bytes of the domain-separation prefix `"register"`.
pub open spec fn register_prefix() -> Seq<u8> {
    seq![114u8, 101u8, 103u8, 105u8, 115u8, 116u8, 101u8, 114u8]
}

/// The hash preimage binding a key: `"register" ‖ hex(appdata)`.
pub open spec fn register_preimage(appdata: Seq<u8>) -> Seq<u8> {
    register_prefix() + hex_bytes(appdata)
}

/// The report data that a quote for `appdata` must carry:
/// `H("register" ‖ hex(appdata))`.
pub open spec fn register_digest_of(appdata: Seq<u8>) -> Seq<u8> {
    sha256_of(register_preimage(appdata))
}

/// Computes the report data binding `appdata`:
/// `H("register" ‖ hex(appdata))`.
pub fn register_digest(appdata: &Vec<u8>) -> (r: [u8; 32])
    ensures
        r@ == register_digest_of(appdata@),
{
    let mut preimage: Vec<u8> = Vec::new();
    preimage.push(114u8);  // r
    preimage.push(101u8);  // e
    preimage.push(103u8);  // g
    preimage.push(105u8);  // i
    preimage.push(115u8);  // s
    preimage.push(116u8);  // t
    preimage.push(101u8);  // e
    preimage.push(114u8);  // r
    proof {
        assert(preimage@ =~= register_prefix());
    }
    let mut encoded = hex_encode(appdata);
    preimage.append(&mut encoded);
    proof {
        assert(preimage@ =~= register_preimage(appdata@));
    }
    sha256(&preimage)
}

/// The attestation provider's verified half: what must be hashed into a
/// quote, and how the binding is checked. Producing a quote and verifying
/// its signature chain happen outside, against this computation.
pub struct Attestation {}

impl Attestation {
    pub fn new() -> (r: Self) {
        Attestation {  }
    }

    /// The report data that `get_quote` binds for `appdata`.
    pub fn quote_report_data(&self, appdata: &Vec<u8>) -> (r: [u8; 32])
        ensures
            r@ == register_digest_of(appdata@),
    {
        register_digest(appdata)
    }

    /// Whether a verified quote's report data matches the binding expected
    /// for `appdata` — the comparison every admitting verifier must make.
    pub fn check_binding(&self, report_data: &[u8; 32], appdata: &Vec<u8>) -> (r: bool)
        ensures
            r <==> report_data@ == register_digest_of(appdata@),
    {
        let expected = register_digest(appdata);
        bytes32_eq(report_data, &expected)
    }
}

/// Compares two 32-byte strings.
pub fn bytes32_eq(a: &[u8; 32], b: &[u8; 32]) -> (r: bool)
    ensures
        r <==> a@ == b@,
{
    let mut i: usize = 0;
    while i < 32
        invariant
            i <= 32,
            forall|k: int| 0 <= k < i ==> a@[k] == b@[k],
        decreases 32 - i,
    {
        if a[i] != b[i] {
            return false;
        }
        i = i + 1;
    }
    proof {
        assert(a@ =~= b@);
    }
    true
}

} // verus!
