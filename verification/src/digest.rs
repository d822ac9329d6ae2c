//! SHA-256 digests, named at the specification level.

use vstd::prelude::*;

verus! {

/// The SHA-256 digest of a byte string. The algorithm itself is not restated
/// here; the name is pinned down only by the trusted wrapper below.
pub uninterp spec fn sha256_of(data: Seq<u8>) -> Seq<u8>;

/// Relies on sha2::Sha256::digest: the 32-byte digest depends on the input
/// bytes alone.
#[verifier::external_body]
pub(crate) fn sha256(data: &Vec<u8>) -> (r: [u8; 32])
    ensures
        r@ == sha256_of(data@),
{
    <sha2::Sha256 as sha2::Digest>::digest(data.as_slice()).into()
}

} // verus!
