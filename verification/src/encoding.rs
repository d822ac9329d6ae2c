//! Lowercase hexadecimal encoding of byte strings.
//!
//! The protocol hashes hex-encoded keys into quote report data and derived
//! keys, so the encoding is part of the verified core: it is implemented here
//! and proved against the spec-level [`hex_bytes`].

use vstd::prelude::*;

verus! {

/// The ASCII byte of the lowercase hex digit for a nibble.
pub open spec fn hex_digit(n: u8) -> u8
    recommends
        n < 16,
{
    if n < 10 {
        (48 + n) as u8
    } else {
        (87 + n) as u8
    }
}

/// Lowercase hex encoding of a byte string: two ASCII digits per byte,
/// high nibble first.
pub open spec fn hex_bytes(data: Seq<u8>) -> Seq<u8>
    decreases data.len(),
{
    if data.len() == 0 {
        Seq::empty()
    } else {
        seq![hex_digit(data[0] / 16), hex_digit(data[0] % 16)] + hex_bytes(data.skip(1))
    }
}

/// Appending one byte appends its two digits.
proof fn lemma_hex_bytes_push(data: Seq<u8>, x: u8)
    ensures
        hex_bytes(data.push(x)) == hex_bytes(data) + seq![hex_digit(x / 16), hex_digit(x % 16)],
    decreases data.len(),
{
    if data.len() == 0 {
        reveal_with_fuel(hex_bytes, 3);
        assert(data.push(x)[0] == x);
        assert(data.push(x).skip(1) =~= Seq::<u8>::empty());
        assert(hex_bytes(data.push(x)) =~= hex_bytes(data) + seq![
            hex_digit(x / 16),
            hex_digit(x % 16),
        ]);
    } else {
        assert(data.push(x).skip(1) =~= data.skip(1).push(x));
        lemma_hex_bytes_push(data.skip(1), x);
        assert(hex_bytes(data.push(x)) =~= hex_bytes(data) + seq![
            hex_digit(x / 16),
            hex_digit(x % 16),
        ]);
    }
}

/// Encodes a byte string as lowercase ASCII hex.
pub fn hex_encode(data: &Vec<u8>) -> (r: Vec<u8>)
    ensures
        r@ == hex_bytes(data@),
{
    let mut r: Vec<u8> = Vec::new();
    let mut i: usize = 0;
    while i < data.len()
        invariant
            i <= data@.len(),
            r@ == hex_bytes(data@.take(i as int)),
        decreases data@.len() - i,
    {
        let b = data[i];
        let hi = b / 16;
        let lo = b % 16;
        let hi_digit: u8 = if hi < 10 {
            48 + hi
        } else {
            87 + hi
        };
        let lo_digit: u8 = if lo < 10 {
            48 + lo
        } else {
            87 + lo
        };
        r.push(hi_digit);
        r.push(lo_digit);
        proof {
            assert(data@.take(i + 1) =~= data@.take(i as int).push(data@[i as int]));
            lemma_hex_bytes_push(data@.take(i as int), data@[i as int]);
        }
        i = i + 1;
    }
    proof {
        assert(data@.take(data@.len() as int) =~= data@);
    }
    r
}

} // verus!
