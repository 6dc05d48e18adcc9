//! Integer mixing stage of the stochastic alpha test.
//!
//! Primitives with partial coverage (`alpha < 1`) decide hit-versus-pass per
//! intersection from a hash of the hit point, so the decision is stable for
//! the same point instead of flickering between shadow and camera rays. The
//! renderer feeds the three coordinate bit patterns in; the mix itself is
//! pure 32-bit arithmetic and is specified exactly.

use vstd::prelude::*;

verus! {

/// The mixed word `hash_bits` produces: the xor of the inputs sent through
/// a multiply-rotate-multiply avalanche, then three xorshift-multiply
/// finalizer rounds.
pub open spec fn hash_bits_spec(ix: u32, iy: u32, iz: u32) -> u32 {
    let h0 = (ix ^ iy ^ iz).wrapping_mul(0xcc9e2d51);
    let h1 = (h0 << 13) | (h0 >> 19);
    let h2 = h1.wrapping_mul(0x1b873593);
    let h3 = h2 ^ (h2 >> 16);
    let h4 = h3.wrapping_mul(0x85ebca6b);
    let h5 = h4 ^ (h4 >> 13);
    let h6 = h5.wrapping_mul(0xc2b2ae35);
    h6 ^ (h6 >> 16)
}

/// Mix three 32-bit words into one well-scrambled word.
pub fn hash_bits(ix: u32, iy: u32, iz: u32) -> (h: u32)
    ensures
        h == hash_bits_spec(ix, iy, iz),
{
    let mut h: u32 = (ix ^ iy ^ iz).wrapping_mul(0xcc9e2d51);
    h = (h << 13) | (h >> 19);
    h = h.wrapping_mul(0x1b873593);
    h = h ^ (h >> 16);
    h = h.wrapping_mul(0x85ebca6b);
    h = h ^ (h >> 13);
    h = h.wrapping_mul(0xc2b2ae35);
    h ^ (h >> 16)
}

} // verus!
