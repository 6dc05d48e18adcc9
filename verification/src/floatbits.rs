//! Bit-level stepping to adjacent float values.
//!
//! The interval arithmetic that bounds rounding error needs the next
//! representable float above or below a value. On the IEEE 754 bit pattern
//! that step is pure integer work, pinned down here case by case; the
//! renderer converts through `to_bits` and `from_bits` around it.
//!
//! Encoding facts used below, for 32-bit floats: the top bit is the sign;
//! a magnitude (the low 31 bits) of `0x7f80_0000` is an infinity, above it
//! a NaN, zero is a zero; for finite values of one sign, larger magnitude
//! bits mean larger magnitude values.

use vstd::prelude::*;

verus! {

/// Bit pattern of positive infinity.
pub const F32_BITS_POS_INFINITY: u32 = 0x7f80_0000;

/// Bit pattern of negative infinity.
pub const F32_BITS_NEG_INFINITY: u32 = 0xff80_0000;

/// Whether a bit pattern encodes a NaN: infinite exponent, nonzero
/// mantissa.
pub open spec fn f32_bits_is_nan(bits: u32) -> bool {
    (bits & 0x7fff_ffff) > 0x7f80_0000
}

/// Whether a bit pattern encodes one of the two zeros.
pub open spec fn f32_bits_is_zero(bits: u32) -> bool {
    (bits & 0x7fff_ffff) == 0
}

/// Whether the encoded value compares greater than or equal to zero:
/// sign bit clear and not a NaN (a NaN compares false with everything).
/// The zeros are handled before this test is reached.
pub open spec fn f32_bits_ge_zero(bits: u32) -> bool {
    bits < 0x8000_0000 && !f32_bits_is_nan(bits)
}

/// The bit pattern of the next float toward positive infinity: positive
/// infinity stays, either zero becomes positive zero, and otherwise the
/// pattern steps up for values at least zero and down for the rest.
pub open spec fn next_up_bits_spec(bits: u32) -> u32 {
    if bits == F32_BITS_POS_INFINITY {
        bits
    } else if f32_bits_is_zero(bits) {
        0u32
    } else if f32_bits_ge_zero(bits) {
        (bits + 1) as u32
    } else {
        (bits - 1) as u32
    }
}

/// The bit pattern of the next float toward negative infinity: negative
/// infinity stays, either zero becomes negative zero, and otherwise the
/// pattern steps down for values greater than zero and up for the rest.
pub open spec fn next_down_bits_spec(bits: u32) -> u32 {
    if bits == F32_BITS_NEG_INFINITY {
        bits
    } else if f32_bits_is_zero(bits) {
        0x8000_0000u32
    } else if f32_bits_ge_zero(bits) {
        (bits - 1) as u32
    } else {
        (bits + 1) as u32
    }
}

/// Step a float bit pattern to the next representable value toward
/// positive infinity.
pub fn next_up_bits(bits: u32) -> (r: u32)
    ensures
        r == next_up_bits_spec(bits),
{
    if bits == F32_BITS_POS_INFINITY {
        bits
    } else if bits & 0x7fff_ffff == 0 {
        0
    } else if bits < 0x8000_0000 && !(bits & 0x7fff_ffff > 0x7f80_0000) {
        proof {
            assert(bits < 0x8000_0000 ==> bits + 1 <= u32::MAX) by (bit_vector);
        }
        bits + 1
    } else {
        proof {
            assert(!(bits & 0x7fff_ffff == 0) ==> bits >= 1) by (bit_vector);
        }
        bits - 1
    }
}

/// Step a float bit pattern to the next representable value toward
/// negative infinity. The all-ones pattern (a negative NaN) is excluded:
/// stepping it would need a 33rd bit.
pub fn next_down_bits(bits: u32) -> (r: u32)
    requires
        bits != 0xffff_ffffu32,
    ensures
        r == next_down_bits_spec(bits),
{
    if bits == F32_BITS_NEG_INFINITY {
        bits
    } else if bits & 0x7fff_ffff == 0 {
        0x8000_0000
    } else if bits < 0x8000_0000 && !(bits & 0x7fff_ffff > 0x7f80_0000) {
        proof {
            assert(!(bits & 0x7fff_ffff == 0) ==> bits >= 1) by (bit_vector);
        }
        bits - 1
    } else {
        bits + 1
    }
}

} // verus!
