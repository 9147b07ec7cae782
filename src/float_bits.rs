//! Classification of IEEE 754 single-precision values given as bit patterns.

use vstd::prelude::*;

verus! {

/// Bit pattern of positive infinity.
pub const POSITIVE_INFINITY_BITS: u32 = 0x7f80_0000;

/// Sign bit of a single-precision bit pattern.
pub open spec fn sign_of(bits: u32) -> u32 {
    bits >> 31u32
}

/// Biased exponent field of a single-precision bit pattern.
pub open spec fn exponent_of(bits: u32) -> u32 {
    (bits >> 23u32) & 0xffu32
}

/// Fraction field of a single-precision bit pattern.
pub open spec fn fraction_of(bits: u32) -> u32 {
    bits & 0x7f_ffffu32
}

pub open spec fn is_nan(bits: u32) -> bool {
    exponent_of(bits) == 0xff && fraction_of(bits) != 0
}

pub open spec fn is_finite(bits: u32) -> bool {
    exponent_of(bits) != 0xff
}

/// Positive or negative zero.
pub open spec fn is_zero(bits: u32) -> bool {
    exponent_of(bits) == 0 && fraction_of(bits) == 0
}

/// The value is strictly greater than zero (positive infinity included).
pub open spec fn is_positive(bits: u32) -> bool {
    sign_of(bits) == 0 && !is_nan(bits) && !is_zero(bits)
}

/// IEEE equality: NaN equals nothing, and the two zeros are equal.
pub open spec fn float_eq(a: u32, b: u32) -> bool {
    !is_nan(a) && !is_nan(b) && (a == b || (is_zero(a) && is_zero(b)))
}

/// Whether the value `bits` stands for is greater than zero.
pub fn is_positive_value(bits: u32) -> (r: bool)
    ensures
        r == is_positive(bits),
{
    let r = 0 < bits && bits <= POSITIVE_INFINITY_BITS;
    assert(r == is_positive(bits)) by (bit_vector)
        requires
            r == (0u32 < bits && bits <= 0x7f80_0000u32),
    ;
    r
}

/// Whether the value `bits` stands for is finite (neither infinite nor NaN).
pub fn is_finite_value(bits: u32) -> (r: bool)
    ensures
        r == is_finite(bits),
{
    let r = (bits & POSITIVE_INFINITY_BITS) != POSITIVE_INFINITY_BITS;
    assert(r == is_finite(bits)) by (bit_vector)
        requires
            r == ((bits & 0x7f80_0000u32) != 0x7f80_0000u32),
    ;
    r
}

/// Whether the values `a` and `b` stand for compare equal.
pub fn values_equal(a: u32, b: u32) -> (r: bool)
    ensures
        r == float_eq(a, b),
{
    let a_nan = (a & 0x7fff_ffff) > POSITIVE_INFINITY_BITS;
    let b_nan = (b & 0x7fff_ffff) > POSITIVE_INFINITY_BITS;
    let zeros = (a & 0x7fff_ffff) == 0 && (b & 0x7fff_ffff) == 0;
    let r = !a_nan && !b_nan && (a == b || zeros);
    assert(r == float_eq(a, b)) by (bit_vector)
        requires
            r == (!((a & 0x7fff_ffffu32) > 0x7f80_0000u32) && !((b & 0x7fff_ffffu32)
                > 0x7f80_0000u32) && (a == b || ((a & 0x7fff_ffffu32) == 0u32 && (b
                & 0x7fff_ffffu32) == 0u32))),
    ;
    r
}

} // verus!
