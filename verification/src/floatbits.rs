use vstd::prelude::*;

verus! {

/// Exponent bits of the IEEE-754 binary64 layout.
pub const F64_EXP_MASK: u64 = 0x7FF0_0000_0000_0000;

/// Fraction (mantissa) bits of the IEEE-754 binary64 layout.
pub const F64_FRAC_MASK: u64 = 0x000F_FFFF_FFFF_FFFF;

/// Everything but the sign bit of the IEEE-754 binary64 layout.
pub const F64_ABS_MASK: u64 = 0x7FFF_FFFF_FFFF_FFFF;

/// Whether a binary64 bit pattern encodes a NaN: all exponent bits set and a
/// non-zero fraction.
pub open spec fn f64_bits_is_nan(bits: u64) -> bool {
    bits & F64_EXP_MASK == F64_EXP_MASK && bits & F64_FRAC_MASK != 0
}

/// Whether a binary64 bit pattern encodes a zero of either sign.
pub open spec fn f64_bits_is_zero(bits: u64) -> bool {
    bits & F64_ABS_MASK == 0
}

/// IEEE-754 `==` on two binary64 values given by their bit patterns: a NaN
/// equals nothing (itself included), the two zeros equal each other, and any
/// other value equals exactly the value with its own bit pattern.
pub open spec fn f64_bits_eq(a: u64, b: u64) -> bool {
    &&& !f64_bits_is_nan(a)
    &&& !f64_bits_is_nan(b)
    &&& (a == b || (f64_bits_is_zero(a) && f64_bits_is_zero(b)))
}

/// Compare two binary64 bit patterns as IEEE-754 `==` compares the values
/// they encode.
pub fn f64_eq_bits(a: u64, b: u64) -> (r: bool)
    ensures
        r == f64_bits_eq(a, b),
{
    let a_nan = (a & F64_EXP_MASK) == F64_EXP_MASK && (a & F64_FRAC_MASK) != 0;
    let b_nan = (b & F64_EXP_MASK) == F64_EXP_MASK && (b & F64_FRAC_MASK) != 0;
    let both_zero = (a & F64_ABS_MASK) == 0 && (b & F64_ABS_MASK) == 0;
    !a_nan && !b_nan && (a == b || both_zero)
}

} // verus!
