//! Sensor readings as IEEE 754 bit patterns.
//!
//! A reading travels through this library as the bit pattern of its
//! floating-point value: 64 bits for a double, 32 for a single, as
//! `to_bits` gives them. Everything here is stated of the three fields of
//! such a pattern: sign, exponent and fraction.

use vstd::prelude::*;

verus! {

/// Sign bit of a 64-bit pattern.
pub const F64_SIGN: u64 = 0x8000_0000_0000_0000;

/// Exponent field of a 64-bit pattern.
pub const F64_EXPONENT: u64 = 0x7ff0_0000_0000_0000;

/// Fraction field of a 64-bit pattern.
pub const F64_FRACTION: u64 = 0x000f_ffff_ffff_ffff;

/// Everything but the sign of a 64-bit pattern.
pub const F64_MAGNITUDE: u64 = 0x7fff_ffff_ffff_ffff;

/// Exponent field of a 32-bit pattern.
pub const F32_EXPONENT: u32 = 0x7f80_0000;

/// Fraction field of a 32-bit pattern.
pub const F32_FRACTION: u32 = 0x007f_ffff;

/// A normal number: the exponent field is neither all zeros (zero and the
/// subnormals) nor all ones (the infinities and NaN).
pub open spec fn f64_is_normal(bits: u64) -> bool {
    bits & F64_EXPONENT != 0 && bits & F64_EXPONENT != F64_EXPONENT
}

/// Not a number: exponent all ones, fraction not zero.
pub open spec fn f64_is_nan(bits: u64) -> bool {
    bits & F64_EXPONENT == F64_EXPONENT && bits & F64_FRACTION != 0
}

/// An infinity: exponent all ones, fraction zero.
pub open spec fn f64_is_infinite(bits: u64) -> bool {
    bits & F64_EXPONENT == F64_EXPONENT && bits & F64_FRACTION == 0
}

/// A reading fit for use: a normal number, or positive zero.
pub open spec fn f64_is_clean(bits: u64) -> bool {
    bits == 0 || f64_is_normal(bits)
}

/// The reading that stands for `bits` once checked: `bits` itself when it is
/// a normal number, positive zero otherwise.
pub open spec fn f64_checked(bits: u64) -> u64 {
    if f64_is_normal(bits) {
        bits
    } else {
        0
    }
}

/// Where a pattern lies on the number line relative to others: its magnitude
/// bits as an integer, negated under a set sign bit. For two patterns of
/// which neither is a NaN, the smaller number has the smaller position, and
/// the two zeros share position 0.
pub open spec fn f64_position(bits: u64) -> int {
    if bits & F64_SIGN == 0 {
        bits as int
    } else {
        -((bits & F64_MAGNITUDE) as int)
    }
}

/// Greater than zero: sign clear, not zero, not a NaN.
pub open spec fn f64_is_positive(bits: u64) -> bool {
    bits & F64_SIGN == 0 && bits != 0 && !f64_is_nan(bits)
}

/// A normal single: the exponent field is neither all zeros nor all ones.
pub open spec fn f32_is_normal(bits: u32) -> bool {
    bits & F32_EXPONENT != 0 && bits & F32_EXPONENT != F32_EXPONENT
}

/// Not a number, as a single.
pub open spec fn f32_is_nan(bits: u32) -> bool {
    bits & F32_EXPONENT == F32_EXPONENT && bits & F32_FRACTION != 0
}

/// An infinity, as a single.
pub open spec fn f32_is_infinite(bits: u32) -> bool {
    bits & F32_EXPONENT == F32_EXPONENT && bits & F32_FRACTION == 0
}

/// The single that stands for `bits` once checked.
pub open spec fn f32_checked(bits: u32) -> u32 {
    if f32_is_normal(bits) {
        bits
    } else {
        0
    }
}

/// Positive zero is not a normal number.
pub proof fn lemma_zero_is_not_normal()
    ensures
        !f64_is_normal(0),
        !f32_is_normal(0),
{
    assert(0u64 & 0x7ff0_0000_0000_0000u64 == 0) by (bit_vector);
    assert(0u32 & 0x7f80_0000u32 == 0) by (bit_vector);
}

/// Checking a reading twice changes nothing over checking it once.
pub proof fn lemma_checked_twice(bits: u64)
    ensures
        f64_checked(f64_checked(bits)) == f64_checked(bits),
        f64_is_clean(f64_checked(bits)),
{
    lemma_zero_is_not_normal();
}

/// A NaN or an infinity is checked to positive zero.
pub proof fn lemma_checked_non_finite(bits: u64)
    requires
        f64_is_nan(bits) || f64_is_infinite(bits),
    ensures
        f64_checked(bits) == 0,
{
}

/// Checking a single twice changes nothing over checking it once.
pub proof fn lemma_checked_twice_f32(bits: u32)
    ensures
        f32_checked(f32_checked(bits)) == f32_checked(bits),
{
    lemma_zero_is_not_normal();
}

/// A NaN or an infinity, as a single, is checked to positive zero.
pub proof fn lemma_checked_non_finite_f32(bits: u32)
    requires
        f32_is_nan(bits) || f32_is_infinite(bits),
    ensures
        f32_checked(bits) == 0,
{
}

/// Replaces a reading that is not a normal number by positive zero.
pub fn validate_f64(val: u64) -> (r: u64)
    ensures
        r == f64_checked(val),
        f64_checked(r) == r,
        f64_is_clean(r),
        f64_is_nan(val) || f64_is_infinite(val) ==> r == 0,
{
    proof {
        lemma_checked_twice(val);
    }
    let exponent = val & F64_EXPONENT;
    if exponent != 0 && exponent != F64_EXPONENT {
        val
    } else {
        0
    }
}

/// Replaces a single that is not a normal number by positive zero.
pub fn validate_f32(val: u32) -> (r: u32)
    ensures
        r == f32_checked(val),
        f32_checked(r) == r,
        f32_is_nan(val) || f32_is_infinite(val) ==> r == 0,
{
    proof {
        lemma_checked_twice_f32(val);
    }
    let exponent = val & F32_EXPONENT;
    if exponent != 0 && exponent != F32_EXPONENT {
        val
    } else {
        0
    }
}

/// The position of a pattern on the number line.
fn position(bits: u64) -> (r: i128)
    ensures
        r == f64_position(bits),
{
    if bits & F64_SIGN == 0 {
        bits as i128
    } else {
        let magnitude: u64 = bits & F64_MAGNITUDE;
        -(magnitude as i128)
    }
}

/// Whether `a` is the smaller of two readings, neither of them a NaN.
pub fn f64_less(a: u64, b: u64) -> (r: bool)
    ensures
        r == (f64_position(a) < f64_position(b)),
{
    position(a) < position(b)
}

/// Whether a reading is greater than zero.
pub fn f64_positive(bits: u64) -> (r: bool)
    ensures
        r == f64_is_positive(bits),
{
    bits & F64_SIGN == 0 && bits != 0 && !(bits & F64_EXPONENT == F64_EXPONENT && bits
        & F64_FRACTION != 0)
}

} // verus!
