//! Bit-pattern model of IEEE-754 double-precision values.
//!
//! The simulation core stores every real-valued quantity as the 64-bit
//! pattern of an IEEE-754 double.  On bit patterns the classifications
//! (NaN, finite, zero) and the comparisons (`==`, `<`, `<=` in the IEEE
//! sense) are exact integer predicates, so all of them are specified and
//! verified here with no trusted code: a pattern is negative exactly when
//! it is at least `SIGN_BIT`, its magnitude field is `abs_bits_of`, and
//! ordering two doubles is ordering their `fkey` integers.

use vstd::prelude::*;

verus! {

/// The sign bit of a double's pattern.
pub const SIGN_BIT: u64 = 0x8000_0000_0000_0000;

/// Magnitude of an infinity: exponent field all ones, fraction zero.
/// Patterns with a larger magnitude field are NaNs, smaller ones are finite.
pub const INF_ABS: u64 = 0x7FF0_0000_0000_0000;

/// Bit pattern of +0.0.
pub const ZERO_BITS: u64 = 0;

/// The pattern with the sign bit cleared: the magnitude field.
pub open spec fn abs_bits_of(b: u64) -> u64 {
    if b >= SIGN_BIT {
        (b - SIGN_BIT) as u64
    } else {
        b
    }
}

/// The pattern encodes a NaN: magnitude above that of an infinity.
pub open spec fn is_nan_b(b: u64) -> bool {
    abs_bits_of(b) > INF_ABS
}

/// The pattern encodes a finite value (zero, subnormal or normal).
pub open spec fn is_finite_b(b: u64) -> bool {
    abs_bits_of(b) < INF_ABS
}

/// The pattern encodes +0.0 or -0.0.
pub open spec fn is_zero_b(b: u64) -> bool {
    abs_bits_of(b) == 0
}

/// An integer key that orders doubles as IEEE-754 orders them: the
/// magnitude for non-negative patterns, its negation for negative ones.
/// Both zeros map to 0, so the key ignores the sign of zero, and larger
/// keys are strictly larger doubles.  NaNs are excluded by the callers.
pub open spec fn fkey(b: u64) -> int {
    if b >= SIGN_BIT {
        -(abs_bits_of(b) as int)
    } else {
        b as int
    }
}

/// IEEE-754 equality of two patterns: false whenever either is a NaN,
/// and true for `-0.0 == +0.0`.
pub open spec fn f64_eq_b(a: u64, b: u64) -> bool {
    &&& !is_nan_b(a)
    &&& !is_nan_b(b)
    &&& fkey(a) == fkey(b)
}

/// IEEE-754 `<` on two patterns: false whenever either is a NaN.
pub open spec fn f64_lt_b(a: u64, b: u64) -> bool {
    &&& !is_nan_b(a)
    &&& !is_nan_b(b)
    &&& fkey(a) < fkey(b)
}

/// IEEE-754 `<=` on two patterns: false whenever either is a NaN.
pub open spec fn f64_le_b(a: u64, b: u64) -> bool {
    &&& !is_nan_b(a)
    &&& !is_nan_b(b)
    &&& fkey(a) <= fkey(b)
}

/// The pattern compares `<= 0.0` in the IEEE sense.
pub open spec fn le_zero_b(b: u64) -> bool {
    f64_le_b(b, ZERO_BITS)
}

/// The pattern compares `> 0.0` in the IEEE sense.
pub open spec fn gt_zero_b(b: u64) -> bool {
    f64_lt_b(ZERO_BITS, b)
}

/// Magnitude field of a pattern: clears the sign bit, which is exactly
/// the IEEE-754 absolute value.
pub fn abs_bits(b: u64) -> (r: u64)
    ensures
        r == abs_bits_of(b),
{
    if b >= SIGN_BIT {
        b - SIGN_BIT
    } else {
        b
    }
}

/// The pattern encodes a NaN.
pub fn is_nan(b: u64) -> (r: bool)
    ensures
        r == is_nan_b(b),
{
    abs_bits(b) > INF_ABS
}

/// The pattern encodes a finite value.
pub fn is_finite(b: u64) -> (r: bool)
    ensures
        r == is_finite_b(b),
{
    abs_bits(b) < INF_ABS
}

/// IEEE-754 equality on patterns.
pub fn f64_eq(a: u64, b: u64) -> (r: bool)
    ensures
        r == f64_eq_b(a, b),
{
    if is_nan(a) || is_nan(b) {
        false
    } else if a >= SIGN_BIT && b >= SIGN_BIT {
        a == b
    } else if a < SIGN_BIT && b < SIGN_BIT {
        a == b
    } else {
        // Opposite sign bits: equal only as -0.0 == +0.0.
        abs_bits(a) == 0 && abs_bits(b) == 0
    }
}

/// IEEE-754 `<` on patterns.
pub fn f64_lt(a: u64, b: u64) -> (r: bool)
    ensures
        r == f64_lt_b(a, b),
{
    if is_nan(a) || is_nan(b) {
        false
    } else if a >= SIGN_BIT && b >= SIGN_BIT {
        // Both negative: the larger magnitude is the smaller double.
        b - SIGN_BIT < a - SIGN_BIT
    } else if a < SIGN_BIT && b < SIGN_BIT {
        a < b
    } else if a >= SIGN_BIT {
        // a negative, b non-negative: strictly below unless both are zeros.
        !(abs_bits(a) == 0 && b == 0)
    } else {
        false
    }
}

/// IEEE-754 `<=` on patterns.
pub fn f64_le(a: u64, b: u64) -> (r: bool)
    ensures
        r == f64_le_b(a, b),
{
    if is_nan(a) || is_nan(b) {
        false
    } else {
        !f64_lt(b, a)
    }
}

/// The pattern compares `<= 0.0`.
pub fn le_zero(b: u64) -> (r: bool)
    ensures
        r == le_zero_b(b),
{
    f64_le(b, ZERO_BITS)
}

/// The pattern compares `> 0.0`.
pub fn gt_zero(b: u64) -> (r: bool)
    ensures
        r == gt_zero_b(b),
{
    f64_lt(ZERO_BITS, b)
}

} // verus!
