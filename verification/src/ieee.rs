//! The order of IEEE-754 doubles, read off their bit patterns.
//!
//! A double is a sign bit followed by 63 bits of magnitude (exponent, then
//! mantissa). Leaving the NaNs aside, doubles are ordered as their
//! sign-magnitude integers are: the magnitudes compare as unsigned integers,
//! and a set sign bit negates. Both zeros have magnitude zero and are equal.
use vstd::prelude::*;

verus! {

/// The bit pattern of `0.0`.
pub const ZERO: u64 = 0;

/// The bit pattern of `1.0`.
pub const ONE: u64 = 0x3FF0_0000_0000_0000;

/// The bit pattern of positive infinity, the largest magnitude that is a number.
pub const INFINITY: u64 = 0x7FF0_0000_0000_0000;

/// The sign bit.
pub const SIGN: u64 = 0x8000_0000_0000_0000;

/// Whether the sign bit of `bits` is set.
pub open spec fn is_negative(bits: u64) -> bool {
    bits >= SIGN
}

/// The 63 low bits of `bits`, as an integer.
pub open spec fn magnitude(bits: u64) -> int {
    if bits >= SIGN {
        bits - SIGN
    } else {
        bits as int
    }
}

/// Whether `bits` is a NaN: its magnitude lies above that of infinity.
pub open spec fn is_nan(bits: u64) -> bool {
    magnitude(bits) > INFINITY
}

/// The integer by which the number `bits` is ordered.
pub open spec fn order_key(bits: u64) -> int {
    if is_negative(bits) {
        -magnitude(bits)
    } else {
        magnitude(bits)
    }
}

/// `a <= b` as doubles: false as soon as one of them is a NaN.
pub open spec fn real_le(a: u64, b: u64) -> bool {
    !is_nan(a) && !is_nan(b) && order_key(a) <= order_key(b)
}

/// `a < b` as doubles: false as soon as one of them is a NaN.
pub open spec fn real_lt(a: u64, b: u64) -> bool {
    !is_nan(a) && !is_nan(b) && order_key(a) < order_key(b)
}

/// Whether the double `bits` lies in the closed interval from 0 to 1.
pub open spec fn is_probability(bits: u64) -> bool {
    real_le(ZERO, bits) && real_le(bits, ONE)
}

/// Whether the double `bits` is at most zero.
pub open spec fn is_non_positive(bits: u64) -> bool {
    real_le(bits, ZERO)
}

/// The magnitude of `bits`.
pub fn magnitude_of(bits: u64) -> (m: u64)
    ensures
        m == magnitude(bits),
{
    if bits >= SIGN {
        bits - SIGN
    } else {
        bits
    }
}

/// Compares two doubles by their bit patterns.
pub fn le(a: u64, b: u64) -> (r: bool)
    ensures
        r == real_le(a, b),
{
    let ma: u64 = magnitude_of(a);
    let mb: u64 = magnitude_of(b);
    if ma > INFINITY || mb > INFINITY {
        false
    } else if a >= SIGN {
        b < SIGN || mb <= ma
    } else {
        if b >= SIGN {
            ma == 0 && mb == 0
        } else {
            ma <= mb
        }
    }
}

/// Compares two doubles strictly by their bit patterns.
pub fn lt(a: u64, b: u64) -> (r: bool)
    ensures
        r == real_lt(a, b),
{
    let ma: u64 = magnitude_of(a);
    let mb: u64 = magnitude_of(b);
    if ma > INFINITY || mb > INFINITY {
        false
    } else if a >= SIGN {
        if b >= SIGN {
            mb < ma
        } else {
            ma > 0 || mb > 0
        }
    } else {
        b < SIGN && ma < mb
    }
}

/// Tells whether a double lies in the closed interval from 0 to 1.
pub fn in_unit_interval(bits: u64) -> (r: bool)
    ensures
        r == is_probability(bits),
{
    le(ZERO, bits) && le(bits, ONE)
}

/// Tells whether a double is at most zero.
pub fn non_positive(bits: u64) -> (r: bool)
    ensures
        r == is_non_positive(bits),
{
    le(bits, ZERO)
}

/// The order of doubles is reflexive on numbers, transitive, and total on numbers.
pub proof fn lemma_real_le_is_an_order(a: u64, b: u64, c: u64)
    ensures
        !is_nan(a) ==> real_le(a, a),
        real_le(a, b) && real_le(b, c) ==> real_le(a, c),
        !is_nan(a) && !is_nan(b) ==> real_le(a, b) || real_le(b, a),
        real_lt(a, b) <==> real_le(a, b) && !real_le(b, a),
{
}

} // verus!
