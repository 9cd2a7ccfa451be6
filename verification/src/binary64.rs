//! The IEEE-754 binary64 encoding, as far as the loan rules read it.
//!
//! A pattern has a sign (the top bit) and a magnitude (the other 63 bits).
//! Magnitudes up to `INFINITY` are numbers, and among them a larger
//! magnitude is a larger absolute value; magnitudes above it are not numbers.

use vstd::prelude::*;

verus! {

/// The pattern of `+0.0`.
pub const ZERO: u64 = 0;

/// The pattern of `-0.0`: the sign bit alone.
pub const SIGN: u64 = 0x8000_0000_0000_0000;

/// The pattern of `1.0`.
pub const ONE: u64 = 0x3FF0_0000_0000_0000;

/// The pattern of `12.0`.
pub const TWELVE: u64 = 0x4028_0000_0000_0000;

/// The pattern of positive infinity, the largest magnitude that is a number.
pub const INFINITY: u64 = 0x7FF0_0000_0000_0000;

/// Whether the sign bit of `bits` is set.
pub open spec fn sign_set(bits: u64) -> bool {
    bits >= SIGN
}

/// The 63 bits below the sign.
pub open spec fn magnitude(bits: u64) -> int {
    bits as int % (SIGN as int)
}

/// Whether `bits` encodes no number.
pub open spec fn is_nan(bits: u64) -> bool {
    magnitude(bits) > INFINITY
}

/// Whether `bits` encodes zero, of either sign.
pub open spec fn is_zero(bits: u64) -> bool {
    magnitude(bits) == 0
}

/// Whether `bits` encodes a number strictly less than zero.
pub open spec fn is_below_zero(bits: u64) -> bool {
    sign_set(bits) && !is_nan(bits) && !is_zero(bits)
}

/// Whether `bits` encodes a number between zero and one, both included.
pub open spec fn is_fraction(bits: u64) -> bool {
    is_zero(bits) || (!sign_set(bits) && magnitude(bits) <= ONE)
}

/// Decides `is_zero`.
pub fn zero(bits: u64) -> (r: bool)
    ensures
        r == is_zero(bits),
{
    bits == ZERO || bits == SIGN
}

/// Decides `is_below_zero`.
pub fn below_zero(bits: u64) -> (r: bool)
    ensures
        r == is_below_zero(bits),
{
    SIGN < bits && bits <= 0xFFF0_0000_0000_0000
}

/// Decides `is_fraction`.
pub fn fraction(bits: u64) -> (r: bool)
    ensures
        r == is_fraction(bits),
{
    bits <= ONE || bits == SIGN
}

} // verus!
