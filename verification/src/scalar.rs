// Single-precision scalars, carried as IEEE-754 bit patterns.
//
// The engine never does arithmetic on a scalar: it stores them, hands them to
// the renderer, and compares a few of them when a camera is configured. For
// that a 32-bit pattern is enough, and for two positive numbers the order of
// the patterns is the order of the numbers.

use vstd::prelude::*;

verus! {

/// 0.0
pub const ZERO: u32 = 0;

/// -0.0
pub const NEGATIVE_ZERO: u32 = 0x8000_0000;

/// 1.0
pub const ONE: u32 = 0x3F80_0000;

/// -1.0
pub const MINUS_ONE: u32 = 0xBF80_0000;

/// Positive infinity. Every pattern above it, up to `NEGATIVE_ZERO`
/// exclusive, is a NaN.
pub const INFINITY: u32 = 0x7F80_0000;

/// The single-precision number nearest to pi.
pub const PI: u32 = 0x4049_0FDB;

/// `bits` is 0.0 or -0.0.
pub open spec fn spec_is_zero(bits: u32) -> bool {
    bits == ZERO || bits == NEGATIVE_ZERO
}

/// `bits` is a number greater than zero, infinity included, and no NaN.
pub open spec fn spec_is_positive(bits: u32) -> bool {
    ZERO < bits <= INFINITY
}

/// `a < b` for two scalars of which `a` is positive: on positive numbers the
/// patterns are ordered as the numbers are, and a NaN is above neither.
pub open spec fn spec_positive_less(a: u32, b: u32) -> bool {
    spec_is_positive(a) && a < b && b <= INFINITY
}

pub fn is_zero(bits: u32) -> (zero: bool)
    ensures
        zero == spec_is_zero(bits),
{
    bits == ZERO || bits == NEGATIVE_ZERO
}

pub fn is_positive(bits: u32) -> (positive: bool)
    ensures
        positive == spec_is_positive(bits),
{
    ZERO < bits && bits <= INFINITY
}

pub fn positive_less(a: u32, b: u32) -> (less: bool)
    ensures
        less == spec_positive_less(a, b),
{
    ZERO < a && a < b && b <= INFINITY
}

} // verus!
