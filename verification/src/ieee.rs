//! Order and classes of IEEE-754 values, read off their bit patterns.
//!
//! A binary64 value is held in a `u64`, a binary32 value in a `u32`, exactly as
//! `to_bits` gives them. The top bit is the sign, the rest the magnitude; the
//! magnitudes above that of infinity are the NaNs.

use vstd::prelude::*;

verus! {

/// The sign bit of a binary64 pattern.
pub const SIGN: u64 = 0x8000_0000_0000_0000;

/// The pattern of positive infinity; every larger magnitude is a NaN.
pub const INFINITY: u64 = 0x7FF0_0000_0000_0000;

/// The pattern of `1.0`.
pub const ONE: u64 = 0x3FF0_0000_0000_0000;

/// The pattern of `+0.0`.
pub const ZERO: u64 = 0;

/// The sign bit of a binary32 pattern.
pub const SIGN32: u32 = 0x8000_0000;

/// The binary32 pattern of positive infinity.
pub const INFINITY32: u32 = 0x7F80_0000;

/// The pattern with the sign bit cleared.
pub open spec fn magnitude(x: u64) -> u64 {
    if x >= SIGN {
        (x - SIGN) as u64
    } else {
        x
    }
}

/// Whether the sign bit is set (true of `-0.0` and of half of the NaNs too).
pub open spec fn sign_set(x: u64) -> bool {
    x >= SIGN
}

/// Whether the pattern is one of the NaNs.
pub open spec fn is_nan(x: u64) -> bool {
    magnitude(x) > INFINITY
}

/// Whether the value is `+0.0` or `-0.0`.
pub open spec fn is_zero(x: u64) -> bool {
    magnitude(x) == 0
}

/// The place of a value that is not a NaN on the number line: magnitudes grow
/// with the value they encode, so the signed magnitude orders the patterns as
/// the values are ordered, with both zeros at 0.
pub open spec fn rank(x: u64) -> int {
    if sign_set(x) {
        -(magnitude(x) as int)
    } else {
        magnitude(x) as int
    }
}

/// `a < b` as IEEE-754 defines it: false as soon as either side is a NaN.
pub open spec fn lt(a: u64, b: u64) -> bool {
    !is_nan(a) && !is_nan(b) && rank(a) < rank(b)
}

/// The binary32 pattern with the sign bit cleared.
pub open spec fn magnitude32(x: u32) -> u32 {
    if x >= SIGN32 {
        (x - SIGN32) as u32
    } else {
        x
    }
}

/// `x < 0.0` for a binary32 pattern: the sign is set and the value is neither a
/// zero nor a NaN.
pub open spec fn is_negative32(x: u32) -> bool {
    x >= SIGN32 && 0 < magnitude32(x) <= INFINITY32
}

/// Clears the sign bit: the pattern of the absolute value.
pub fn clear_sign(x: u64) -> (m: u64)
    ensures
        m == magnitude(x),
{
    if x >= SIGN {
        x - SIGN
    } else {
        x
    }
}

/// Decides `x == 0.0` on the pattern.
pub fn check_zero(x: u64) -> (r: bool)
    ensures
        r == is_zero(x),
{
    clear_sign(x) == 0
}

/// Decides `a < b` on the patterns.
pub fn less_than(a: u64, b: u64) -> (r: bool)
    ensures
        r == lt(a, b),
{
    let ma: u64 = clear_sign(a);
    let mb: u64 = clear_sign(b);
    if ma > INFINITY || mb > INFINITY {
        false
    } else if a >= SIGN {
        if b >= SIGN {
            mb < ma
        } else {
            ma > 0 || mb > 0
        }
    } else {
        b < SIGN && ma < mb
    }
}

/// Decides `x < 0.0` on a binary32 pattern.
pub fn check_negative32(x: u32) -> (r: bool)
    ensures
        r == is_negative32(x),
{
    x > SIGN32 && x - SIGN32 <= INFINITY32
}

} // verus!
