//! Measured quantities as IEEE 754 binary64 bit patterns.
//!
//! The library carries every measured quantity as the 64 bits of its binary64
//! encoding and compares such encodings exactly as the standard orders the
//! numbers they stand for.

use vstd::prelude::*;

verus! {

/// Two to the power 63: the weight of the sign bit.
pub const SIGN_BIT: u64 = 0x8000_0000_0000_0000;

/// The magnitude of an infinity; larger magnitudes are not numbers.
pub const INFINITY_MAGNITUDE: u64 = 0x7FF0_0000_0000_0000;

/// The encoding of zero.
pub const ZERO: u64 = 0;

/// The encoding of two.
pub const TWO: u64 = 0x4000_0000_0000_0000;

/// The encoding of three.
pub const THREE: u64 = 0x4008_0000_0000_0000;

/// Whether the sign bit of an encoding is set.
pub open spec fn is_negative(bits: u64) -> bool {
    bits >= SIGN_BIT
}

/// The encoding without its sign bit.
pub open spec fn magnitude(bits: u64) -> int {
    if bits >= SIGN_BIT {
        bits - SIGN_BIT
    } else {
        bits as int
    }
}

/// Whether an encoding stands for no number at all.
pub open spec fn is_nan(bits: u64) -> bool {
    magnitude(bits) > INFINITY_MAGNITUDE
}

/// Whether an encoding stands for a finite number.
pub open spec fn is_finite(bits: u64) -> bool {
    magnitude(bits) < INFINITY_MAGNITUDE
}

/// An integer that orders encodings as the numbers they stand for are
/// ordered: binary64 is a sign and a magnitude, and among numbers of one sign
/// a larger magnitude is further from zero. Both zeros have rank 0.
pub open spec fn rank(bits: u64) -> int {
    if is_negative(bits) {
        -magnitude(bits)
    } else {
        magnitude(bits)
    }
}

/// `a <= b` on the numbers that two encodings stand for. As in the standard,
/// nothing compares with an encoding that is not a number.
pub open spec fn le(a: u64, b: u64) -> bool {
    !is_nan(a) && !is_nan(b) && rank(a) <= rank(b)
}

/// Compares two encodings as the numbers they stand for.
pub fn bits_le(a: u64, b: u64) -> (holds: bool)
    ensures
        holds == le(a, b),
{
    let a_neg: bool = a >= SIGN_BIT;
    let b_neg: bool = b >= SIGN_BIT;
    let a_mag: u64 = if a_neg {
        a - SIGN_BIT
    } else {
        a
    };
    let b_mag: u64 = if b_neg {
        b - SIGN_BIT
    } else {
        b
    };
    if a_mag > INFINITY_MAGNITUDE || b_mag > INFINITY_MAGNITUDE {
        false
    } else if a_neg && b_neg {
        b_mag <= a_mag
    } else if a_neg {
        true
    } else if b_neg {
        a_mag == 0 && b_mag == 0
    } else {
        a_mag <= b_mag
    }
}

} // verus!
