//! Single-precision values, held by their bit patterns.
//!
//! The values themselves are computed outside this crate. What is decided
//! here is how two of them compare, and that is read off their bit
//! patterns: sign in the top bit, then exponent and fraction, which taken
//! together as an integer grow with the magnitude of the value.

use vstd::prelude::*;

verus! {

/// The bit that holds the sign.
pub const SIGN_BIT: u32 = 0x8000_0000;

/// The bit pattern of positive infinity. No number has a greater magnitude,
/// and every pattern whose magnitude is greater encodes a NaN.
pub const INFINITY_BITS: u32 = 0x7f80_0000;

/// The bit pattern without its sign.
pub open spec fn magnitude(bits: u32) -> int {
    if bits >= SIGN_BIT {
        bits - SIGN_BIT
    } else {
        bits as int
    }
}

/// Whether the bit pattern encodes a NaN.
pub open spec fn is_nan(bits: u32) -> bool {
    magnitude(bits) > INFINITY_BITS
}

/// The rank of the value that `bits` encodes, or `None` for a NaN.
///
/// A value without the sign bit ranks by its magnitude and one with it by
/// the negated magnitude. Both zeros share the rank 0, and of two numbers
/// the smaller has the lower rank.
pub open spec fn spec_rank(bits: u32) -> Option<i32> {
    if is_nan(bits) {
        None
    } else if bits >= SIGN_BIT {
        Some((-magnitude(bits)) as i32)
    } else {
        Some(magnitude(bits) as i32)
    }
}

/// Ranks the value that `bits` encodes.
pub fn rank(bits: u32) -> (r: Option<i32>)
    ensures
        r == spec_rank(bits),
{
    if bits >= SIGN_BIT {
        let m: u32 = bits - SIGN_BIT;
        if m > INFINITY_BITS {
            None
        } else {
            Some(0 - (m as i32))
        }
    } else if bits > INFINITY_BITS {
        None
    } else {
        Some(bits as i32)
    }
}

} // verus!
