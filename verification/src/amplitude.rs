//! Ordering of IEEE-754 binary32 values, read from their bit patterns.

use vstd::prelude::*;

verus! {

/// Mask of the exponent and fraction bits of a binary32 pattern.
pub const MAGNITUDE_MASK: u32 = 0x7fff_ffff;

/// Mask of the sign bit of a binary32 pattern.
pub const SIGN_MASK: u32 = 0x8000_0000;

/// Pattern of positive infinity; every larger magnitude is a NaN.
pub const INFINITY_BITS: u32 = 0x7f80_0000;

/// The pattern with its sign bit cleared.
pub open spec fn magnitude(bits: u32) -> u32 {
    bits & 0x7fff_ffff
}

/// Whether the pattern has its sign bit set.
pub open spec fn is_negative(bits: u32) -> bool {
    bits & 0x8000_0000 != 0
}

/// Whether the pattern encodes a NaN.
pub open spec fn is_nan(bits: u32) -> bool {
    magnitude(bits) > 0x7f80_0000
}

/// Position of a non-NaN pattern on the number line: patterns encode
/// sign and magnitude, and both zeros stand at 0.
pub open spec fn rank(bits: u32) -> int {
    if is_negative(bits) {
        -(magnitude(bits) as int)
    } else {
        magnitude(bits) as int
    }
}

/// `a > b` as binary32 comparison defines it: false when either side is a
/// NaN, otherwise the order of the encoded numbers.
pub open spec fn greater(a: u32, b: u32) -> bool {
    !is_nan(a) && !is_nan(b) && rank(a) > rank(b)
}

/// Decides `a > b` for two binary32 values given by their bit patterns.
pub fn exceeds(a: u32, b: u32) -> (r: bool)
    ensures
        r == greater(a, b),
{
    let ma: u32 = a & MAGNITUDE_MASK;
    let mb: u32 = b & MAGNITUDE_MASK;
    if ma > INFINITY_BITS || mb > INFINITY_BITS {
        return false;
    }
    let a_negative = a & SIGN_MASK != 0;
    let b_negative = b & SIGN_MASK != 0;
    if a_negative {
        b_negative && ma < mb
    } else if b_negative {
        ma > 0 || mb > 0
    } else {
        ma > mb
    }
}

/// On non-negative numbers the order of the values is the order of the
/// patterns as unsigned integers.
pub proof fn lemma_greater_on_nonnegative(a: u32, b: u32)
    requires
        a <= 0x7f80_0000,
        b <= 0x7f80_0000,
    ensures
        greater(a, b) == (a > b),
{
    assert(a <= 0x7f80_0000u32 ==> (a & 0x7fff_ffff) == a && (a & 0x8000_0000) == 0) by (bit_vector);
    assert(b <= 0x7f80_0000u32 ==> (b & 0x7fff_ffff) == b && (b & 0x8000_0000) == 0) by (bit_vector);
}

/// No value exceeds itself, so an energy equal to a threshold does not pass it.
pub proof fn lemma_greater_is_strict(a: u32, b: u32)
    ensures
        !greater(a, a),
        greater(a, b) ==> !greater(b, a),
{
}

} // verus!
