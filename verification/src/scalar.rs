//! Binary32 numbers as bit patterns: classification, the canonical form that
//! folds every NaN into one pattern, and the strict order of the numbers.

use vstd::prelude::*;

verus! {

/// All bits but the sign.
pub const MAGNITUDE_MASK: u32 = 0x7fff_ffff;

/// Positive infinity; every pattern whose magnitude lies above it is a NaN.
pub const INFINITY: u32 = 0x7f80_0000;

/// The one NaN pattern that canonical values use.
pub const CANONICAL_NAN: u32 = 0x7fc0_0000;

/// The closest binary32 number to pi; it lies just above pi.
pub const PI: u32 = 0x4049_0fdb;

/// The number -1.
pub const NEGATIVE_ONE: u32 = 0xbf80_0000;

/// The pattern with its sign bit cleared.
pub open spec fn magnitude(bits: u32) -> u32 {
    bits & MAGNITUDE_MASK
}

/// Whether the pattern encodes a NaN.
pub open spec fn is_nan(bits: u32) -> bool {
    magnitude(bits) > INFINITY
}

/// Whether the sign bit is set.
pub open spec fn is_negative(bits: u32) -> bool {
    bits > MAGNITUDE_MASK
}

/// The pattern itself, or `CANONICAL_NAN` in place of any NaN.
pub open spec fn canonical(bits: u32) -> u32 {
    if is_nan(bits) {
        CANONICAL_NAN
    } else {
        bits
    }
}

/// Position of a number on the line: the signed magnitude. Both zeros
/// share position 0. Meaningful for patterns that are not NaN.
pub open spec fn rank(bits: u32) -> int {
    if is_negative(bits) {
        -(magnitude(bits) as int)
    } else {
        magnitude(bits) as int
    }
}

/// The numeric `a > b`: false as soon as either side is a NaN.
pub open spec fn greater(a: u32, b: u32) -> bool {
    !is_nan(a) && !is_nan(b) && rank(a) > rank(b)
}

/// Both sides are numbers, and not the same number.
pub open spec fn differs(a: u32, b: u32) -> bool {
    greater(a, b) || greater(b, a)
}

/// Tells whether `bits` encodes a NaN.
pub fn nan(bits: u32) -> (r: bool)
    ensures
        r == is_nan(bits),
{
    (bits & MAGNITUDE_MASK) > INFINITY
}

/// Folds a NaN of any payload into `CANONICAL_NAN`; other patterns pass.
pub fn canonicalize(bits: u32) -> (r: u32)
    ensures
        r == canonical(bits),
{
    if nan(bits) {
        CANONICAL_NAN
    } else {
        bits
    }
}

/// Compares two numbers as binary32 arithmetic does with `>`.
pub fn gt(a: u32, b: u32) -> (r: bool)
    ensures
        r == greater(a, b),
{
    if nan(a) || nan(b) {
        return false;
    }
    let ma: u32 = a & MAGNITUDE_MASK;
    let mb: u32 = b & MAGNITUDE_MASK;
    let a_negative = a > MAGNITUDE_MASK;
    let b_negative = b > MAGNITUDE_MASK;
    if a_negative {
        b_negative && ma < mb
    } else if b_negative {
        ma > 0 || mb > 0
    } else {
        ma > mb
    }
}

/// The canonical NaN is a NaN, so canonical patterns stay as they are.
pub proof fn lemma_canonical_idempotent(bits: u32)
    ensures
        canonical(canonical(bits)) == canonical(bits),
{
    assert(is_nan(CANONICAL_NAN)) by {
        assert(0x7fc0_0000u32 & 0x7fff_ffffu32 == 0x7fc0_0000u32) by (bit_vector);
    }
}

/// Positive zero and -1 are numbers, hence canonical as they stand.
pub proof fn lemma_zero_and_negative_one_are_canonical()
    ensures
        canonical(0) == 0,
        canonical(NEGATIVE_ONE) == NEGATIVE_ONE,
{
    assert(0u32 & 0x7fff_ffffu32 == 0u32) by (bit_vector);
    assert(0xbf80_0000u32 & 0x7fff_ffffu32 == 0x3f80_0000u32) by (bit_vector);
}

} // verus!
