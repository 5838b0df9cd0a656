//! Facts about IEEE-754 binary32 values held as bit patterns.
use vstd::prelude::*;

verus! {

/// Mask that clears the sign bit of a binary32 bit pattern.
pub const MAGNITUDE_MASK: u32 = 0x7fff_ffff;

/// Bit pattern of the largest magnitude that is not a NaN (positive infinity).
pub const INFINITY_BITS: u32 = 0x7f80_0000;

/// Bit pattern of `1.0`.
pub const ONE_BITS: u32 = 0x3f80_0000;

/// The bit pattern of `|x|`: the sign bit cleared.
pub open spec fn abs_bits(x: u32) -> u32 {
    x & MAGNITUDE_MASK
}

/// Whether the bit pattern encodes a NaN: all exponent bits set and a
/// nonzero fraction.
pub open spec fn is_nan_bits(x: u32) -> bool {
    abs_bits(x) > INFINITY_BITS
}

/// Whether `|a| == |b|` holds under IEEE-754 comparison. NaN equals nothing;
/// `+0` and `-0` have the same magnitude; any other two values compare equal
/// exactly when their magnitudes have the same bit pattern.
pub open spec fn same_magnitude(a: u32, b: u32) -> bool {
    !is_nan_bits(a) && !is_nan_bits(b) && abs_bits(a) == abs_bits(b)
}

/// The absolute value of a binary32 value, on bit patterns.
pub fn abs(x: u32) -> (r: u32)
    ensures
        r == abs_bits(x),
{
    x & MAGNITUDE_MASK
}

/// `|a| == |b|` under IEEE-754 comparison, on bit patterns.
pub fn magnitudes_equal(a: u32, b: u32) -> (r: bool)
    ensures
        r == same_magnitude(a, b),
{
    let abs_a = abs(a);
    let abs_b = abs(b);
    abs_a <= INFINITY_BITS && abs_b <= INFINITY_BITS && abs_a == abs_b
}

} // verus!
