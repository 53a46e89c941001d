//! Ordering of IEEE-754 single-precision values carried as raw bit
//! patterns. Scalar parameter values cross this crate as `u32` bit
//! patterns; range checks during adoption compare them with the same
//! outcome the hardware comparison on the decoded numbers would give:
//! NaN compares with nothing, and the two zeroes are equal.

use vstd::prelude::*;

verus! {

/// The outcome of comparing two IEEE-754 values.
#[derive(Debug, Clone, Copy, PartialEq, Eq, Structural)]
pub enum FloatOrder {
    Less,
    Equal,
    Greater,
    /// At least one operand is NaN.
    Unordered,
}

/// True when the bit pattern encodes a NaN: all exponent bits set and a
/// nonzero mantissa.
pub open spec fn spec_is_nan_bits(bits: u32) -> bool {
    (bits & 0x7FFF_FFFF) > 0x7F80_0000
}

/// The rank of a non-NaN bit pattern on the number line: the magnitude
/// bits, negated for negative numbers, so that both zeroes share rank 0.
pub open spec fn spec_rank(bits: u32) -> int {
    if bits >= 0x8000_0000 {
        -((bits & 0x7FFF_FFFF) as int)
    } else {
        (bits & 0x7FFF_FFFF) as int
    }
}

/// How the IEEE-754 values behind two bit patterns compare.
pub open spec fn spec_compare_bits(a: u32, b: u32) -> FloatOrder {
    if spec_is_nan_bits(a) || spec_is_nan_bits(b) {
        FloatOrder::Unordered
    } else if spec_rank(a) < spec_rank(b) {
        FloatOrder::Less
    } else if spec_rank(a) > spec_rank(b) {
        FloatOrder::Greater
    } else {
        FloatOrder::Equal
    }
}

/// Strictly-less-than on the values behind two bit patterns; false
/// whenever either operand is NaN.
pub open spec fn spec_lt_bits(a: u32, b: u32) -> bool {
    spec_compare_bits(a, b) == FloatOrder::Less
}

#[verifier::when_used_as_spec(spec_is_nan_bits)]
pub fn is_nan_bits(bits: u32) -> (r: bool)
    ensures
        r == spec_is_nan_bits(bits),
{
    (bits & 0x7FFF_FFFF) > 0x7F80_0000
}

#[verifier::when_used_as_spec(spec_compare_bits)]
pub fn compare_bits(a: u32, b: u32) -> (r: FloatOrder)
    ensures
        r == spec_compare_bits(a, b),
{
    if is_nan_bits(a) || is_nan_bits(b) {
        return FloatOrder::Unordered;
    }
    let mag_a = a & 0x7FFF_FFFF;
    let mag_b = b & 0x7FFF_FFFF;
    let neg_a = a >= 0x8000_0000;
    let neg_b = b >= 0x8000_0000;
    if neg_a && neg_b {
        if mag_a > mag_b {
            FloatOrder::Less
        } else if mag_a < mag_b {
            FloatOrder::Greater
        } else {
            FloatOrder::Equal
        }
    } else if neg_a {
        if mag_a == 0 && mag_b == 0 {
            FloatOrder::Equal
        } else {
            FloatOrder::Less
        }
    } else if neg_b {
        if mag_a == 0 && mag_b == 0 {
            FloatOrder::Equal
        } else {
            FloatOrder::Greater
        }
    } else {
        if mag_a < mag_b {
            FloatOrder::Less
        } else if mag_a > mag_b {
            FloatOrder::Greater
        } else {
            FloatOrder::Equal
        }
    }
}

#[verifier::when_used_as_spec(spec_lt_bits)]
pub fn lt_bits(a: u32, b: u32) -> (r: bool)
    ensures
        r == spec_lt_bits(a, b),
{
    match compare_bits(a, b) {
        FloatOrder::Less => true,
        _ => false,
    }
}

/// Lexicographic strictly-less-than over two-element vectors of bit
/// patterns, matching how a pair of scalars compares: the first unequal
/// component decides, and any NaN makes the pair unordered.
pub open spec fn spec_lt_bits2(a: [u32; 2], b: [u32; 2]) -> bool {
    match spec_compare_bits(a[0], b[0]) {
        FloatOrder::Less => true,
        FloatOrder::Equal => spec_compare_bits(a[1], b[1]) == FloatOrder::Less,
        _ => false,
    }
}

pub fn lt_bits2(a: &[u32; 2], b: &[u32; 2]) -> (r: bool)
    ensures
        r == spec_lt_bits2(*a, *b),
{
    match compare_bits(a[0], b[0]) {
        FloatOrder::Less => true,
        FloatOrder::Equal => {
            match compare_bits(a[1], b[1]) {
                FloatOrder::Less => true,
                _ => false,
            }
        }
        _ => false,
    }
}

} // verus!
