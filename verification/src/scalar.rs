//! Real numbers as the pipeline carries them.

use vstd::prelude::*;

verus! {

/// A real number, held as the bit pattern of its IEEE-754 binary64 form.
///
/// The pipeline never calculates with durations, frame rates or timestamps:
/// it stores them, hands them on and puts them in order. The bit pattern is
/// enough for that, and callers convert at the edge.
#[derive(Clone, Copy, Debug, PartialEq, Eq, Structural)]
pub struct Scalar {
    pub bits: u64,
}

/// The bit pattern of positive zero.
pub const ZERO_BITS: u64 = 0;

/// The smallest bit pattern whose sign bit is set.
pub const SIGN_BIT: u64 = 0x8000_0000_0000_0000;

/// The place of a bit pattern in the order of the numbers.
///
/// Patterns with the sign bit set stand for negative numbers and are ranked
/// below all others, the larger magnitude lower. For any two patterns that are
/// numbers, the one that stands for the smaller number has the smaller or
/// equal rank; only the two zeros differ in rank and not in value. Patterns
/// that are no number fall at the two ends.
pub open spec fn rank_of(bits: u64) -> int {
    if bits >= SIGN_BIT {
        u64::MAX - bits
    } else {
        bits + SIGN_BIT
    }
}

impl Scalar {
    /// The number whose binary64 bit pattern is `bits`.
    pub fn from_bits(bits: u64) -> (r: Scalar)
        ensures
            r.bits == bits,
    {
        Scalar { bits }
    }

    /// Zero.
    pub fn zero() -> (r: Scalar)
        ensures
            r.bits == ZERO_BITS,
    {
        Scalar { bits: ZERO_BITS }
    }

    /// The binary64 bit pattern of the number.
    pub fn to_bits(&self) -> (bits: u64)
        ensures
            bits == self.bits,
    {
        self.bits
    }

    /// The place of the number in ascending order.
    pub fn rank(&self) -> (r: u64)
        ensures
            r == rank_of(self.bits),
    {
        if self.bits >= SIGN_BIT {
            u64::MAX - self.bits
        } else {
            self.bits + SIGN_BIT
        }
    }

    /// Whether `self` comes before `other`, or beside it, in ascending order.
    pub fn at_most(&self, other: &Scalar) -> (r: bool)
        ensures
            r == (rank_of(self.bits) <= rank_of(other.bits)),
    {
        self.rank() <= other.rank()
    }
}

/// Distinct bit patterns have distinct ranks, so a rank names its number.
pub proof fn lemma_rank_injective(a: u64, b: u64)
    ensures
        rank_of(a) == rank_of(b) <==> a == b,
        0 <= rank_of(a) <= u64::MAX,
{
}

} // verus!
