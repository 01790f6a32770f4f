//! IEEE 754 double-precision numbers by their bit patterns: carried from place to place,
//! ordered, and held to a range.

use vstd::prelude::*;

verus! {

/// A double-precision number, as the 64 bits that encode it.
#[derive(Clone, Copy, Debug, PartialEq, Eq, Structural)]
pub struct Binary64 {
    pub bits: u64,
}

impl Binary64 {
    /// The distance of the bit pattern from that of zero.
    pub open spec fn magnitude(self) -> int {
        if self.bits >= 0x8000_0000_0000_0000 {
            self.bits - 0x8000_0000_0000_0000
        } else {
            self.bits as int
        }
    }

    /// The bit pattern encodes no number.
    pub open spec fn is_nan(self) -> bool {
        self.magnitude() > 0x7ff0_0000_0000_0000
    }

    /// The place of the number among all numbers: of two patterns that encode numbers,
    /// the one with the lower rank encodes the lower number, and equal ranks encode
    /// equal numbers.
    pub open spec fn rank(self) -> int {
        if self.bits >= 0x8000_0000_0000_0000 {
            -self.magnitude()
        } else {
            self.magnitude()
        }
    }

    /// The number held to the range from `low` to `high`. What is no number stays so.
    pub open spec fn clamped(self, low: Binary64, high: Binary64) -> Binary64 {
        if self.is_nan() {
            self
        } else if self.rank() < low.rank() {
            low
        } else if self.rank() > high.rank() {
            high
        } else {
            self
        }
    }

    /// The number lies between `low` and `high`, both included.
    pub open spec fn lies_between(self, low: Binary64, high: Binary64) -> bool {
        !self.is_nan() && low.rank() <= self.rank() <= high.rank()
    }

    fn signed_rank(self) -> (r: i128)
        ensures
            r == self.rank(),
    {
        if self.bits >= 0x8000_0000_0000_0000 {
            -((self.bits - 0x8000_0000_0000_0000) as i128)
        } else {
            self.bits as i128
        }
    }

    /// Holds the number to the range from `low` to `high`.
    pub fn clamp(self, low: Binary64, high: Binary64) -> (r: Binary64)
        requires
            !low.is_nan(),
            !high.is_nan(),
            low.rank() <= high.rank(),
        ensures
            r == self.clamped(low, high),
    {
        let rank: i128 = self.signed_rank();
        if rank > 0x7ff0_0000_0000_0000 || rank < -0x7ff0_0000_0000_0000 {
            self
        } else if rank < low.signed_rank() {
            low
        } else if rank > high.signed_rank() {
            high
        } else {
            self
        }
    }
}

/// A number held to a range lies in it, and holding it again changes nothing.
pub proof fn law_clamped_lies_between(x: Binary64, low: Binary64, high: Binary64)
    requires
        !low.is_nan(),
        !high.is_nan(),
        low.rank() <= high.rank(),
    ensures
        !x.is_nan() ==> x.clamped(low, high).lies_between(low, high),
        x.clamped(low, high).clamped(low, high) == x.clamped(low, high),
        x.lies_between(low, high) ==> x.clamped(low, high) == x,
{
}

/// What lies below a range is held to its lower end, what lies above to its upper end, and
/// what is no number is left alone.
pub proof fn law_numbers_are_held_to_the_nearer_end(x: Binary64, low: Binary64, high: Binary64)
    requires
        !low.is_nan(),
        !high.is_nan(),
        low.rank() <= high.rank(),
    ensures
        x.is_nan() ==> x.clamped(low, high) == x,
        !x.is_nan() && x.rank() < low.rank() ==> x.clamped(low, high) == low,
        !x.is_nan() && x.rank() > high.rank() ==> x.clamped(low, high) == high,
        !x.is_nan() && low.rank() <= x.rank() <= high.rank() ==> x.clamped(low, high) == x,
{
}

/// The lower 63 bits give the distance from zero and the highest one the sign; only patterns
/// beyond that of infinity encode no number.
pub proof fn law_ranks_follow_the_bits(x: Binary64, low: Binary64, high: Binary64)
    ensures
        x.bits < 0x8000_0000_0000_0000 ==> x.rank() == x.bits,
        x.bits >= 0x8000_0000_0000_0000 ==> x.rank() == 0x8000_0000_0000_0000 - x.bits,
        x.is_nan() <==> x.rank() > 0x7ff0_0000_0000_0000 || x.rank() < -0x7ff0_0000_0000_0000,
        x.lies_between(low, high) <==> !x.is_nan() && low.rank() <= x.rank() && x.rank()
            <= high.rank(),
{
}

} // verus!
