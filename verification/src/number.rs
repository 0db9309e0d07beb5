//! Binary64 numbers, held as their bit patterns and ordered by integer
//! arithmetic on those patterns.

use vstd::prelude::*;

verus! {

/// The bit that holds a number's sign.
pub const SIGN_BIT: u64 = 0x8000_0000_0000_0000;

/// The bit pattern of positive infinity. A larger magnitude is not a number.
pub const INFINITY_BITS: u64 = 0x7FF0_0000_0000_0000;

/// A binary64 floating-point number, given by its 64 bits: the sign, eleven
/// bits of exponent, fifty-two bits of fraction.
#[derive(Clone, Copy, Debug, PartialEq, Eq, Structural)]
pub struct Number {
    pub bits: u64,
}

impl Number {
    /// The bits without the sign.
    pub open spec fn magnitude(self) -> int {
        if self.bits >= SIGN_BIT {
            self.bits - SIGN_BIT
        } else {
            self.bits as int
        }
    }

    /// Whether the bits stand for no number at all.
    pub open spec fn is_nan(self) -> bool {
        self.magnitude() > INFINITY_BITS
    }

    /// An integer that orders the numbers as their values do: the magnitude,
    /// negated under a set sign bit. Both zeros have rank 0.
    pub open spec fn rank(self) -> int {
        if self.bits >= SIGN_BIT {
            -self.magnitude()
        } else {
            self.magnitude()
        }
    }

    /// Whether `self` is less than `other`. False as soon as one of the two
    /// is not a number.
    pub open spec fn less_than(self, other: Number) -> bool {
        !self.is_nan() && !other.is_nan() && self.rank() < other.rank()
    }

    /// `self` brought into the range from `lo` to `hi`: `lo` if it is less
    /// than `lo`, `hi` if it is greater than `hi`, else itself.
    pub open spec fn clamped(self, lo: Number, hi: Number) -> Number {
        if self.less_than(lo) {
            lo
        } else if hi.less_than(self) {
            hi
        } else {
            self
        }
    }

    /// `self` if it is greater than `floor`, else `floor`.
    pub open spec fn raised(self, floor: Number) -> Number {
        if floor.less_than(self) {
            self
        } else {
            floor
        }
    }

    /// The number with the given bits.
    pub fn from_bits(bits: u64) -> (r: Number)
        ensures
            r.bits == bits,
    {
        Number { bits }
    }

    /// The number's bits.
    pub fn to_bits(self) -> (r: u64)
        ensures
            r == self.bits,
    {
        self.bits
    }

    /// Tells whether the bits stand for no number.
    pub fn not_a_number(self) -> (r: bool)
        ensures
            r == self.is_nan(),
    {
        if self.bits >= SIGN_BIT {
            self.bits - SIGN_BIT > INFINITY_BITS
        } else {
            self.bits > INFINITY_BITS
        }
    }

    /// Tells whether `self` is less than `other`.
    pub fn lt(self, other: Number) -> (r: bool)
        ensures
            r == self.less_than(other),
    {
        if self.not_a_number() || other.not_a_number() {
            false
        } else if self.bits >= SIGN_BIT {
            if other.bits >= SIGN_BIT {
                self.bits > other.bits
            } else {
                self.bits > SIGN_BIT || other.bits > 0
            }
        } else if other.bits >= SIGN_BIT {
            false
        } else {
            self.bits < other.bits
        }
    }

    /// Brings `self` into the range from `lo` to `hi`. What is not a number
    /// stays as it is.
    pub fn clamp_to(self, lo: Number, hi: Number) -> (r: Number)
        ensures
            r == self.clamped(lo, hi),
    {
        if self.lt(lo) {
            lo
        } else if hi.lt(self) {
            hi
        } else {
            self
        }
    }

    /// Raises `self` to `floor` where it is not greater. What is not a
    /// number becomes `floor`.
    pub fn at_least(self, floor: Number) -> (r: Number)
        ensures
            r == self.raised(floor),
    {
        if floor.lt(self) {
            self
        } else {
            floor
        }
    }
}

/// Clamping twice is clamping once.
pub proof fn lemma_clamped_twice(x: Number, lo: Number, hi: Number)
    requires
        !hi.less_than(lo),
    ensures
        x.clamped(lo, hi).clamped(lo, hi) == x.clamped(lo, hi),
{
}

/// Raising twice is raising once.
pub proof fn lemma_raised_twice(x: Number, floor: Number)
    ensures
        x.raised(floor).raised(floor) == x.raised(floor),
{
}

} // verus!
