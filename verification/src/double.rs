//! Binary64 floating-point numbers, held by their bit pattern.
//!
//! Configuration values and native timestamps arrive as 64-bit IEEE 754
//! numbers. The library carries them unchanged and needs two questions
//! answered: whether one is above zero and whether one exceeds another.

use vstd::prelude::*;

verus! {

/// A 64-bit IEEE 754 number, held by its bit pattern.
#[derive(Debug, Clone, Copy, PartialEq, Eq, Structural)]
pub struct Double {
    pub bits: u64,
}

/// The bit pattern of positive infinity; a larger magnitude is not a number.
pub const INFINITY_BITS: u64 = 0x7ff0_0000_0000_0000;

/// The bit pattern of negative zero: the sign bit alone.
pub const SIGN_BIT: u64 = 0x8000_0000_0000_0000;

impl Double {
    /// The bit pattern without the sign.
    pub open spec fn magnitude(self) -> int {
        if self.bits < SIGN_BIT {
            self.bits as int
        } else {
            self.bits - SIGN_BIT
        }
    }

    /// Whether the pattern stands for no number at all.
    pub open spec fn is_nan(self) -> bool {
        self.magnitude() > INFINITY_BITS
    }

    /// A number that orders as the floating-point value does; both zeros are 0.
    pub open spec fn rank(self) -> int {
        if self.bits < SIGN_BIT {
            self.magnitude()
        } else {
            -self.magnitude()
        }
    }

    /// Whether the value is greater than `other`; never, if either is no number.
    pub open spec fn exceeds(self, other: Double) -> bool {
        !self.is_nan() && !other.is_nan() && self.rank() > other.rank()
    }

    /// Positive zero.
    pub open spec fn zero_spec() -> Double {
        Double { bits: 0 }
    }

    /// Positive zero.
    #[verifier::when_used_as_spec(zero_spec)]
    pub fn zero() -> (z: Double)
        ensures
            z == Double::zero_spec(),
    {
        Double { bits: 0 }
    }

    /// Whether the value is greater than `other`.
    pub fn gt(self, other: Double) -> (greater: bool)
        ensures
            greater == self.exceeds(other),
    {
        let a_positive: bool = self.bits < SIGN_BIT;
        let b_positive: bool = other.bits < SIGN_BIT;
        let a: u64 = if a_positive { self.bits } else { self.bits - SIGN_BIT };
        let b: u64 = if b_positive { other.bits } else { other.bits - SIGN_BIT };
        if a > INFINITY_BITS || b > INFINITY_BITS {
            return false;
        }
        if a_positive {
            if b_positive {
                a > b
            } else {
                a > 0 || b > 0
            }
        } else {
            !b_positive && a < b
        }
    }

    /// Whether the value is greater than zero.
    pub fn is_positive(self) -> (positive: bool)
        ensures
            positive == self.exceeds(Double::zero_spec()),
            positive == (0 < self.bits <= INFINITY_BITS),
    {
        self.gt(Double::zero())
    }
}

/// A value exceeds another only if the other does not exceed it, and only if
/// it is not the same pattern.
pub proof fn exceeds_is_strict(a: Double, b: Double)
    requires
        a.exceeds(b),
    ensures
        !b.exceeds(a),
        a != b,
{
}

/// If one value exceeds a second and the second a third, the first exceeds the
/// third.
pub proof fn exceeds_is_transitive(a: Double, b: Double, c: Double)
    requires
        a.exceeds(b),
        b.exceeds(c),
    ensures
        a.exceeds(c),
{
}

/// Among patterns without the sign bit, up to that of infinity, the larger
/// pattern is the larger number; among patterns with it, the smaller one is.
/// A number above zero exceeds every number below; the two zeros are equal.
pub proof fn order_is_that_of_the_numbers(a: Double, b: Double, greater: bool)
    requires
        call_ensures(Double::gt, (a, b), greater),
    ensures
        a.bits <= 0x7ff0_0000_0000_0000 && b.bits <= 0x7ff0_0000_0000_0000 ==> (greater <==> a.bits
            > b.bits),
        0x8000_0000_0000_0000 <= a.bits <= 0xfff0_0000_0000_0000 && 0x8000_0000_0000_0000 <= b.bits
            <= 0xfff0_0000_0000_0000 ==> (greater <==> a.bits < b.bits),
        a.bits <= 0x7ff0_0000_0000_0000 && 0x8000_0000_0000_0000 <= b.bits <= 0xfff0_0000_0000_0000
            ==> (greater <==> !(a.bits == 0 && b.bits == 0x8000_0000_0000_0000)),
        0x8000_0000_0000_0000 <= a.bits <= 0xfff0_0000_0000_0000 && b.bits <= 0x7ff0_0000_0000_0000
            ==> !greater,
{
}

/// What is no number neither exceeds nor is exceeded.
pub proof fn no_number_is_not_ordered(a: Double, b: Double, greater: bool)
    requires
        call_ensures(Double::gt, (a, b), greater),
        0x7ff0_0000_0000_0000 < a.bits < 0x8000_0000_0000_0000 || a.bits > 0xfff0_0000_0000_0000
            || 0x7ff0_0000_0000_0000 < b.bits < 0x8000_0000_0000_0000 || b.bits
            > 0xfff0_0000_0000_0000,
    ensures
        !greater,
{
}

/// A number is positive exactly if it exceeds zero.
pub proof fn positive_is_above_zero(a: Double, zero: Double, greater: bool, positive: bool)
    requires
        call_ensures(Double::zero, (), zero),
        call_ensures(Double::gt, (a, zero), greater),
        call_ensures(Double::is_positive, (a,), positive),
    ensures
        zero.bits == 0,
        positive == greater,
        positive <==> 0 < a.bits <= 0x7ff0_0000_0000_0000,
{
}

} // verus!
