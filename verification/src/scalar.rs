//! Binary64 values as bit patterns, with the comparisons of IEEE 754.

use vstd::prelude::*;

verus! {

/// The sign bit of a binary64 bit pattern.
pub const SIGN_BIT: u64 = 0x8000_0000_0000_0000;

/// The bit pattern of positive infinity. A pattern whose magnitude is larger
/// is not a number.
pub const INFINITY_BITS: u64 = 0x7ff0_0000_0000_0000;

/// A binary64 value, held as its bit pattern.
///
/// The library never computes with a `Scalar`; it only compares. The model of
/// a value is therefore the pair of [`Scalar::is_nan`] and [`Scalar::rank`]:
/// two numbers compare as their ranks do, and a value that is not a number
/// compares false with everything.
#[derive(Clone, Copy, Debug)]
pub struct Scalar {
    pub bits: u64,
}

impl Scalar {
    /// The bit pattern with the sign bit cleared.
    pub open spec fn magnitude(self) -> int {
        if self.bits >= SIGN_BIT {
            self.bits - SIGN_BIT
        } else {
            self.bits as int
        }
    }

    /// Whether the sign bit is set.
    pub open spec fn is_negative(self) -> bool {
        self.bits >= SIGN_BIT
    }

    /// Whether the value is not a number.
    pub open spec fn is_nan(self) -> bool {
        self.magnitude() > INFINITY_BITS
    }

    /// An integer that orders numbers as their values are ordered. Both zeros
    /// have rank 0.
    pub open spec fn rank(self) -> int {
        if self.is_negative() {
            -self.magnitude()
        } else {
            self.magnitude()
        }
    }

    /// `self == other` as IEEE 754 defines it.
    pub open spec fn same(self, other: Scalar) -> bool {
        !self.is_nan() && !other.is_nan() && self.rank() == other.rank()
    }

    /// `self <= other` as IEEE 754 defines it.
    pub open spec fn no_more_than(self, other: Scalar) -> bool {
        !self.is_nan() && !other.is_nan() && self.rank() <= other.rank()
    }

    /// The lesser of two values, a value that is not a number giving way to
    /// the other one. Of two zeros of different sign, the negative one.
    pub open spec fn lesser(self, other: Scalar) -> Scalar {
        if self.is_nan() {
            other
        } else if other.is_nan() {
            self
        } else if self.rank() < other.rank() || (self.rank() == other.rank()
            && self.is_negative()) {
            self
        } else {
            other
        }
    }

    /// The greater of two values, a value that is not a number giving way to
    /// the other one. Of two zeros of different sign, the positive one.
    pub open spec fn greater(self, other: Scalar) -> Scalar {
        if self.is_nan() {
            other
        } else if other.is_nan() {
            self
        } else if self.rank() > other.rank() || (self.rank() == other.rank()
            && !self.is_negative()) {
            self
        } else {
            other
        }
    }

    /// Whether `self` lies in the closed interval spanned by `a` and `b`,
    /// whichever of the two is the smaller.
    pub open spec fn between(self, a: Scalar, b: Scalar) -> bool {
        a.lesser(b).no_more_than(self) && self.no_more_than(a.greater(b))
    }

    /// Wraps a bit pattern.
    pub fn from_bits(bits: u64) -> (r: Scalar)
        ensures
            r.bits == bits,
    {
        Scalar { bits }
    }

    /// The bit pattern.
    pub fn to_bits(&self) -> (r: u64)
        ensures
            r == self.bits,
    {
        self.bits
    }

    /// Positive zero.
    pub fn zero() -> (r: Scalar)
        ensures
            r.bits == 0,
    {
        Scalar { bits: 0 }
    }

    fn magnitude_bits(&self) -> (r: u64)
        ensures
            r == self.magnitude(),
    {
        if self.bits >= SIGN_BIT {
            self.bits - SIGN_BIT
        } else {
            self.bits
        }
    }

    /// Whether the value is not a number.
    pub fn not_a_number(&self) -> (r: bool)
        ensures
            r == self.is_nan(),
    {
        self.magnitude_bits() > INFINITY_BITS
    }

    /// Whether the value is a number and its rank is below that of `other`,
    /// which must be a number too.
    fn ranks_below(&self, other: &Scalar) -> (r: bool)
        requires
            !self.is_nan(),
            !other.is_nan(),
        ensures
            r == (self.rank() < other.rank()),
    {
        let a: u64 = self.magnitude_bits();
        let b: u64 = other.magnitude_bits();
        if self.bits >= SIGN_BIT {
            if other.bits >= SIGN_BIT {
                b < a
            } else {
                a > 0 || b > 0
            }
        } else {
            if other.bits >= SIGN_BIT {
                false
            } else {
                a < b
            }
        }
    }

    /// `self <= other`.
    pub fn at_most(&self, other: &Scalar) -> (r: bool)
        ensures
            r == self.no_more_than(*other),
    {
        if self.not_a_number() || other.not_a_number() {
            false
        } else {
            !other.ranks_below(self)
        }
    }

    /// `self >= other`.
    pub fn at_least(&self, other: &Scalar) -> (r: bool)
        ensures
            r == other.no_more_than(*self),
    {
        other.at_most(self)
    }

    /// The minimum of two values: see [`Scalar::lesser`].
    pub fn min(self, other: Scalar) -> (r: Scalar)
        ensures
            r == self.lesser(other),
    {
        if self.not_a_number() {
            other
        } else if other.not_a_number() {
            self
        } else if self.ranks_below(&other) || (!other.ranks_below(&self) && self.bits
            >= SIGN_BIT) {
            self
        } else {
            other
        }
    }

    /// The maximum of two values: see [`Scalar::greater`].
    pub fn max(self, other: Scalar) -> (r: Scalar)
        ensures
            r == self.greater(other),
    {
        if self.not_a_number() {
            other
        } else if other.not_a_number() {
            self
        } else if other.ranks_below(&self) || (!self.ranks_below(&other) && self.bits
            < SIGN_BIT) {
            self
        } else {
            other
        }
    }

    /// Whether `self` lies between `a` and `b`, bounds included.
    pub fn within(&self, a: &Scalar, b: &Scalar) -> (r: bool)
        ensures
            r == self.between(*a, *b),
    {
        self.at_least(&a.min(*b)) && self.at_most(&a.max(*b))
    }
}

impl PartialEq for Scalar {
    /// `self == other` as IEEE 754 defines it: a value that is not a number
    /// equals nothing, itself included, and the two zeros are equal.
    fn eq(&self, other: &Scalar) -> (r: bool) {
        if self.not_a_number() || other.not_a_number() {
            false
        } else {
            !self.ranks_below(other) && !other.ranks_below(self)
        }
    }
}

impl vstd::std_specs::cmp::PartialEqSpecImpl for Scalar {
    open spec fn obeys_eq_spec() -> bool {
        true
    }

    open spec fn eq_spec(&self, other: &Scalar) -> bool {
        self.same(*other)
    }
}

} // verus!
