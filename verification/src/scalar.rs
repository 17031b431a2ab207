//! Binary64 numbers by bit pattern, and their order.

use vstd::prelude::*;

verus! {

/// The sign bit of a binary64 pattern.
pub const SIGN_BIT: u64 = 0x8000_0000_0000_0000;

/// The pattern of positive infinity. A larger magnitude is a NaN.
pub const INFINITY_BITS: u64 = 0x7ff0_0000_0000_0000;

/// The pattern of 1.0.
pub const ONE_BITS: u64 = 0x3ff0_0000_0000_0000;

/// An IEEE 754 binary64 number, held as its 64 bits.
///
/// Every pattern is a value: zeros of both signs, subnormals, normals, the two
/// infinities and the NaNs.
#[derive(Clone, Copy, Debug)]
pub struct Scalar {
    pub bits: u64,
}

impl Scalar {
    /// The pattern without its sign bit.
    pub open spec fn spec_magnitude(self) -> u64 {
        if self.bits >= SIGN_BIT {
            (self.bits - SIGN_BIT) as u64
        } else {
            self.bits
        }
    }

    /// Whether the sign bit is set. It may be set on a zero and on a NaN.
    pub open spec fn spec_is_sign_negative(self) -> bool {
        self.bits >= SIGN_BIT
    }

    /// Whether the pattern is a NaN: all exponent bits set and a fraction that
    /// is not zero.
    pub open spec fn spec_is_nan(self) -> bool {
        self.spec_magnitude() > INFINITY_BITS
    }

    /// The place of a number in the order of binary64: the magnitude, negated
    /// under a sign bit. Both zeros have rank 0, and of two numbers that are
    /// not NaN the smaller has the smaller rank.
    pub open spec fn rank(self) -> int {
        if self.spec_is_sign_negative() {
            -(self.spec_magnitude() as int)
        } else {
            self.spec_magnitude() as int
        }
    }

    /// `self < other` in binary64: false as soon as either is a NaN.
    pub open spec fn spec_lt(self, other: Scalar) -> bool {
        !self.spec_is_nan() && !other.spec_is_nan() && self.rank() < other.rank()
    }

    /// `self <= other` in binary64: false as soon as either is a NaN.
    pub open spec fn spec_le(self, other: Scalar) -> bool {
        !self.spec_is_nan() && !other.spec_is_nan() && self.rank() <= other.rank()
    }

    /// `self == other` in binary64: the zeros are equal to each other, and a
    /// NaN is equal to nothing.
    pub open spec fn spec_equals(self, other: Scalar) -> bool {
        !self.spec_is_nan() && !other.spec_is_nan() && self.rank() == other.rank()
    }

    /// `-self`: the same pattern with the sign bit flipped.
    pub open spec fn spec_neg(self) -> Scalar {
        if self.bits >= SIGN_BIT {
            Scalar { bits: (self.bits - SIGN_BIT) as u64 }
        } else {
            Scalar { bits: (self.bits + SIGN_BIT) as u64 }
        }
    }

    /// `|self|`: the same pattern with the sign bit cleared.
    pub open spec fn spec_abs(self) -> Scalar {
        Scalar { bits: self.spec_magnitude() }
    }

    /// The larger of two numbers. Where one is a NaN it is the other; where
    /// neither is above the other, as with the two zeros, it is `self`.
    pub open spec fn spec_max(self, other: Scalar) -> Scalar {
        if self.spec_is_nan() {
            other
        } else if self.spec_lt(other) {
            other
        } else {
            self
        }
    }

    /// The smaller of two numbers. Where one is a NaN it is the other; where
    /// neither is below the other, as with the two zeros, it is `self`.
    pub open spec fn spec_min(self, other: Scalar) -> Scalar {
        if self.spec_is_nan() {
            other
        } else if other.spec_lt(self) {
            other
        } else {
            self
        }
    }

    /// Positive zero.
    pub open spec fn spec_zero() -> Scalar {
        Scalar { bits: 0 }
    }

    /// The number 1.
    pub open spec fn spec_one() -> Scalar {
        Scalar { bits: ONE_BITS }
    }

    /// Positive infinity.
    pub open spec fn spec_infinity() -> Scalar {
        Scalar { bits: INFINITY_BITS }
    }

    /// Negative infinity.
    pub open spec fn spec_neg_infinity() -> Scalar {
        Scalar { bits: 0xfff0_0000_0000_0000 }
    }

    /// The number with the given pattern.
    pub fn from_bits(bits: u64) -> (s: Scalar)
        ensures
            s.bits == bits,
    {
        Scalar { bits }
    }

    /// The pattern of the number.
    pub fn to_bits(self) -> (bits: u64)
        ensures
            bits == self.bits,
    {
        self.bits
    }

    #[verifier::when_used_as_spec(spec_zero)]
    pub fn zero() -> (s: Scalar)
        ensures
            s == Scalar::spec_zero(),
    {
        Scalar { bits: 0 }
    }

    #[verifier::when_used_as_spec(spec_one)]
    pub fn one() -> (s: Scalar)
        ensures
            s == Scalar::spec_one(),
    {
        Scalar { bits: ONE_BITS }
    }

    #[verifier::when_used_as_spec(spec_infinity)]
    pub fn infinity() -> (s: Scalar)
        ensures
            s == Scalar::spec_infinity(),
    {
        Scalar { bits: INFINITY_BITS }
    }

    #[verifier::when_used_as_spec(spec_neg_infinity)]
    pub fn neg_infinity() -> (s: Scalar)
        ensures
            s == Scalar::spec_neg_infinity(),
    {
        Scalar { bits: 0xfff0_0000_0000_0000 }
    }

    #[verifier::when_used_as_spec(spec_magnitude)]
    pub fn magnitude(self) -> (m: u64)
        ensures
            m == self.spec_magnitude(),
    {
        if self.bits >= SIGN_BIT {
            self.bits - SIGN_BIT
        } else {
            self.bits
        }
    }

    #[verifier::when_used_as_spec(spec_is_sign_negative)]
    pub fn is_sign_negative(self) -> (b: bool)
        ensures
            b == self.spec_is_sign_negative(),
    {
        self.bits >= SIGN_BIT
    }

    #[verifier::when_used_as_spec(spec_is_nan)]
    pub fn is_nan(self) -> (b: bool)
        ensures
            b == self.spec_is_nan(),
    {
        self.magnitude() > INFINITY_BITS
    }

    #[verifier::when_used_as_spec(spec_lt)]
    pub fn lt(self, other: Scalar) -> (b: bool)
        ensures
            b == self.spec_lt(other),
    {
        if self.is_nan() || other.is_nan() {
            false
        } else if self.is_sign_negative() {
            if other.is_sign_negative() {
                other.magnitude() < self.magnitude()
            } else {
                self.magnitude() > 0 || other.magnitude() > 0
            }
        } else {
            !other.is_sign_negative() && self.magnitude() < other.magnitude()
        }
    }

    #[verifier::when_used_as_spec(spec_le)]
    pub fn le(self, other: Scalar) -> (b: bool)
        ensures
            b == self.spec_le(other),
    {
        if self.is_nan() || other.is_nan() {
            false
        } else if self.is_sign_negative() {
            !other.is_sign_negative() || other.magnitude() <= self.magnitude()
        } else if other.is_sign_negative() {
            self.magnitude() == 0 && other.magnitude() == 0
        } else {
            self.magnitude() <= other.magnitude()
        }
    }

    /// `self > other` in binary64.
    pub fn gt(self, other: Scalar) -> (b: bool)
        ensures
            b == other.spec_lt(self),
    {
        other.lt(self)
    }

    /// `self >= other` in binary64.
    pub fn ge(self, other: Scalar) -> (b: bool)
        ensures
            b == other.spec_le(self),
    {
        other.le(self)
    }

    #[verifier::when_used_as_spec(spec_equals)]
    pub fn equals(self, other: Scalar) -> (b: bool)
        ensures
            b == self.spec_equals(other),
    {
        self.le(other) && other.le(self)
    }

    #[verifier::when_used_as_spec(spec_max)]
    pub fn max(self, other: Scalar) -> (s: Scalar)
        ensures
            s == self.spec_max(other),
    {
        if self.is_nan() || self.lt(other) {
            other
        } else {
            self
        }
    }

    #[verifier::when_used_as_spec(spec_min)]
    pub fn min(self, other: Scalar) -> (s: Scalar)
        ensures
            s == self.spec_min(other),
    {
        if self.is_nan() || other.lt(self) {
            other
        } else {
            self
        }
    }

    #[verifier::when_used_as_spec(spec_neg)]
    pub fn neg(self) -> (s: Scalar)
        ensures
            s == self.spec_neg(),
    {
        if self.bits >= SIGN_BIT {
            Scalar { bits: self.bits - SIGN_BIT }
        } else {
            Scalar { bits: self.bits + SIGN_BIT }
        }
    }

    #[verifier::when_used_as_spec(spec_abs)]
    pub fn abs(self) -> (s: Scalar)
        ensures
            s == self.spec_abs(),
    {
        Scalar { bits: self.magnitude() }
    }
}

impl PartialEq for Scalar {
    /// Equality of binary64, as `equals`: not that of the patterns.
    fn eq(&self, other: &Scalar) -> (b: bool) {
        self.equals(*other)
    }
}

impl vstd::std_specs::cmp::PartialEqSpecImpl for Scalar {
    open spec fn obeys_eq_spec() -> bool {
        true
    }

    open spec fn eq_spec(&self, other: &Scalar) -> bool {
        self.spec_equals(*other)
    }
}

/// `<` is a strict order: nothing is below itself, and it is transitive, also
/// through `<=`.
pub proof fn lemma_lt_is_strict_order(a: Scalar, b: Scalar, c: Scalar)
    ensures
        !a.lt(a),
        a.lt(b) ==> !b.lt(a),
        a.lt(b) && b.lt(c) ==> a.lt(c),
        a.lt(b) && b.le(c) ==> a.lt(c),
        a.le(b) && b.lt(c) ==> a.lt(c),
        a.le(b) && b.le(c) ==> a.le(c),
{
}

/// `<=` holds exactly where `<` or `==` does, and a number that is not a NaN
/// is equal to itself.
pub proof fn lemma_le_is_lt_or_equals(a: Scalar, b: Scalar)
    ensures
        a.le(b) <==> a.lt(b) || a.equals(b),
        a.equals(b) <==> a.le(b) && b.le(a),
        a.equals(a) <==> !a.is_nan(),
{
}

/// Of two numbers that are not NaN exactly one of `a < b`, `a == b`, `b < a`
/// holds. A NaN is not comparable to anything.
pub proof fn lemma_order_is_total_off_nan(a: Scalar, b: Scalar)
    ensures
        !a.is_nan() && !b.is_nan() ==> (a.lt(b) || a.equals(b) || b.lt(a)),
        !(a.lt(b) && a.equals(b)),
        !(a.lt(b) && b.lt(a)),
        a.is_nan() || b.is_nan() ==> !a.lt(b) && !a.le(b) && !a.equals(b),
{
}

/// Negation keeps the magnitude, flips the sign, undoes itself and turns the
/// order round.
pub proof fn lemma_neg_reverses_order(a: Scalar, b: Scalar)
    ensures
        a.neg().magnitude() == a.magnitude(),
        a.neg().is_sign_negative() == !a.is_sign_negative(),
        a.neg().neg() == a,
        a.neg().is_nan() == a.is_nan(),
        a.lt(b) <==> b.neg().lt(a.neg()),
        a.le(b) <==> b.neg().le(a.neg()),
{
}

/// An absolute value has no sign bit and is not below zero; it is the number
/// itself or its negation.
pub proof fn lemma_abs_is_not_negative(a: Scalar)
    ensures
        !a.abs().is_sign_negative(),
        a.abs().is_nan() == a.is_nan(),
        !a.is_nan() ==> Scalar::zero().le(a.abs()),
        a.abs() == a || a.abs() == a.neg(),
{
}

/// The larger of two numbers is one of them and below neither; it is a NaN
/// only where both are. The same holds of the smaller, with above for below.
pub proof fn lemma_max_min_choose(a: Scalar, b: Scalar)
    ensures
        a.max(b) == a || a.max(b) == b,
        a.min(b) == a || a.min(b) == b,
        a.max(b).is_nan() <==> a.is_nan() && b.is_nan(),
        a.min(b).is_nan() <==> a.is_nan() && b.is_nan(),
        !a.max(b).lt(a) && !a.max(b).lt(b),
        !a.lt(a.min(b)) && !b.lt(a.min(b)),
        !a.is_nan() && !b.is_nan() ==> a.le(a.max(b)) && b.le(a.max(b)) && a.min(b).le(a)
            && a.min(b).le(b),
{
}

/// The infinities bound every number that is not a NaN.
pub proof fn lemma_infinities_bound(a: Scalar)
    ensures
        !a.is_nan() ==> Scalar::neg_infinity().le(a) && a.le(Scalar::infinity()),
        !Scalar::infinity().is_nan(),
        !Scalar::neg_infinity().is_nan(),
        Scalar::neg_infinity().lt(Scalar::infinity()),
{
}

} // verus!
