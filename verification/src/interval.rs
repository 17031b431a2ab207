//! Ranges of numbers, used for the distances at which a hit counts.

use crate::scalar::Scalar;
use vstd::prelude::*;

verus! {

/// The numbers from `min` to `max`. Whether the ends belong to it is the
/// caller's choice between `contains` and `surrounds`.
#[derive(Clone, Copy, Debug)]
pub struct Interval {
    pub min: Scalar,
    pub max: Scalar,
}

impl Interval {
    /// `min < x < max`.
    pub open spec fn spec_surrounds(&self, x: Scalar) -> bool {
        self.min.lt(x) && x.lt(self.max)
    }

    /// `min <= x <= max`.
    pub open spec fn spec_contains(&self, x: Scalar) -> bool {
        self.min.le(x) && x.le(self.max)
    }

    /// `x` moved to the nearer end where it lies outside. A NaN stays.
    pub open spec fn spec_clamp(&self, x: Scalar) -> Scalar {
        if x.lt(self.min) {
            self.min
        } else if self.max.lt(x) {
            self.max
        } else {
            x
        }
    }

    /// The interval from positive to negative infinity.
    pub open spec fn spec_empty() -> Interval {
        Interval { min: Scalar::infinity(), max: Scalar::neg_infinity() }
    }

    /// The interval from negative to positive infinity.
    pub open spec fn spec_universe() -> Interval {
        Interval { min: Scalar::neg_infinity(), max: Scalar::infinity() }
    }

    pub fn from_values(min: Scalar, max: Scalar) -> (i: Interval)
        ensures
            i == (Interval { min, max }),
    {
        Interval { min, max }
    }

    #[verifier::when_used_as_spec(spec_empty)]
    pub fn empty() -> (i: Interval)
        ensures
            i == Interval::spec_empty(),
    {
        Interval { min: Scalar::infinity(), max: Scalar::neg_infinity() }
    }

    #[verifier::when_used_as_spec(spec_universe)]
    pub fn universe() -> (i: Interval)
        ensures
            i == Interval::spec_universe(),
    {
        Interval { min: Scalar::neg_infinity(), max: Scalar::infinity() }
    }

    #[verifier::when_used_as_spec(spec_surrounds)]
    pub fn surrounds(&self, x: Scalar) -> (b: bool)
        ensures
            b == self.spec_surrounds(x),
    {
        self.min.lt(x) && x.lt(self.max)
    }

    #[verifier::when_used_as_spec(spec_contains)]
    pub fn contains(&self, x: Scalar) -> (b: bool)
        ensures
            b == self.spec_contains(x),
    {
        self.min.le(x) && x.le(self.max)
    }

    #[verifier::when_used_as_spec(spec_clamp)]
    pub fn clamp(&self, x: Scalar) -> (c: Scalar)
        ensures
            c == self.spec_clamp(x),
    {
        if x.lt(self.min) {
            self.min
        } else if x.gt(self.max) {
            self.max
        } else {
            x
        }
    }
}

/// The empty interval holds nothing, and the universe holds every number that
/// is not a NaN and surrounds every finite one.
pub proof fn lemma_empty_and_universe(x: Scalar)
    ensures
        !Interval::empty().contains(x),
        !Interval::empty().surrounds(x),
        Interval::universe().contains(x) <==> !x.is_nan(),
        Interval::universe().surrounds(x) <==> x.magnitude() < crate::scalar::INFINITY_BITS,
{
}

/// What an interval surrounds it contains, and neither holds of a NaN.
pub proof fn lemma_surrounds_implies_contains(i: Interval, x: Scalar)
    ensures
        i.surrounds(x) ==> i.contains(x),
        i.contains(x) ==> !x.is_nan() && i.min.le(i.max),
{
}

/// A clamped number lies in the interval, provided the interval has an
/// ordered pair of ends and the number is not a NaN. A number inside is left
/// as it is.
pub proof fn lemma_clamp_lands_inside(i: Interval, x: Scalar)
    ensures
        i.min.le(i.max) && !x.is_nan() ==> i.contains(i.clamp(x)),
        i.contains(x) ==> i.clamp(x) == x,
        x.is_nan() ==> i.clamp(x) == x,
{
}

/// Lowering the upper end keeps what is still below it and drops the rest.
pub proof fn lemma_narrowing(i: Interval, max: Scalar, x: Scalar)
    requires
        max.le(i.max),
    ensures
        (Interval { min: i.min, max }).surrounds(x) <==> i.surrounds(x) && x.lt(max),
{
}

} // verus!
