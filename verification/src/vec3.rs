//! Triples of numbers: vectors, points and colors.

use crate::scalar::Scalar;
use vstd::prelude::*;

verus! {

/// The pattern of 1e-8: a component of smaller absolute value counts as zero.
pub const NEAR_ZERO_BITS: u64 = 0x3e45_798e_e230_8c3a;

/// Three numbers. A vector, a point in space or a color, by use.
#[derive(Clone, Copy, Debug)]
pub struct Vec3 {
    pub e0: Scalar,
    pub e1: Scalar,
    pub e2: Scalar,
}

/// A position in space.
pub type Point3 = Vec3;

/// Red, green and blue, each meant to lie between 0 and 1.
pub type Color = Vec3;

impl Vec3 {
    /// The vector whose three components are positive zero.
    pub open spec fn spec_zero() -> Vec3 {
        Vec3 { e0: Scalar::zero(), e1: Scalar::zero(), e2: Scalar::zero() }
    }

    /// The vector with every component negated.
    pub open spec fn spec_neg(self) -> Vec3 {
        Vec3 { e0: self.e0.neg(), e1: self.e1.neg(), e2: self.e2.neg() }
    }

    /// Whether each component is closer to zero than 1e-8.
    pub open spec fn spec_near_zero(&self) -> bool {
        let s = Scalar { bits: NEAR_ZERO_BITS };
        self.e0.abs().lt(s) && self.e1.abs().lt(s) && self.e2.abs().lt(s)
    }

    /// Whether a squared length lies below 1: the point it was taken of is
    /// strictly inside the unit ball.
    pub open spec fn spec_inside_unit_ball(length_squared: Scalar) -> bool {
        length_squared.lt(Scalar::one())
    }

    /// A unit vector turned to the side of a normal: itself where its dot
    /// product with the normal is above zero, else its negation.
    pub open spec fn spec_random_on_hemisphere(on_unit_sphere: Vec3, facing: Scalar) -> Vec3 {
        if Scalar::zero().lt(facing) {
            on_unit_sphere
        } else {
            on_unit_sphere.spec_neg()
        }
    }

    pub fn new(e0: Scalar, e1: Scalar, e2: Scalar) -> (v: Vec3)
        ensures
            v == (Vec3 { e0, e1, e2 }),
    {
        Vec3 { e0, e1, e2 }
    }

    #[verifier::when_used_as_spec(spec_zero)]
    pub fn zero() -> (v: Vec3)
        ensures
            v == Vec3::spec_zero(),
    {
        Vec3 { e0: Scalar::zero(), e1: Scalar::zero(), e2: Scalar::zero() }
    }

    /// Sets every component to positive zero.
    pub fn clear(&mut self)
        ensures
            *final(self) == Vec3::spec_zero(),
    {
        self.e0 = Scalar::zero();
        self.e1 = Scalar::zero();
        self.e2 = Scalar::zero();
    }

    pub fn x(&self) -> (s: Scalar)
        ensures
            s == self.e0,
    {
        self.e0
    }

    pub fn y(&self) -> (s: Scalar)
        ensures
            s == self.e1,
    {
        self.e1
    }

    pub fn z(&self) -> (s: Scalar)
        ensures
            s == self.e2,
    {
        self.e2
    }

    #[verifier::when_used_as_spec(spec_neg)]
    pub fn neg(self) -> (v: Vec3)
        ensures
            v == self.spec_neg(),
    {
        Vec3 { e0: self.e0.neg(), e1: self.e1.neg(), e2: self.e2.neg() }
    }

    #[verifier::when_used_as_spec(spec_near_zero)]
    pub fn near_zero(&self) -> (b: bool)
        ensures
            b == self.spec_near_zero(),
    {
        let s = Scalar::from_bits(NEAR_ZERO_BITS);
        self.e0.abs().lt(s) && self.e1.abs().lt(s) && self.e2.abs().lt(s)
    }

    /// Decides whether a sample drawn from the cube around the origin is kept
    /// by the rejection sampling of the unit ball and of the unit disk. It
    /// takes the squared length of the sample.
    #[verifier::when_used_as_spec(spec_inside_unit_ball)]
    pub fn inside_unit_ball(length_squared: Scalar) -> (b: bool)
        ensures
            b == Vec3::spec_inside_unit_ball(length_squared),
    {
        length_squared.lt(Scalar::one())
    }

    /// Turns a random unit vector to the hemisphere of a normal. `facing` is
    /// the dot product of `on_unit_sphere` and the normal.
    #[verifier::when_used_as_spec(spec_random_on_hemisphere)]
    pub fn random_on_hemisphere(on_unit_sphere: Vec3, facing: Scalar) -> (v: Vec3)
        ensures
            v == Vec3::spec_random_on_hemisphere(on_unit_sphere, facing),
    {
        if facing.gt(Scalar::zero()) {
            on_unit_sphere
        } else {
            on_unit_sphere.neg()
        }
    }
}

impl PartialEq for Vec3 {
    /// Equality component by component, each as binary64 numbers.
    fn eq(&self, other: &Vec3) -> (b: bool) {
        self.e0.equals(other.e0) && self.e1.equals(other.e1) && self.e2.equals(other.e2)
    }
}

impl vstd::std_specs::cmp::PartialEqSpecImpl for Vec3 {
    open spec fn obeys_eq_spec() -> bool {
        true
    }

    open spec fn eq_spec(&self, other: &Vec3) -> bool {
        self.e0.equals(other.e0) && self.e1.equals(other.e1) && self.e2.equals(other.e2)
    }
}

impl Default for Vec3 {
    fn default() -> (v: Vec3)
        ensures
            v == Vec3::spec_zero(),
    {
        Vec3::zero()
    }
}

/// Negating a vector twice gives it back, and a vector is near zero exactly
/// when its negation is.
pub proof fn lemma_neg_is_an_involution(v: Vec3)
    ensures
        v.neg().neg() == v,
        v.neg().near_zero() == v.near_zero(),
{
}

/// A vector near zero has no NaN, and the zero vector is near zero.
pub proof fn lemma_near_zero_is_finite(v: Vec3)
    ensures
        v.near_zero() ==> !v.e0.is_nan() && !v.e1.is_nan() && !v.e2.is_nan(),
        Vec3::zero().near_zero(),
{
}

} // verus!
