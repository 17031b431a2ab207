//! The sphere, and which of its two crossings with a ray counts.

use crate::hittable::{below, HitRecord};
use crate::interval::Interval;
use crate::scalar::Scalar;
use crate::vec3::{Point3, Vec3};
use vstd::prelude::*;

verus! {

/// A point at which the line of a ray meets a sphere, as the arithmetic of
/// the caller gives it.
#[derive(Clone, Copy, Debug)]
pub struct Crossing {
    /// The root of the quadratic: the distance along the ray.
    pub t: Scalar,
    /// The point of the ray at that distance.
    pub p: Point3,
    /// From the center to `p`, divided by the radius.
    pub outward_normal: Vec3,
    /// The dot product of the ray's direction and `outward_normal`.
    pub facing: Scalar,
}

/// A sphere with a handle on its material.
#[derive(Debug)]
pub struct Sphere<M> {
    center: Point3,
    radius: Scalar,
    mat: M,
}

/// A radius as a sphere keeps it: the larger of positive zero and the one
/// given, so positive zero for a NaN and for whatever is not above zero.
pub open spec fn clamp_radius(radius: Scalar) -> Scalar {
    Scalar::zero().max(radius)
}

impl<M> Sphere<M> {
    pub closed spec fn spec_center(&self) -> Point3 {
        self.center
    }

    pub closed spec fn spec_radius(&self) -> Scalar {
        self.radius
    }

    pub closed spec fn spec_material(&self) -> M {
        self.mat
    }

    #[verifier::type_invariant]
    spec fn radius_is_not_negative(&self) -> bool {
        !self.radius.is_nan() && !self.radius.is_sign_negative()
    }

    /// The record of a crossing on this sphere: its normal is turned against
    /// the ray, and the material is the sphere's.
    pub open spec fn record(&self, c: Crossing) -> HitRecord<M> {
        HitRecord {
            p: c.p,
            normal: HitRecord::<M>::facing_normal(c.facing, c.outward_normal),
            mat: self.spec_material(),
            t: c.t,
            front_face: HitRecord::<M>::faces_front(c.facing),
        }
    }

    /// The crossing that counts in `ray_t`: none on a sphere whose radius is
    /// not above zero, which has no surface, and none where the discriminant
    /// is below zero; else the near one where `ray_t` surrounds its distance;
    /// else the far one where `ray_t` surrounds that; else none.
    pub open spec fn spec_hit(
        &self,
        discriminant: Scalar,
        near: Crossing,
        far: Crossing,
        ray_t: Interval,
    ) -> Option<HitRecord<M>> {
        if !Scalar::zero().lt(self.spec_radius()) {
            None
        } else if discriminant.lt(Scalar::zero()) {
            None
        } else if ray_t.surrounds(near.t) {
            Some(self.record(near))
        } else if ray_t.surrounds(far.t) {
            Some(self.record(far))
        } else {
            None
        }
    }

    /// A sphere around `center`. A radius that is not above zero is replaced
    /// by zero, and the sphere is then never hit.
    pub fn new(center: Point3, radius: Scalar, mat: M) -> (s: Self)
        ensures
            s.spec_center() == center,
            s.spec_radius() == clamp_radius(radius),
            s.spec_material() == mat,
    {
        Sphere { center, radius: Scalar::zero().max(radius), mat }
    }

    #[verifier::when_used_as_spec(spec_center)]
    pub fn center(&self) -> (p: Point3)
        ensures
            p == self.spec_center(),
    {
        self.center
    }

    pub fn material(&self) -> (m: &M)
        ensures
            *m == self.spec_material(),
    {
        &self.mat
    }

    /// The radius, which is never a NaN and never below zero.
    pub fn radius(&self) -> (s: Scalar)
        ensures
            s == self.spec_radius(),
            Scalar::zero().le(s),
            !s.is_sign_negative(),
    {
        proof {
            use_type_invariant(self);
        }
        self.radius
    }
}

impl<M: Copy> Sphere<M> {
    /// Decides what a ray finds on the sphere.
    ///
    /// The caller solves `|O + t D - C|^2 = r^2` and hands over the
    /// discriminant `h^2 - a c` and the crossings at the two roots,
    /// `(h - sqrt(discriminant)) / a` as `near` and `(h + sqrt(discriminant)) / a`
    /// as `far`. A sphere of radius zero is hit by no ray, whatever is handed
    /// over: not by one through its center either, where the discriminant is
    /// zero and the normal would be a quotient of zeros.
    pub fn hit(&self, discriminant: Scalar, near: Crossing, far: Crossing, ray_t: Interval) -> (res:
        Option<HitRecord<M>>)
        ensures
            res == self.spec_hit(discriminant, near, far, ray_t),
            res matches Some(rec) ==> ray_t.surrounds(rec.t),
    {
        if !Scalar::zero().lt(self.radius) {
            return None;
        }
        if discriminant.lt(Scalar::zero()) {
            return None;
        }
        let mut root = near;
        if !ray_t.surrounds(root.t) {
            root = far;
            if !ray_t.surrounds(root.t) {
                return None;
            }
        }
        let mut rec = HitRecord {
            p: root.p,
            normal: root.outward_normal,
            mat: self.mat,
            t: root.t,
            front_face: true,
        };
        rec.set_face_normal(root.facing, &root.outward_normal);
        Some(rec)
    }
}

/// A sphere reports its nearest crossing: a hit lies in the range asked for,
/// and with the roots in ascending order, lowering the upper end of the range
/// keeps a hit that is still below it and leaves none otherwise.
pub proof fn lemma_sphere_reports_nearest<M>(
    s: Sphere<M>,
    discriminant: Scalar,
    near: Crossing,
    far: Crossing,
    min: Scalar,
    wide: Scalar,
    narrow: Scalar,
)
    requires
        narrow.le(wide),
        !far.t.lt(near.t),
    ensures
        s.spec_hit(discriminant, near, far, Interval { min, max: wide }) matches Some(rec) ==> (
        Interval { min, max: wide }).surrounds(rec.t),
        s.spec_hit(discriminant, near, far, Interval { min, max: narrow }) == below(
            s.spec_hit(discriminant, near, far, Interval { min, max: wide }),
            narrow,
        ),
{
}

/// A sphere of radius zero is never hit, and one built with a radius that is
/// not above zero has radius zero. No sphere is hit where the discriminant
/// is below zero, in whatever range.
pub proof fn lemma_never_hit<M>(
    s: Sphere<M>,
    discriminant: Scalar,
    near: Crossing,
    far: Crossing,
    ray_t: Interval,
)
    ensures
        !Scalar::zero().lt(s.spec_radius()) ==> s.spec_hit(discriminant, near, far, ray_t) is None,
        discriminant.lt(Scalar::zero()) ==> s.spec_hit(discriminant, near, far, ray_t) is None,
        forall|radius: Scalar|
            !Scalar::zero().lt(radius) ==> #[trigger] clamp_radius(radius) == Scalar::zero(),
        !Scalar::zero().lt(Scalar::zero()),
{
}

/// On a sphere with a radius above zero, with a discriminant that is not
/// below zero, the near crossing counts wherever the range surrounds its
/// distance: the record has its distance and its point. The far one counts
/// where the range surrounds its distance and not that of the near one. A
/// record is always of one of the two, and holds the sphere's own material.
pub proof fn lemma_hit_is_a_root<M>(
    s: Sphere<M>,
    discriminant: Scalar,
    near: Crossing,
    far: Crossing,
    ray_t: Interval,
)
    ensures
        Scalar::zero().lt(s.spec_radius()) && !discriminant.lt(Scalar::zero()) && ray_t.surrounds(
            near.t,
        ) ==> s.spec_hit(discriminant, near, far, ray_t) == Some(s.record(near)),
        Scalar::zero().lt(s.spec_radius()) && !discriminant.lt(Scalar::zero())
            && !ray_t.surrounds(near.t) && ray_t.surrounds(far.t) ==> s.spec_hit(
            discriminant,
            near,
            far,
            ray_t,
        ) == Some(s.record(far)),
        s.spec_hit(discriminant, near, far, ray_t) matches Some(rec) ==> (rec == s.record(near)
            || rec == s.record(far)) && rec.mat == s.spec_material() && ray_t.surrounds(rec.t),
{
}

/// A ray from outside, for which the dot product of its direction and the
/// outward normal is below zero, is recorded as striking the front, with the
/// outward normal kept; any other is recorded with the normal negated.
pub proof fn lemma_front_face<M>(s: Sphere<M>, c: Crossing)
    ensures
        c.facing.lt(Scalar::zero()) ==> s.record(c).front_face && s.record(c).normal
            == c.outward_normal,
        !c.facing.lt(Scalar::zero()) ==> !s.record(c).front_face && s.record(c).normal
            == c.outward_normal.neg(),
        s.record(c).t == c.t,
        s.record(c).p == c.p,
        s.record(c).mat == s.spec_material(),
{
}

} // verus!
