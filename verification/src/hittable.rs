//! What a ray finds where it strikes a surface, and the surfaces' protocol.

use crate::interval::Interval;
use crate::ray::Ray;
use crate::scalar::Scalar;
use crate::vec3::{Point3, Vec3};
use vstd::prelude::*;

verus! {

/// One crossing of a ray and a surface.
///
/// `mat` is the surface's handle on its material. Many surfaces may hold the
/// same handle, and every record of a hit on them then names one material.
#[derive(Debug)]
pub struct HitRecord<M> {
    /// Where the ray strikes.
    pub p: Point3,
    /// The unit normal there, turned against the ray.
    pub normal: Vec3,
    /// The material of the surface.
    pub mat: M,
    /// The distance along the ray, in units of its direction.
    pub t: Scalar,
    /// Whether the ray comes from the outer side of the surface.
    pub front_face: bool,
}

impl<M> HitRecord<M> {
    /// Whether a ray comes from outside, given the dot product of its
    /// direction and the outward normal: it does where the product is below
    /// zero.
    pub open spec fn faces_front(facing: Scalar) -> bool {
        facing.lt(Scalar::zero())
    }

    /// The normal that a record keeps: the outward one for a ray from
    /// outside, else its negation, so that it always points against the ray.
    pub open spec fn facing_normal(facing: Scalar, outward_normal: Vec3) -> Vec3 {
        if Self::faces_front(facing) {
            outward_normal
        } else {
            outward_normal.neg()
        }
    }

    /// Sets `front_face` and `normal` of the record. `facing` is the dot
    /// product of the ray's direction and `outward_normal`, which is taken to
    /// have unit length.
    pub fn set_face_normal(&mut self, facing: Scalar, outward_normal: &Vec3)
        ensures
            final(self).front_face == Self::faces_front(facing),
            final(self).normal == Self::facing_normal(facing, *outward_normal),
            final(self).p == old(self).p,
            final(self).mat == old(self).mat,
            final(self).t == old(self).t,
    {
        self.front_face = facing.lt(Scalar::zero());
        self.normal = if self.front_face {
            *outward_normal
        } else {
            outward_normal.neg()
        };
    }
}

/// A surface that a ray can strike.
///
/// `hit` asks for the crossing of `r` whose distance lies strictly inside
/// `ray_t`. The answer is a function of the surface, the ray and the range
/// alone, which `hit_spec` names, and a crossing that is reported lies in the
/// range that was asked for. An implementation in unverified code is taken at
/// its word for both clauses: what is proved of a scene holds of surfaces that
/// keep them. Such an implementation has to define `hit_spec` as well, which
/// nothing calls; it may hand the question on to `hit`.
pub trait Hittable {
    /// The handle by which a surface names its material.
    type Material;

    /// What `hit` answers.
    spec fn hit_spec(&self, r: Ray, ray_t: Interval) -> Option<HitRecord<Self::Material>>;

    fn hit(&self, r: &Ray, ray_t: Interval) -> (res: Option<HitRecord<Self::Material>>)
        ensures
            res == self.hit_spec(*r, ray_t),
            res matches Some(rec) ==> ray_t.surrounds(rec.t),
    ;
}

/// The answer of a surface for the range from `min` to `max`.
pub open spec fn answer<H: Hittable>(s: H, r: Ray, min: Scalar, max: Scalar) -> Option<
    HitRecord<H::Material>,
> {
    s.hit_spec(r, Interval { min, max })
}

/// What is left of an answer once only distances below `max` count.
pub open spec fn below<M>(found: Option<HitRecord<M>>, max: Scalar) -> Option<HitRecord<M>> {
    match found {
        Some(rec) => if rec.t.lt(max) {
            found
        } else {
            None
        },
        None => None,
    }
}

/// A surface reports its nearest crossing along `r`: what it answers lies in
/// the range asked for, and lowering the upper end of a range keeps an answer
/// that is still below it and leaves no answer otherwise. A surface that
/// always answers with the least of its crossings in the range is of this
/// kind.
pub open spec fn reports_nearest<H: Hittable>(s: H, r: Ray) -> bool {
    &&& forall|min: Scalar, max: Scalar|
        (#[trigger] answer(s, r, min, max)) matches Some(rec) ==> (Interval {
            min,
            max,
        }).surrounds(rec.t)
    &&& forall|min: Scalar, wide: Scalar, narrow: Scalar|
        narrow.le(wide) ==> #[trigger] answer(s, r, min, narrow) == below(
            #[trigger] answer(s, r, min, wide),
            narrow,
        )
}

} // verus!
