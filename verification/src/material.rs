//! Materials: whether a ray goes on from a surface, in which direction and
//! with how much of its light.

use crate::hittable::HitRecord;
use crate::ray::Ray;
use crate::scalar::{Scalar, ONE_BITS};
use crate::vec3::{Color, Vec3};
use vstd::prelude::*;

verus! {

/// A material that decides how a ray goes on from a hit.
///
/// `scatter` answers with the share of light that is kept, color by color,
/// and the ray that leaves, or with nothing where the light is absorbed. It
/// may draw random numbers, so two calls may differ: `may_scatter` names the
/// answers that a material can give, and no more is known of an
/// implementation. One in unverified code has to define `may_scatter` as
/// well, which nothing calls.
pub trait Scatter: Sized {
    /// Whether `out` is an answer that `scatter` can give.
    spec fn may_scatter(&self, r_in: Ray, rec: HitRecord<Self>, out: Option<(Color, Ray)>) -> bool;

    fn scatter(&self, r_in: &Ray, rec: &HitRecord<Self>) -> (out: Option<(Color, Ray)>)
        ensures
            self.may_scatter(*r_in, *rec, out),
    ;
}

/// A diffuse material.
#[derive(Clone, Copy, Debug)]
pub struct Lambertian {
    albedo: Color,
}

/// A mirror, blurred by `fuzz`.
#[derive(Clone, Copy, Debug)]
pub struct Metal {
    albedo: Color,
    fuzz: Scalar,
}

/// A clear material that bends light, such as glass.
#[derive(Clone, Copy, Debug)]
pub struct Dielectric {
    refraction_index: Scalar,
}

/// The color that keeps all light.
pub open spec fn white() -> Color {
    Vec3 { e0: Scalar { bits: ONE_BITS }, e1: Scalar { bits: ONE_BITS }, e2: Scalar { bits: ONE_BITS } }
}

impl Lambertian {
    pub closed spec fn spec_albedo(&self) -> Color {
        self.albedo
    }

    /// The direction in which light leaves: the candidate, or the normal
    /// where the candidate is too close to zero to be a direction.
    pub open spec fn scatter_direction(normal: Vec3, candidate: Vec3) -> Vec3 {
        if candidate.near_zero() {
            normal
        } else {
            candidate
        }
    }

    /// A diffuse material always scatters, and keeps its albedo of the light.
    pub open spec fn spec_scatter<M>(&self, rec: HitRecord<M>, candidate: Vec3) -> Option<
        (Color, Ray),
    > {
        Some(
            (
                self.spec_albedo(),
                Ray { orig: rec.p, dir: Self::scatter_direction(rec.normal, candidate) },
            ),
        )
    }

    pub fn new(albedo: Color) -> (m: Self)
        ensures
            m.spec_albedo() == albedo,
    {
        Lambertian { albedo }
    }

    #[verifier::when_used_as_spec(spec_albedo)]
    pub fn albedo(&self) -> (c: Color)
        ensures
            c == self.spec_albedo(),
    {
        self.albedo
    }

    /// Scatters from a hit. `candidate` is the sum of the normal of the hit
    /// and a random unit vector.
    pub fn scatter<M>(&self, rec: &HitRecord<M>, candidate: Vec3) -> (out: Option<(Color, Ray)>)
        ensures
            out == self.spec_scatter(*rec, candidate),
            out matches Some((attenuation, scattered)) && attenuation == self.spec_albedo()
                && scattered.orig == rec.p,
    {
        let mut scatter_direction = candidate;
        if scatter_direction.near_zero() {
            scatter_direction = rec.normal;
        }
        let scattered = Ray::new(rec.p, scatter_direction);
        let attenuation = self.albedo;
        Some((attenuation, scattered))
    }
}

impl Metal {
    pub closed spec fn spec_albedo(&self) -> Color {
        self.albedo
    }

    pub closed spec fn spec_fuzz(&self) -> Scalar {
        self.fuzz
    }

    /// A mirror scatters where the blurred reflection leaves the surface: its
    /// dot product with the normal is above zero. Else the light is absorbed.
    pub open spec fn spec_scatter<M>(&self, rec: HitRecord<M>, fuzzed: Vec3, facing: Scalar) -> Option<
        (Color, Ray),
    > {
        if Scalar::zero().lt(facing) {
            Some((self.spec_albedo(), Ray { orig: rec.p, dir: fuzzed }))
        } else {
            None
        }
    }

    /// A mirror of the given color. `fuzz` is meant to lie between 0, which
    /// is a perfect mirror, and 1.
    pub fn new(albedo: Color, fuzz: Scalar) -> (m: Self)
        ensures
            m.spec_albedo() == albedo,
            m.spec_fuzz() == fuzz,
    {
        Metal { albedo, fuzz }
    }

    #[verifier::when_used_as_spec(spec_albedo)]
    pub fn albedo(&self) -> (c: Color)
        ensures
            c == self.spec_albedo(),
    {
        self.albedo
    }

    #[verifier::when_used_as_spec(spec_fuzz)]
    pub fn fuzz(&self) -> (s: Scalar)
        ensures
            s == self.spec_fuzz(),
    {
        self.fuzz
    }

    /// Scatters from a hit. `fuzzed` is the reflection of the incoming
    /// direction about the normal, brought to unit length and then moved by
    /// `fuzz` times a random unit vector; `facing` is the dot product of
    /// `fuzzed` and the normal of the hit.
    pub fn scatter<M>(&self, rec: &HitRecord<M>, fuzzed: Vec3, facing: Scalar) -> (out: Option<
        (Color, Ray),
    >)
        ensures
            out == self.spec_scatter(*rec, fuzzed, facing),
    {
        let scattered = Ray::new(rec.p, fuzzed);
        let attenuation = self.albedo;
        if facing.gt(Scalar::zero()) {
            Some((attenuation, scattered))
        } else {
            None
        }
    }
}

impl Dielectric {
    pub closed spec fn spec_refraction_index(&self) -> Scalar {
        self.refraction_index
    }

    /// The ratio of the refractive indices across the surface, in the
    /// direction of the ray: the inverse of the index for a ray that enters,
    /// the index for one that leaves.
    pub open spec fn spec_refraction_ratio(&self, front_face: bool, inverse_index: Scalar) -> Scalar {
        if front_face {
            inverse_index
        } else {
            self.spec_refraction_index()
        }
    }

    /// Whether light is reflected: where it cannot be refracted, the ratio
    /// times the sine of the angle being above 1, or where the random draw
    /// falls below the reflectance.
    pub open spec fn reflects(ratio_sine: Scalar, reflectance: Scalar, draw: Scalar) -> bool {
        Scalar::one().lt(ratio_sine) || draw.lt(reflectance)
    }

    /// A clear material always scatters and keeps all light.
    pub open spec fn spec_scatter<M>(
        &self,
        rec: HitRecord<M>,
        ratio_sine: Scalar,
        reflectance: Scalar,
        draw: Scalar,
        reflected: Vec3,
        refracted: Vec3,
    ) -> Option<(Color, Ray)> {
        Some(
            (
                white(),
                Ray {
                    orig: rec.p,
                    dir: if Self::reflects(ratio_sine, reflectance, draw) {
                        reflected
                    } else {
                        refracted
                    },
                },
            ),
        )
    }

    /// A material of the given refractive index, relative to what surrounds
    /// it. The index is meant to be above zero.
    pub fn new(refraction_index: Scalar) -> (m: Self)
        ensures
            m.spec_refraction_index() == refraction_index,
    {
        Dielectric { refraction_index }
    }

    #[verifier::when_used_as_spec(spec_refraction_index)]
    pub fn refraction_index(&self) -> (s: Scalar)
        ensures
            s == self.spec_refraction_index(),
    {
        self.refraction_index
    }

    /// Picks the ratio of indices for a ray. `inverse_index` is 1 divided by
    /// the refractive index.
    #[verifier::when_used_as_spec(spec_refraction_ratio)]
    pub fn refraction_ratio(&self, front_face: bool, inverse_index: Scalar) -> (s: Scalar)
        ensures
            s == self.spec_refraction_ratio(front_face, inverse_index),
    {
        if front_face {
            inverse_index
        } else {
            self.refraction_index
        }
    }

    /// Scatters from a hit. With `ratio` the ratio of indices and `theta` the
    /// angle between the ray and the normal, `ratio_sine` is `ratio` times the
    /// sine of `theta`, `reflectance` is Schlick's approximation
    /// `r0 + (1 - r0) (1 - cos theta)^5` with `r0 = ((1 - ratio) / (1 + ratio))^2`,
    /// and `draw` is a random number from 0 up to 1. `reflected` and
    /// `refracted` are the two directions in which the light can leave.
    pub fn scatter<M>(
        &self,
        rec: &HitRecord<M>,
        ratio_sine: Scalar,
        reflectance: Scalar,
        draw: Scalar,
        reflected: Vec3,
        refracted: Vec3,
    ) -> (out: Option<(Color, Ray)>)
        ensures
            out == self.spec_scatter(*rec, ratio_sine, reflectance, draw, reflected, refracted),
    {
        let attenuation = Vec3::new(Scalar::one(), Scalar::one(), Scalar::one());
        let cannot_refract = ratio_sine.gt(Scalar::one());
        let direction = if cannot_refract || reflectance.gt(draw) {
            reflected
        } else {
            refracted
        };
        let scattered = Ray::new(rec.p, direction);
        Some((attenuation, scattered))
    }
}

} // verus!
