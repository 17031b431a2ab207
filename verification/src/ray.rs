//! Rays: an origin and a direction.

use crate::vec3::{Point3, Vec3};
use vstd::prelude::*;

verus! {

/// A half line: the points `orig + t * dir`.
#[derive(Clone, Copy, Debug)]
pub struct Ray {
    pub orig: Point3,
    pub dir: Vec3,
}

impl Ray {
    pub fn new(orig: Point3, dir: Vec3) -> (r: Ray)
        ensures
            r == (Ray { orig, dir }),
    {
        Ray { orig, dir }
    }

    pub fn origin(&self) -> (p: Point3)
        ensures
            p == self.orig,
    {
        self.orig
    }

    pub fn direction(&self) -> (v: Vec3)
        ensures
            v == self.dir,
    {
        self.dir
    }
}

} // verus!
