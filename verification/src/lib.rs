//! The control core of a recursive, stochastic ray tracer.
//!
//! Numbers are IEEE 754 binary64 values held by their bit patterns, so that
//! every comparison the tracer makes is decided by integer arithmetic and
//! proved. Which surface a ray strikes first, which root of a sphere counts,
//! which way a normal faces, whether a material lets a ray go on and when a
//! path ends are all decided here. Sums, products and square roots are the
//! caller's: each function takes the numbers it compares as arguments.

pub mod scalar;
pub mod vec3;
pub mod ray;
pub mod interval;
pub mod hittable;
pub mod hittable_list;
pub mod sphere;
pub mod material;
pub mod camera;
