//! The diffuse material.
use crate::hittable::HitRecord;
use crate::ray::Ray;
use crate::vec3::{Color, Vec3};
use vstd::prelude::*;

verus! {

/// A matte surface that reflects its albedo in every direction.
#[derive(Clone, Copy, Debug, PartialEq, Eq, Structural)]
pub struct Lambertian {
    pub albedo: Color,
}

impl Lambertian {
    /// A matte surface of the given albedo.
    pub fn new(albedo: Color) -> (m: Lambertian)
        ensures
            m.albedo == albedo,
    {
        Lambertian { albedo }
    }

    /// Scatters along `direction`, the sum of the surface normal and a
    /// random unit vector, from the point that was hit. A matte surface
    /// never absorbs, and it tints by its albedo.
    pub fn scatter(&self, rec: &HitRecord, direction: Vec3) -> (r: Option<(Color, Ray)>)
        ensures
            r == Some((self.albedo, Ray { origin: rec.p, direction })),
    {
        Some((self.albedo, Ray::new(rec.p, direction)))
    }
}

} // verus!
