//! The reflective material.
use crate::hittable::HitRecord;
use crate::ray::Ray;
use crate::scalar::Scalar;
use crate::vec3::{Color, Vec3};
use vstd::prelude::*;

verus! {

/// A mirror of the given albedo whose reflection is blurred by `fuzz`,
/// the radius of the ball from which the reflected direction is jittered.
#[derive(Clone, Copy, Debug, PartialEq, Eq, Structural)]
pub struct Metal {
    pub albedo: Color,
    pub fuzz: Scalar,
}

impl Metal {
    /// What a metal returns for a jittered reflection `direction` whose dot
    /// product with the surface normal is `facing`.
    pub open spec fn spec_scatter(self, rec: HitRecord, direction: Vec3, facing: Scalar) -> Option<
        (Color, Ray),
    > {
        if facing.spec_gt(Scalar::spec_zero()) {
            Some((self.albedo, Ray { origin: rec.p, direction }))
        } else {
            None
        }
    }

    /// A metal of the given albedo and fuzz. The fuzz is expected between
    /// zero and one and is taken as given.
    pub fn new(albedo: Color, fuzz: Scalar) -> (m: Metal)
        ensures
            m.albedo == albedo,
            m.fuzz == fuzz,
    {
        Metal { albedo, fuzz }
    }

    /// Scatters along `direction`, the jittered mirror reflection of the
    /// incoming ray, tinted by the albedo, as long as that direction leaves
    /// the surface: `facing`, its dot product with the normal, must be
    /// positive. A reflection that would go into the surface is absorbed.
    pub fn scatter(&self, rec: &HitRecord, direction: Vec3, facing: Scalar) -> (r: Option<
        (Color, Ray),
    >)
        ensures
            r == self.spec_scatter(*rec, direction, facing),
    {
        if facing.gt(Scalar::zero()) {
            Some((self.albedo, Ray::new(rec.p, direction)))
        } else {
            None
        }
    }
}

} // verus!
