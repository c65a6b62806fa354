//! The closed set of materials.
use crate::dielectric::Dielectric;
use crate::hittable::HitRecord;
use crate::lambertian::Lambertian;
use crate::metal::Metal;
use crate::ray::Ray;
use crate::scalar::Scalar;
use crate::vec3::{Color, Vec3};
use vstd::prelude::*;

verus! {

/// A surface's rule for turning an incoming ray into an outgoing one.
#[derive(Clone, Copy, Debug, PartialEq, Eq, Structural)]
pub enum Material {
    Lambertian(Lambertian),
    Metal(Metal),
    Dielectric(Dielectric),
}

impl Material {
    /// The attenuation and outgoing ray for a direction that the material's
    /// geometry produced, or `None` where the light is absorbed. Only a
    /// metal absorbs, and only when the direction does not leave the
    /// surface.
    pub open spec fn spec_scatter(self, rec: HitRecord, direction: Vec3, facing: Scalar) -> Option<
        (Color, Ray),
    > {
        match self {
            Material::Lambertian(m) => Some((m.albedo, Ray { origin: rec.p, direction })),
            Material::Metal(m) => m.spec_scatter(rec, direction, facing),
            Material::Dielectric(_) => Some(
                (Vec3::spec_white(), Ray { origin: rec.p, direction }),
            ),
        }
    }

    /// Scatters along `direction` from the point that was hit. `facing` is
    /// the dot product of `direction` with the surface normal; only a metal
    /// looks at it.
    pub fn scatter(&self, rec: &HitRecord, direction: Vec3, facing: Scalar) -> (r: Option<
        (Color, Ray),
    >)
        ensures
            r == self.spec_scatter(*rec, direction, facing),
            !(self is Metal) ==> r is Some,
    {
        match self {
            Material::Lambertian(m) => m.scatter(rec, direction),
            Material::Metal(m) => m.scatter(rec, direction, facing),
            Material::Dielectric(m) => m.scatter(rec, direction),
        }
    }
}

} // verus!
