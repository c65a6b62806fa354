//! The sphere.
use crate::hittable::{Crossing, HitRecord};
use crate::material::Material;
use crate::scalar::Scalar;
use crate::vec3::{Point3, Vec3};
use vstd::prelude::*;

verus! {

/// A sphere and the material of its surface.
#[derive(Clone, Copy, Debug, PartialEq, Eq, Structural)]
pub struct Sphere {
    pub center: Point3,
    pub radius: Scalar,
    pub material: Material,
}

impl Sphere {
    /// The sphere around `center`. The radius is expected positive and is
    /// taken as given.
    pub fn new(center: Point3, radius: Scalar, material: Material) -> (s: Sphere)
        ensures
            s == (Sphere { center, radius, material }),
    {
        Sphere { center, radius, material }
    }

    /// The ray parameter at which the sphere is hit: the root of the
    /// crossing that counts within the interval from `t_min` to `t_max`.
    pub fn hit(&self, crossing: &Crossing, t_min: Scalar, t_max: Scalar) -> (r: Option<Scalar>)
        ensures
            r == crossing.root(t_min, t_max),
    {
        if crossing.discriminant.lt(Scalar::zero()) {
            return None;
        }
        let mut root = crossing.near;
        if root.lt(t_min) || t_max.lt(root) {
            root = crossing.far;
            if root.lt(t_min) || t_max.lt(root) {
                return None;
            }
        }
        Some(root)
    }

    /// The record of the hit of one ray within the interval from `t_min` to
    /// `t_max`, or `None` when the ray misses. `crossing` is the ray's
    /// crossing with the sphere. `contact` gives, for the ray parameter of
    /// the hit, the point of the ray there, the outward normal at that
    /// point, and the dot product of the ray's direction with that normal;
    /// it is asked only when the sphere is hit.
    pub fn hit_with<G>(&self, crossing: &Crossing, contact: G, t_min: Scalar, t_max: Scalar) -> (r:
        Option<HitRecord>) where G: FnOnce(Scalar) -> (Point3, Vec3, Scalar)
        requires
            forall|t: Scalar| call_requires(contact, (t,)),
        ensures
            match crossing.root(t_min, t_max) {
                None => r is None,
                Some(t) => exists|p: Point3, outward_normal: Vec3, facing: Scalar| #[trigger]
                    call_ensures(contact, (t,), (p, outward_normal, facing)) && r == Some(
                        self.spec_record(t, p, outward_normal, facing),
                    ),
            },
    {
        match self.hit(crossing, t_min, t_max) {
            None => None,
            Some(t) => {
                let (p, outward_normal, facing) = contact(t);
                Some(self.record(t, p, outward_normal, facing))
            },
        }
    }

    /// The record of a hit at ray parameter `t`: the point, the parameter,
    /// the sphere's material, and the normal turned against the ray.
    pub open spec fn spec_record(
        self,
        t: Scalar,
        p: Point3,
        outward_normal: Vec3,
        facing: Scalar,
    ) -> HitRecord {
        let front_face = facing.spec_lt(Scalar::spec_zero());
        HitRecord {
            p,
            normal: if front_face {
                outward_normal
            } else {
                outward_normal.spec_neg()
            },
            t,
            front_face,
            material: self.material,
        }
    }

    /// The record of a hit at ray parameter `t`. `p` is the point of the
    /// ray there, `outward_normal` is the unit vector from the centre to
    /// `p`, and `facing` is the dot product of the ray's direction with it.
    /// The record carries the sphere's material and a normal turned
    /// against the ray.
    pub fn record(&self, t: Scalar, p: Point3, outward_normal: Vec3, facing: Scalar) -> (rec:
        HitRecord)
        ensures
            rec == self.spec_record(t, p, outward_normal, facing),
    {
        let mut rec = HitRecord::new(p, outward_normal, t, self.material);
        rec.set_face_normal(facing, outward_normal);
        rec
    }
}

} // verus!
