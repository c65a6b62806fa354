//! What a ray finds when it meets a surface.
use crate::material::Material;
use crate::scalar::{lemma_magnitude_order, Scalar};
use crate::sphere::Sphere;
use crate::vec3::{Point3, Vec3};
use vstd::prelude::*;

verus! {

/// Where a ray crosses one primitive: the discriminant of the quadratic in
/// the ray parameter, and its two roots.
#[derive(Clone, Copy, Debug, PartialEq, Eq, Structural)]
pub struct Crossing {
    pub discriminant: Scalar,
    pub near: Scalar,
    pub far: Scalar,
}

impl Crossing {
    /// Whether a root lies in the closed interval from `t_min` to `t_max`:
    /// it is neither below the one nor above the other.
    pub open spec fn within(root: Scalar, t_min: Scalar, t_max: Scalar) -> bool {
        !(root.spec_lt(t_min) || t_max.spec_lt(root))
    }

    /// The root that counts as the hit. A negative discriminant means the
    /// ray misses. Otherwise the nearer root is taken if it lies in the
    /// interval, else the farther one if that does, else there is no hit.
    pub open spec fn root(self, t_min: Scalar, t_max: Scalar) -> Option<Scalar> {
        if self.discriminant.spec_lt(Scalar::spec_zero()) {
            None
        } else if Crossing::within(self.near, t_min, t_max) {
            Some(self.near)
        } else if Crossing::within(self.far, t_min, t_max) {
            Some(self.far)
        } else {
            None
        }
    }

    /// Whether the crossing is what a quadratic yields: no NaN among its
    /// three scalars, and the nearer root not beyond the farther.
    pub open spec fn ordered(self) -> bool {
        &&& !self.discriminant.nan()
        &&& !self.near.nan()
        &&& !self.far.nan()
        &&& self.near.value() <= self.far.value()
    }
}

/// The record of a hit.
#[derive(Clone, Copy, Debug, PartialEq, Eq, Structural)]
pub struct HitRecord {
    /// Where the ray met the surface.
    pub p: Point3,
    /// The surface normal there, turned against the ray.
    pub normal: Vec3,
    /// The ray parameter of the hit.
    pub t: Scalar,
    /// Whether the ray came from outside the surface.
    pub front_face: bool,
    /// The material of the surface.
    pub material: Material,
}

impl HitRecord {
    /// A record with the given point, normal, ray parameter and material.
    /// The face is not yet known and is recorded as the back.
    pub fn new(p: Point3, normal: Vec3, t: Scalar, material: Material) -> (rec: HitRecord)
        ensures
            rec == (HitRecord { p, normal, t, front_face: false, material }),
    {
        HitRecord { p, normal, t, front_face: false, material }
    }

    /// Turns the normal against the ray. `facing` is the dot product of
    /// the ray's direction with `outward_normal`. When it is negative the
    /// ray comes from outside: the hit is on the front face and the
    /// outward normal is kept. Otherwise the hit is on the back face and
    /// the normal is reversed.
    pub fn set_face_normal(&mut self, facing: Scalar, outward_normal: Vec3)
        ensures
            final(self).front_face == facing.spec_lt(Scalar::spec_zero()),
            final(self).normal == if facing.spec_lt(Scalar::spec_zero()) {
                outward_normal
            } else {
                outward_normal.spec_neg()
            },
            final(self).p == old(self).p,
            final(self).t == old(self).t,
            final(self).material == old(self).material,
    {
        self.front_face = facing.lt(Scalar::zero());
        self.normal = if self.front_face {
            outward_normal
        } else {
            outward_normal.neg()
        };
    }
}

/// The dot product of the ray's direction with the normal that
/// `set_face_normal` leaves, given `facing`, its dot product with the
/// outward normal. A dot product changes sign with either of its arguments,
/// so reversing the normal negates it.
pub open spec fn oriented_facing(facing: Scalar) -> Scalar {
    if facing.spec_lt(Scalar::spec_zero()) {
        facing
    } else {
        facing.spec_neg()
    }
}

/// The oriented normal faces against the ray: unless the ray grazes the
/// surface, so that `facing` is zero, the dot product of its direction with
/// the oriented normal is negative.
pub proof fn lemma_oriented_normal_opposes_ray(facing: Scalar)
    requires
        !facing.nan(),
        facing.value() != 0,
    ensures
        oriented_facing(facing).spec_lt(Scalar::spec_zero()),
{
    lemma_magnitude_order(Scalar::spec_zero(), facing);
    lemma_magnitude_order(Scalar::spec_zero(), facing.spec_neg());
}

/// The root that counts is the nearest one in the interval. For an ordered
/// crossing and an interval without NaN, a reported root is one of the two
/// roots, lies in the interval, and is not beyond any root that does; a
/// miss is reported exactly when the discriminant is negative or neither
/// root lies in the interval.
pub proof fn lemma_root_is_nearest_within(c: Crossing, t_min: Scalar, t_max: Scalar)
    requires
        c.ordered(),
        !t_min.nan(),
        !t_max.nan(),
    ensures
        match c.root(t_min, t_max) {
            Some(t) => {
                &&& t == c.near || t == c.far
                &&& t_min.value() <= t.value() <= t_max.value()
                &&& Crossing::within(c.near, t_min, t_max) ==> t.value() <= c.near.value()
                &&& Crossing::within(c.far, t_min, t_max) ==> t.value() <= c.far.value()
            },
            None => c.discriminant.value() < 0 || (!Crossing::within(c.near, t_min, t_max)
                && !Crossing::within(c.far, t_min, t_max)),
        },
        c.discriminant.value() < 0 ==> c.root(t_min, t_max) is None,
{
}

/// The closed set of primitives.
#[derive(Clone, Copy, Debug, PartialEq, Eq, Structural)]
pub enum Hittable {
    Sphere(Sphere),
}

impl Hittable {
    /// The ray parameter at which the primitive is hit within the interval
    /// from `t_min` to `t_max`, if it is.
    pub fn hit(&self, crossing: &Crossing, t_min: Scalar, t_max: Scalar) -> (r: Option<Scalar>)
        ensures
            r == crossing.root(t_min, t_max),
    {
        match self {
            Hittable::Sphere(s) => s.hit(crossing, t_min, t_max),
        }
    }

    /// The record of a hit at ray parameter `t`, from the point `p` of the
    /// ray there, the outward normal at `p`, and `facing`, the dot product
    /// of the ray's direction with that normal.
    pub fn record(&self, t: Scalar, p: Point3, outward_normal: Vec3, facing: Scalar) -> (rec:
        HitRecord)
        ensures
            rec == self.spec_record(t, p, outward_normal, facing),
    {
        match self {
            Hittable::Sphere(s) => s.record(t, p, outward_normal, facing),
        }
    }

    /// The record of a hit at ray parameter `t`.
    pub open spec fn spec_record(
        self,
        t: Scalar,
        p: Point3,
        outward_normal: Vec3,
        facing: Scalar,
    ) -> HitRecord {
        match self {
            Hittable::Sphere(s) => s.spec_record(t, p, outward_normal, facing),
        }
    }

    /// The material of the primitive's surface.
    pub fn material(&self) -> (m: Material)
        ensures
            m == self.spec_material(),
    {
        match self {
            Hittable::Sphere(s) => s.material,
        }
    }

    /// The material of the primitive's surface.
    pub open spec fn spec_material(self) -> Material {
        match self {
            Hittable::Sphere(s) => s.material,
        }
    }
}

} // verus!
