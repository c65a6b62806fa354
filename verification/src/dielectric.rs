//! The transparent material.
use crate::hittable::HitRecord;
use crate::ray::Ray;
use crate::scalar::Scalar;
use crate::util::{random, unit_draw};
use crate::vec3::{Color, Vec3};
use vstd::prelude::*;

verus! {

/// What a transparent surface does to a ray.
#[derive(Clone, Copy, Debug, PartialEq, Eq, Structural)]
pub enum Bend {
    /// The ray is mirrored at the surface.
    Reflect,
    /// The ray passes through, bent by Snell's law.
    Refract,
}

/// A clear medium of refractive index `ir`.
#[derive(Clone, Copy, Debug, PartialEq, Eq, Structural)]
pub struct Dielectric {
    pub ir: Scalar,
}

impl Dielectric {
    /// Whether Snell's law has no solution: the refractive ratio times the
    /// sine of the incidence angle exceeds one.
    pub open spec fn spec_cannot_refract(ratio_sin_theta: Scalar) -> bool {
        ratio_sin_theta.spec_gt(Scalar::spec_one())
    }

    /// Reflect under total internal reflection; otherwise reflect exactly
    /// when the reflectance exceeds the draw.
    pub open spec fn spec_bend(ratio_sin_theta: Scalar, reflectance: Scalar, draw: Scalar) -> Bend {
        if Dielectric::spec_cannot_refract(ratio_sin_theta) || reflectance.spec_gt(draw) {
            Bend::Reflect
        } else {
            Bend::Refract
        }
    }

    /// A clear medium of the given refractive index.
    pub fn new(ir: Scalar) -> (m: Dielectric)
        ensures
            m.ir == ir,
    {
        Dielectric { ir }
    }

    /// The ratio of refractive indices across the surface, in the order in
    /// which the ray meets them: `inverse`, the reciprocal of the index,
    /// for a ray that enters through the front face, and the index itself
    /// for a ray that leaves.
    pub open spec fn spec_refraction_ratio(self, front_face: bool, inverse: Scalar) -> Scalar {
        if front_face {
            inverse
        } else {
            self.ir
        }
    }

    /// The ratio of refractive indices across the surface: `inverse`, the
    /// reciprocal of the index, on the front face, and the index itself on
    /// the back face.
    pub fn refraction_ratio(&self, front_face: bool, inverse: Scalar) -> (r: Scalar)
        ensures
            r == self.spec_refraction_ratio(front_face, inverse),
    {
        if front_face {
            inverse
        } else {
            self.ir
        }
    }

    /// Whether the ray is totally reflected. This is asked first: when it
    /// holds, the ray reflects, and neither a reflectance nor a random
    /// draw is needed.
    pub fn cannot_refract(ratio_sin_theta: Scalar) -> (r: bool)
        ensures
            r == Dielectric::spec_cannot_refract(ratio_sin_theta),
            r ==> forall|reflectance: Scalar, draw: Scalar|
                #[trigger] Dielectric::spec_bend(ratio_sin_theta, reflectance, draw)
                    == Bend::Reflect,
    {
        ratio_sin_theta.gt(Scalar::one())
    }

    /// Reflection or refraction. `ratio_sin_theta` is the refractive ratio
    /// times the sine of the incidence angle, `reflectance` is Schlick's
    /// estimate at that angle, and `draw` is a uniform draw from the unit
    /// interval.
    pub fn bend(ratio_sin_theta: Scalar, reflectance: Scalar, draw: Scalar) -> (b: Bend)
        ensures
            b == Dielectric::spec_bend(ratio_sin_theta, reflectance, draw),
    {
        if Dielectric::cannot_refract(ratio_sin_theta) || reflectance.gt(draw) {
            Bend::Reflect
        } else {
            Bend::Refract
        }
    }

    /// The direction into which a ray leaves the surface, found in the
    /// order that the physics asks for. The refractive ratio is chosen by
    /// the face that was hit. `cosine` is the dot product of the reversed
    /// unit direction of the ray with the normal; it is held to at most
    /// one, which guards against overshoot from rounding. `ratio_sin_theta`
    /// gives, for the ratio and that cosine, the ratio times the sine of
    /// the incidence angle, and total internal reflection is checked
    /// first. Only for a ray that can refract is `reflectance` asked for
    /// Schlick's estimate at that cosine and ratio, and a uniform draw
    /// taken from the thread's generator, in that order. `turn` gives the
    /// reflected or the refracted direction for that ratio, whichever was
    /// chosen.
    pub fn direction<A, R, D>(
        &self,
        front_face: bool,
        inverse: Scalar,
        cosine: Scalar,
        ratio_sin_theta: A,
        reflectance: R,
        turn: D,
    ) -> (direction: Vec3) where
        A: FnOnce(Scalar, Scalar) -> Scalar,
        R: FnOnce(Scalar, Scalar) -> Scalar,
        D: FnOnce(Bend, Scalar) -> Vec3,

        requires
            forall|ratio: Scalar, cos_theta: Scalar|
                call_requires(ratio_sin_theta, (ratio, cos_theta)),
            forall|cos_theta: Scalar, ratio: Scalar| call_requires(reflectance, (cos_theta, ratio)),
            forall|bend: Bend, ratio: Scalar| call_requires(turn, (bend, ratio)),
        ensures
            self.leaves(front_face, inverse, cosine, ratio_sin_theta, reflectance, turn, direction),
    {
        let ratio = self.refraction_ratio(front_face, inverse);
        let cos_theta = cosine.min(Scalar::one());
        let product = ratio_sin_theta(ratio, cos_theta);
        let bend = if Dielectric::cannot_refract(product) {
            Bend::Reflect
        } else {
            let estimate = reflectance(cos_theta, ratio);
            let draw = random();
            Dielectric::bend(product, estimate, draw)
        };
        let direction = turn(bend, ratio);
        assert(Dielectric::bends(product, cos_theta, ratio, reflectance, bend));
        direction
    }

    /// Whether a ray for which the refractive ratio times the sine of the
    /// incidence angle is `product` can bend as `bend` says: it reflects
    /// when it cannot refract, and otherwise it does what the reflectance
    /// for its cosine and ratio and some uniform draw decide.
    pub open spec fn bends<R>(
        product: Scalar,
        cos_theta: Scalar,
        ratio: Scalar,
        reflectance: R,
        bend: Bend,
    ) -> bool where R: FnOnce(Scalar, Scalar) -> Scalar {
        if Dielectric::spec_cannot_refract(product) {
            bend == Bend::Reflect
        } else {
            exists|estimate: Scalar, draw: Scalar| #[trigger]
                Dielectric::spec_bend(product, estimate, draw) == bend && call_ensures(
                    reflectance,
                    (cos_theta, ratio),
                    estimate,
                ) && unit_draw(draw)
        }
    }

    /// Whether `direction` is a direction into which a ray can leave the
    /// surface: what `turn` gives, at the refractive ratio of the face that
    /// was hit, for a bend that the ray can take at its guarded cosine.
    pub open spec fn leaves<A, R, D>(
        self,
        front_face: bool,
        inverse: Scalar,
        cosine: Scalar,
        ratio_sin_theta: A,
        reflectance: R,
        turn: D,
        direction: Vec3,
    ) -> bool where
        A: FnOnce(Scalar, Scalar) -> Scalar,
        R: FnOnce(Scalar, Scalar) -> Scalar,
        D: FnOnce(Bend, Scalar) -> Vec3,
     {
        let ratio = self.spec_refraction_ratio(front_face, inverse);
        let cos_theta = cosine.spec_min(Scalar::spec_one());
        exists|product: Scalar, bend: Bend|
            call_ensures(ratio_sin_theta, (ratio, cos_theta), product) && #[trigger]
                Dielectric::bends(product, cos_theta, ratio, reflectance, bend) && call_ensures(
                    turn,
                    (bend, ratio),
                    direction,
            )
    }

    /// Scatters along `direction`, the reflected or refracted direction
    /// that `bend` chose, from the point that was hit. A clear medium never
    /// absorbs and never tints: the attenuation is white.
    pub fn scatter(&self, rec: &HitRecord, direction: Vec3) -> (r: Option<(Color, Ray)>)
        ensures
            r == Some((Vec3::spec_white(), Ray { origin: rec.p, direction })),
    {
        Some((Vec3::white(), Ray::new(rec.p, direction)))
    }
}

/// What the draw cannot change, for a ray that can refract: a reflectance
/// of one or more always reflects, since every draw is below one, and a
/// reflectance of zero or less always refracts, since no draw is below
/// zero.
pub proof fn lemma_certain_bends(ratio_sin_theta: Scalar, reflectance: Scalar, draw: Scalar)
    requires
        !Dielectric::spec_cannot_refract(ratio_sin_theta),
        !reflectance.nan(),
        unit_draw(draw),
    ensures
        reflectance.value() >= Scalar::spec_one().value() ==> Dielectric::spec_bend(
            ratio_sin_theta,
            reflectance,
            draw,
        ) == Bend::Reflect,
        reflectance.value() <= 0 ==> Dielectric::spec_bend(ratio_sin_theta, reflectance, draw)
            == Bend::Refract,
{
}

} // verus!
