//! Triples of scalars: directions, points and colours.
use crate::scalar::{lemma_one_value, Scalar};
use vstd::prelude::*;

verus! {

/// The pattern of the threshold below which a component counts as zero:
/// the double nearest to ten to the power -8.
pub const NEAR_ZERO_BITS: u64 = 0x3E45_798E_E230_8C3A;

/// The pattern of the double one half.
pub const HALF_BITS: u64 = 0x3FE0_0000_0000_0000;

/// The pattern of the double nearest to seven tenths.
pub const SEVEN_TENTHS_BITS: u64 = 0x3FE6_6666_6666_6666;

/// Three scalars.
#[derive(Clone, Copy, Debug, PartialEq, Eq, Structural)]
pub struct Vec3 {
    pub x: Scalar,
    pub y: Scalar,
    pub z: Scalar,
}

/// A position in space.
pub type Point3 = Vec3;

/// A colour: red, green and blue in `x`, `y` and `z`.
pub type Color = Vec3;

impl Vec3 {
    /// The vector with every component's sign flipped.
    pub open spec fn spec_neg(self) -> Vec3 {
        Vec3 { x: self.x.spec_neg(), y: self.y.spec_neg(), z: self.z.spec_neg() }
    }

    /// Whether every component is smaller in magnitude than the threshold.
    pub open spec fn spec_near_zero(self) -> bool {
        let s = Scalar { bits: NEAR_ZERO_BITS };
        self.x.spec_abs().spec_lt(s) && self.y.spec_abs().spec_lt(s) && self.z.spec_abs().spec_lt(s)
    }

    /// The colour black.
    pub open spec fn spec_black() -> Color {
        Vec3 { x: Scalar { bits: 0 }, y: Scalar { bits: 0 }, z: Scalar { bits: 0 } }
    }

    /// The colour white.
    pub open spec fn spec_white() -> Color {
        Vec3 {
            x: Scalar::spec_one(),
            y: Scalar::spec_one(),
            z: Scalar::spec_one(),
        }
    }

    /// The zenith colour of the sky.
    pub open spec fn spec_light_blue() -> Color {
        Vec3 {
            x: Scalar { bits: HALF_BITS },
            y: Scalar { bits: SEVEN_TENTHS_BITS },
            z: Scalar::spec_one(),
        }
    }

    /// The vector with the given components.
    pub fn new(e0: Scalar, e1: Scalar, e2: Scalar) -> (v: Vec3)
        ensures
            v == (Vec3 { x: e0, y: e1, z: e2 }),
    {
        Vec3 { x: e0, y: e1, z: e2 }
    }

    /// The first component.
    pub fn x(&self) -> (r: Scalar)
        ensures
            r == self.x,
    {
        self.x
    }

    /// The second component.
    pub fn y(&self) -> (r: Scalar)
        ensures
            r == self.y,
    {
        self.y
    }

    /// The third component.
    pub fn z(&self) -> (r: Scalar)
        ensures
            r == self.z,
    {
        self.z
    }

    /// The opposite vector. Negation is exact: negating twice gives the
    /// vector back, bit for bit.
    pub fn neg(self) -> (v: Vec3)
        ensures
            v == self.spec_neg(),
            v.spec_neg() == self,
    {
        Vec3 { x: self.x.neg(), y: self.y.neg(), z: self.z.neg() }
    }

    /// Whether the vector is close to zero in every dimension. Nothing in
    /// this crate calls it: a scatter direction that cancels out is passed
    /// on as it is.
    pub fn near_zero(&self) -> (r: bool)
        ensures
            r == self.spec_near_zero(),
    {
        let s = Scalar::from_bits(NEAR_ZERO_BITS);
        self.x.abs().lt(s) && self.y.abs().lt(s) && self.z.abs().lt(s)
    }

    /// Turns a sample of the unit ball into the hemisphere around a normal.
    /// `facing` is the dot product of the sample with the normal: the
    /// sample is kept when that is positive and reversed otherwise.
    pub fn random_in_hemisphere(in_unit_sphere: Vec3, facing: Scalar) -> (v: Vec3)
        ensures
            v == if facing.spec_gt(Scalar::spec_zero()) {
                in_unit_sphere
            } else {
                in_unit_sphere.spec_neg()
            },
    {
        if facing.gt(Scalar::zero()) {
            in_unit_sphere
        } else {
            in_unit_sphere.neg()
        }
    }

    /// The rejection test of the samplers that draw from the unit ball and
    /// the unit disk: a sample of the enclosing cube or square is drawn again
    /// when its squared length is one or more, and kept otherwise.
    pub fn inside_unit_ball(length_squared: Scalar) -> (r: bool)
        ensures
            r == !length_squared.spec_ge(Scalar::spec_one()),
            r && !length_squared.nan() ==> length_squared.value() < Scalar::spec_one().value(),
    {
        proof {
            lemma_one_value();
        }
        !length_squared.ge(Scalar::one())
    }

    /// The colour black.
    pub fn black() -> (c: Color)
        ensures
            c == Vec3::spec_black(),
    {
        Vec3 { x: Scalar::zero(), y: Scalar::zero(), z: Scalar::zero() }
    }

    /// The colour white.
    pub fn white() -> (c: Color)
        ensures
            c == Vec3::spec_white(),
    {
        Vec3 { x: Scalar::one(), y: Scalar::one(), z: Scalar::one() }
    }

    /// The zenith colour of the sky: one half, seven tenths and one.
    pub fn light_blue() -> (c: Color)
        ensures
            c == Vec3::spec_light_blue(),
    {
        Vec3 {
            x: Scalar::from_bits(HALF_BITS),
            y: Scalar::from_bits(SEVEN_TENTHS_BITS),
            z: Scalar::one(),
        }
    }
}

impl Default for Vec3 {
    /// The zero vector.
    fn default() -> (v: Vec3)
        ensures
            v == Vec3::spec_black(),
    {
        Vec3 { x: Scalar::zero(), y: Scalar::zero(), z: Scalar::zero() }
    }
}

impl From<(Scalar, Scalar, Scalar)> for Vec3 {
    /// The vector with the components of the triple.
    fn from(t: (Scalar, Scalar, Scalar)) -> (v: Vec3) {
        let (e0, e1, e2) = t;
        Vec3::new(e0, e1, e2)
    }
}

impl vstd::std_specs::convert::FromSpecImpl<(Scalar, Scalar, Scalar)> for Vec3 {
    open spec fn obeys_from_spec() -> bool {
        true
    }

    open spec fn from_spec(t: (Scalar, Scalar, Scalar)) -> Vec3 {
        Vec3 { x: t.0, y: t.1, z: t.2 }
    }
}

} // verus!
