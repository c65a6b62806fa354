//! Binary64 scalars as bit patterns, with their exact numeric meaning.
//!
//! A `Scalar` is the 64-bit pattern of an IEEE-754 double. Its numeric
//! meaning is given exactly, as an integer count of the smallest subnormal
//! step (two to the power -1074). Comparison, negation and absolute value
//! are decided on the bits and proved against that meaning.
use vstd::arithmetic::power2::*;
use vstd::prelude::*;

verus! {

/// The sign bit of a binary64 pattern.
pub const SIGN_BIT: u64 = 0x8000_0000_0000_0000;

/// The pattern of positive infinity; every larger magnitude is a NaN.
pub const INFINITY_BITS: u64 = 0x7FF0_0000_0000_0000;

/// Two to the power 52: the weight of the implicit leading bit of a normal
/// significand, and the number of fraction patterns per exponent.
pub const HIDDEN_BIT: u64 = 0x0010_0000_0000_0000;

/// The pattern of the scalar one.
pub const ONE_BITS: u64 = 0x3FF0_0000_0000_0000;

/// A binary64 scalar, held as its bit pattern. `==` compares patterns, so
/// it tells the two zeros apart and finds a NaN equal to itself; numeric
/// comparison is `lt` and its kin.
#[derive(Clone, Copy, Debug, PartialEq, Eq, Structural)]
pub struct Scalar {
    pub bits: u64,
}

impl Scalar {
    /// Whether the sign bit is set.
    pub open spec fn negative(self) -> bool {
        self.bits >= SIGN_BIT
    }

    /// The pattern without its sign bit.
    pub open spec fn magnitude_bits(self) -> nat {
        if self.bits >= SIGN_BIT {
            (self.bits - SIGN_BIT) as nat
        } else {
            self.bits as nat
        }
    }

    /// The biased exponent field.
    pub open spec fn exponent(self) -> nat {
        self.magnitude_bits() / (HIDDEN_BIT as nat)
    }

    /// The fraction field.
    pub open spec fn fraction(self) -> nat {
        self.magnitude_bits() % (HIDDEN_BIT as nat)
    }

    /// Whether the pattern is a NaN.
    pub open spec fn nan(self) -> bool {
        self.magnitude_bits() > INFINITY_BITS
    }

    /// The absolute value, counted in steps of two to the power -1074.
    /// Subnormals count their fraction; normals scale their 53-bit
    /// significand by the exponent. The same formula places the infinities
    /// at two to the power 2098, above every finite magnitude.
    pub open spec fn magnitude(self) -> nat {
        if self.exponent() == 0 {
            self.fraction()
        } else {
            ((HIDDEN_BIT + self.fraction()) * pow2((self.exponent() - 1) as nat)) as nat
        }
    }

    /// The signed value, counted in steps of two to the power -1074.
    /// Both zeros have value 0. Meaningful for every pattern that is not a
    /// NaN.
    pub open spec fn value(self) -> int {
        if self.negative() {
            -(self.magnitude() as int)
        } else {
            self.magnitude() as int
        }
    }

    /// Numeric `<`: false whenever either side is a NaN.
    pub open spec fn spec_lt(self, other: Scalar) -> bool {
        !self.nan() && !other.nan() && self.value() < other.value()
    }

    /// Numeric `>`: false whenever either side is a NaN.
    pub open spec fn spec_gt(self, other: Scalar) -> bool {
        other.spec_lt(self)
    }

    /// Numeric `<=`: false whenever either side is a NaN.
    pub open spec fn spec_le(self, other: Scalar) -> bool {
        !self.nan() && !other.nan() && self.value() <= other.value()
    }

    /// Numeric `>=`: false whenever either side is a NaN.
    pub open spec fn spec_ge(self, other: Scalar) -> bool {
        other.spec_le(self)
    }

    /// The lesser of two scalars. A NaN yields to the other side; of two
    /// that compare equal, `self` is taken.
    pub open spec fn spec_min(self, other: Scalar) -> Scalar {
        if self.nan() {
            other
        } else if other.spec_lt(self) {
            other
        } else {
            self
        }
    }

    /// The pattern with its sign bit flipped.
    pub open spec fn spec_neg(self) -> Scalar {
        if self.bits >= SIGN_BIT {
            Scalar { bits: (self.bits - SIGN_BIT) as u64 }
        } else {
            Scalar { bits: (self.bits + SIGN_BIT) as u64 }
        }
    }

    /// The pattern with its sign bit cleared.
    pub open spec fn spec_abs(self) -> Scalar {
        Scalar { bits: self.magnitude_bits() as u64 }
    }

    /// The scalar zero.
    pub open spec fn spec_zero() -> Scalar {
        Scalar { bits: 0 }
    }

    /// The scalar one.
    pub open spec fn spec_one() -> Scalar {
        Scalar { bits: ONE_BITS }
    }

    /// Wraps a bit pattern.
    pub fn from_bits(bits: u64) -> (r: Scalar)
        ensures
            r.bits == bits,
    {
        Scalar { bits }
    }

    /// The bit pattern.
    pub fn to_bits(self) -> (r: u64)
        ensures
            r == self.bits,
    {
        self.bits
    }

    /// The scalar zero.
    pub fn zero() -> (r: Scalar)
        ensures
            r == Scalar::spec_zero(),
            r.value() == 0,
            !r.nan(),
    {
        Scalar { bits: 0 }
    }

    /// The scalar one.
    pub fn one() -> (r: Scalar)
        ensures
            r == Scalar::spec_one(),
            r.value() == pow2(1074),
            !r.nan(),
    {
        proof {
            lemma_one_value();
        }
        Scalar { bits: ONE_BITS }
    }

    /// The pattern without its sign bit.
    fn magnitude_of(self) -> (r: u64)
        ensures
            r == self.magnitude_bits(),
            r < SIGN_BIT,
    {
        if self.bits >= SIGN_BIT {
            self.bits - SIGN_BIT
        } else {
            self.bits
        }
    }

    /// Whether the scalar is a NaN.
    pub fn is_nan(self) -> (r: bool)
        ensures
            r == self.nan(),
    {
        self.magnitude_of() > INFINITY_BITS
    }

    /// The negated scalar: the sign bit flips, nothing else changes.
    pub fn neg(self) -> (r: Scalar)
        ensures
            r == self.spec_neg(),
            r.nan() == self.nan(),
            r.value() == -self.value(),
            r.spec_neg() == self,
    {
        if self.bits >= SIGN_BIT {
            Scalar { bits: self.bits - SIGN_BIT }
        } else {
            Scalar { bits: self.bits + SIGN_BIT }
        }
    }

    /// The absolute value: the sign bit is cleared.
    pub fn abs(self) -> (r: Scalar)
        ensures
            r == self.spec_abs(),
            r.nan() == self.nan(),
            r.value() == self.magnitude(),
            r.value() == if self.value() < 0 { -self.value() } else { self.value() },
    {
        Scalar { bits: self.magnitude_of() }
    }

    /// Numeric `<`.
    pub fn lt(self, other: Scalar) -> (r: bool)
        ensures
            r == self.spec_lt(other),
    {
        let a: u64 = self.magnitude_of();
        let b: u64 = other.magnitude_of();
        if a > INFINITY_BITS || b > INFINITY_BITS {
            return false;
        }
        proof {
            lemma_magnitude_order(self, other);
            lemma_magnitude_order(other, self);
            lemma_magnitude_order(Scalar::spec_zero(), self);
            lemma_magnitude_order(Scalar::spec_zero(), other);
        }
        if self.bits >= SIGN_BIT {
            if other.bits >= SIGN_BIT {
                b < a
            } else {
                a != 0 || b != 0
            }
        } else {
            if other.bits >= SIGN_BIT {
                false
            } else {
                a < b
            }
        }
    }

    /// Numeric `>`.
    pub fn gt(self, other: Scalar) -> (r: bool)
        ensures
            r == self.spec_gt(other),
    {
        other.lt(self)
    }

    /// The lesser of two scalars, as it guards a cosine against overshoot:
    /// the result is one of the two, it is a NaN only if both are, and
    /// otherwise it is above neither.
    pub fn min(self, other: Scalar) -> (r: Scalar)
        ensures
            r == self.spec_min(other),
            r == self || r == other,
            r.nan() ==> self.nan() && other.nan(),
            !self.nan() && !r.nan() ==> r.value() <= self.value(),
            !other.nan() && !r.nan() ==> r.value() <= other.value(),
    {
        if self.is_nan() {
            other
        } else if other.lt(self) {
            other
        } else {
            self
        }
    }

    /// Numeric `<=`.
    pub fn le(self, other: Scalar) -> (r: bool)
        ensures
            r == self.spec_le(other),
    {
        !self.is_nan() && !other.is_nan() && !other.lt(self)
    }

    /// Numeric `>=`.
    pub fn ge(self, other: Scalar) -> (r: bool)
        ensures
            r == self.spec_ge(other),
    {
        other.le(self)
    }
}

/// The magnitude of a pattern lies in the binade that its exponent field
/// names: below two to the power 52 for subnormals, and between the
/// exponent's power of two and the next one for normals.
pub proof fn lemma_magnitude_bounds(a: Scalar)
    ensures
        a.exponent() == 0 ==> a.magnitude() == a.fraction(),
        a.exponent() > 0 ==> HIDDEN_BIT * pow2((a.exponent() - 1) as nat) <= a.magnitude(),
        a.magnitude() < HIDDEN_BIT * pow2(a.exponent()),
{
    let e = a.exponent();
    let f = a.fraction();
    let h = HIDDEN_BIT as int;
    assert(f < h);
    if e == 0 {
        lemma2_to64();
    } else {
        let p = pow2((e - 1) as nat) as int;
        lemma_pow2_pos((e - 1) as nat);
        lemma_pow2_unfold(e);
        assert(h * p <= (h + f) * p && (h + f) * p < h * (2 * p)) by (nonlinear_arith)
            requires
                0 <= f < h,
                p > 0,
        ;
    }
}

/// Magnitudes are ordered as their patterns are: a larger pattern (sign
/// aside) is a strictly larger magnitude.
pub proof fn lemma_magnitude_order(a: Scalar, b: Scalar)
    ensures
        a.magnitude_bits() < b.magnitude_bits() ==> a.magnitude() < b.magnitude(),
        a.magnitude_bits() == b.magnitude_bits() ==> a.magnitude() == b.magnitude(),
{
    if a.magnitude_bits() < b.magnitude_bits() {
        let h = HIDDEN_BIT as int;
        let ea = a.exponent();
        let eb = b.exponent();
        let fa = a.fraction();
        let fb = b.fraction();
        assert(a.magnitude_bits() == h * ea + fa && b.magnitude_bits() == h * eb + fb);
        assert(ea <= eb) by (nonlinear_arith)
            requires
                h * ea + fa < h * eb + fb,
                0 <= fa < h,
                0 <= fb < h,
        ;
        if ea == eb {
            if ea > 0 {
                let p = pow2((ea - 1) as nat) as int;
                lemma_pow2_pos((ea - 1) as nat);
                assert((h + fa) * p < (h + fb) * p) by (nonlinear_arith)
                    requires
                        fa < fb,
                        p > 0,
                ;
            }
        } else {
            lemma_magnitude_bounds(a);
            lemma_magnitude_bounds(b);
            let pa = pow2(ea) as int;
            let pb = pow2((eb - 1) as nat) as int;
            if ea < eb - 1 {
                lemma_pow2_strictly_increases(ea, (eb - 1) as nat);
            }
            assert(h * pa <= h * pb) by (nonlinear_arith)
                requires
                    pa <= pb,
                    h > 0,
            ;
        }
    }
}

/// The scalar one is two to the power 1074 steps.
pub proof fn lemma_one_value()
    ensures
        Scalar::spec_one().value() == pow2(1074),
        !Scalar::spec_one().nan(),
        Scalar::spec_zero().value() == 0,
        !Scalar::spec_zero().nan(),
{
    let one = Scalar::spec_one();
    assert(one.magnitude_bits() == 0x3FF0_0000_0000_0000);
    assert(one.exponent() == 1023);
    assert(one.fraction() == 0);
    lemma2_to64_rest();
    lemma_pow2_adds(52, 1022);
    assert(one.magnitude() == HIDDEN_BIT * pow2(1022));
    assert(Scalar::spec_zero().exponent() == 0);
}

} // verus!
