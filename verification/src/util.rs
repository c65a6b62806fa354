//! Small scalar helpers, and the random source.
use crate::scalar::{lemma_one_value, Scalar, HIDDEN_BIT};
use rand::{thread_rng, Rng};
use vstd::arithmetic::power2::*;
use vstd::prelude::*;

verus! {

/// `x` held to the interval from `min` to `max`: `min` when `x` is below
/// it, `max` when `x` is above it, and `x` itself otherwise. A NaN compares
/// neither below nor above and so comes back unchanged.
pub open spec fn clamp_spec(x: Scalar, min: Scalar, max: Scalar) -> Scalar {
    if x.spec_lt(min) {
        min
    } else if x.spec_gt(max) {
        max
    } else {
        x
    }
}

/// Holds `x` to the interval from `min` to `max`.
pub fn clamp(x: Scalar, min: Scalar, max: Scalar) -> (r: Scalar)
    ensures
        r == clamp_spec(x, min, max),
        !x.nan() && !min.nan() && !max.nan() && min.value() <= max.value() ==> !r.nan()
            && min.value() <= r.value() <= max.value(),
{
    if x.lt(min) {
        min
    } else if x.gt(max) {
        max
    } else {
        x
    }
}

/// The value of the draw that 64 random bits stand for, counted in steps
/// of two to the power -1074: the top 53 bits, read as an integer, times
/// two to the power -53.
pub open spec fn unit_fraction(bits: u64) -> int {
    (bits / 2048) * pow2(1021)
}

/// Whether `r` is a draw from the unit interval: a multiple of two to the
/// power -53 that is at least zero and less than one.
pub open spec fn unit_draw(r: Scalar) -> bool {
    &&& !r.nan()
    &&& !r.negative()
    &&& exists|bits: u64| r.value() == #[trigger] unit_fraction(bits)
    &&& 0 <= r.value() < Scalar::spec_one().value()
}

/// Calls `rand::Rng::gen` on `rand::thread_rng()` for a `u64`: the next 64
/// bits of the thread's generator. They are random, so nothing is claimed
/// of them.
#[verifier::external_body]
fn random_bits() -> u64 {
    thread_rng().gen()
}

/// The draw from the unit interval that 64 random bits stand for: their
/// top 53 bits as a binary fraction. Every such fraction is a double, so
/// the scalar is exact. Uniform bits give a uniform draw.
pub fn unit_interval(bits: u64) -> (r: Scalar)
    ensures
        r.value() == unit_fraction(bits),
        unit_draw(r),
{
    let k: u64 = bits / 2048;
    proof {
        lemma_one_value();
        lemma2_to64();
        lemma2_to64_rest();
        lemma_pow2_adds(53, 1021);
        lemma_pow2_pos(1021);
        assert(k * pow2(1021) < pow2(53) * pow2(1021)) by (nonlinear_arith)
            requires
                0 <= k < pow2(53),
                pow2(1021) > 0,
        ;
        assert(0 <= k * pow2(1021)) by (nonlinear_arith)
            requires
                0 <= k,
                pow2(1021) > 0,
        ;
    }
    if k == 0 {
        let r = Scalar::zero();
        assert(k * pow2(1021) == 0) by (nonlinear_arith)
            requires
                k == 0,
        ;
        assert(r.value() == unit_fraction(bits));
        return r;
    }
    let mut m: u64 = k;
    let mut e: u64 = 1022;
    proof {
        assert(k * pow2(0) == k) by (nonlinear_arith)
            requires
                pow2(0) == 1,
        ;
    }
    while m < HIDDEN_BIT
        invariant
            1 <= m < 0x0020_0000_0000_0000,
            1 <= e <= 1022,
            m == k * pow2((1022 - e) as nat),
            1 <= k,
        decreases e,
    {
        proof {
            lemma_pow2_unfold((1023 - e) as nat);
            lemma_pow2_pos((1022 - e) as nat);
            lemma2_to64_rest();
            if e == 1 {
                lemma_pow2_strictly_increases(53, 1021);
                assert(k * pow2(1021) >= pow2(1021)) by (nonlinear_arith)
                    requires
                        k >= 1,
                        pow2(1021) > 0,
                ;
            }
            assert(2 * (k * pow2((1022 - e) as nat)) == k * (2 * pow2((1022 - e) as nat)))
                by (nonlinear_arith);
        }
        m = m * 2;
        e = e - 1;
    }
    let r = Scalar::from_bits(e * HIDDEN_BIT + (m - HIDDEN_BIT));
    proof {
        assert(r.magnitude_bits() == e * HIDDEN_BIT + (m - HIDDEN_BIT));
        assert(r.exponent() == e);
        assert(r.fraction() == m - HIDDEN_BIT);
        lemma_pow2_adds((1022 - e) as nat, (e - 1) as nat);
        let a = pow2((1022 - e) as nat) as int;
        let b = pow2((e - 1) as nat) as int;
        assert((k * a) * b == k * (a * b)) by (nonlinear_arith);
        assert(r.magnitude() == m * pow2((e - 1) as nat));
        assert(r.value() == unit_fraction(bits));
    }
    r
}

/// A uniform draw from the unit interval, from the thread's generator.
pub fn random() -> (r: Scalar)
    ensures
        unit_draw(r),
{
    unit_interval(random_bits())
}

} // verus!
