use raytracer::scalar::Scalar;
use rand::rngs::StdRng;
use rand::{Rng, RngCore, SeedableRng};
use raytracer::util::{clamp, random, unit_interval};

fn s(x: f64) -> Scalar {
    Scalar::from_bits(x.to_bits())
}

fn reference(x: f64, min: f64, max: f64) -> f64 {
    if x < min {
        min
    } else if x > max {
        max
    } else {
        x
    }
}

#[test]
fn clamp_keeps_a_value_inside() {
    assert_eq!(clamp(s(0.3), s(0.0), s(0.999)), s(0.3));
    assert_eq!(clamp(s(0.0), s(0.0), s(0.999)), s(0.0));
    assert_eq!(clamp(s(0.999), s(0.0), s(0.999)), s(0.999));
}

#[test]
fn clamp_raises_to_the_lower_bound() {
    assert_eq!(clamp(s(-3.0), s(0.0), s(0.999)), s(0.0));
    assert_eq!(clamp(s(f64::NEG_INFINITY), s(-1.0), s(1.0)), s(-1.0));
}

#[test]
fn clamp_lowers_to_the_upper_bound() {
    assert_eq!(clamp(s(1.5), s(0.0), s(0.999)), s(0.999));
    assert_eq!(clamp(s(f64::INFINITY), s(-1.0), s(1.0)), s(1.0));
}

#[test]
fn clamp_passes_nan_and_negative_zero_through() {
    assert!(clamp(s(f64::NAN), s(0.0), s(0.999)).is_nan());
    assert_eq!(clamp(s(-0.0), s(0.0), s(0.999)).to_bits(), (-0.0f64).to_bits());
}

#[test]
fn clamp_agrees_with_doubles() {
    let values = [
        -2.0,
        -0.0,
        0.0,
        1e-310,
        0.25,
        0.999,
        1.0,
        7.5,
        f64::INFINITY,
        f64::NEG_INFINITY,
        f64::NAN,
    ];
    for x in values {
        for min in values {
            for max in values {
                let got = clamp(s(x), s(min), s(max));
                assert_eq!(got.to_bits(), reference(x, min, max).to_bits(), "{} {} {}", x, min, max);
            }
        }
    }
}

fn d(x: Scalar) -> f64 {
    f64::from_bits(x.to_bits())
}

#[test]
fn unit_interval_of_exact_patterns() {
    assert_eq!(d(unit_interval(0)), 0.0);
    assert_eq!(d(unit_interval(2047)), 0.0);
    assert_eq!(d(unit_interval(2048)), 1.0 / 9007199254740992.0);
    assert_eq!(d(unit_interval(1 << 63)), 0.5);
    assert_eq!(d(unit_interval(1 << 62)), 0.25);
    assert_eq!(d(unit_interval(3 << 62)), 0.75);
    assert_eq!(d(unit_interval(u64::MAX)), 1.0 - f64::EPSILON / 2.0);
    assert_eq!(unit_interval(0).to_bits(), 0);
}

#[test]
fn unit_interval_is_the_top_53_bits_as_a_fraction() {
    let mut bits: u64 = 1;
    for _ in 0..5000 {
        let expected = (bits >> 11) as f64 * (1.0 / 9007199254740992.0);
        assert_eq!(unit_interval(bits).to_bits(), expected.to_bits(), "{:#x}", bits);
        bits = bits.wrapping_mul(6364136223846793005).wrapping_add(1442695040888963407);
    }
    for shift in 0..64 {
        let bits = 1u64 << shift;
        let expected = (bits >> 11) as f64 * (1.0 / 9007199254740992.0);
        assert_eq!(unit_interval(bits).to_bits(), expected.to_bits());
        let bits = u64::MAX >> shift;
        let expected = (bits >> 11) as f64 * (1.0 / 9007199254740992.0);
        assert_eq!(unit_interval(bits).to_bits(), expected.to_bits());
    }
}

#[test]
fn unit_interval_agrees_with_the_generator_double_for_double() {
    for seed in [0, 1, 42, 0xDEAD_BEEF] {
        let mut doubles = StdRng::seed_from_u64(seed);
        let mut words = StdRng::seed_from_u64(seed);
        for _ in 0..2000 {
            let x: f64 = doubles.gen();
            let bits = words.next_u64();
            assert_eq!(unit_interval(bits).to_bits(), x.to_bits());
        }
    }
}

#[test]
fn random_stays_in_the_unit_interval() {
    for _ in 0..10000 {
        let x = d(random());
        assert!(0.0 <= x && x < 1.0, "{}", x);
        assert_eq!((x * 9007199254740992.0).fract(), 0.0);
    }
}

#[test]
fn random_varies() {
    let first = random();
    let mut differs = false;
    for _ in 0..64 {
        if random() != first {
            differs = true;
        }
    }
    assert!(differs);
}
