use raytracer::color::{channel, header, write_color};
use raytracer::scalar::Scalar;
use raytracer::vec3::Vec3;

fn s(x: f64) -> Scalar {
    Scalar::from_bits(x.to_bits())
}

fn reference_clamp(x: f64, min: f64, max: f64) -> f64 {
    if x < min {
        min
    } else if x > max {
        max
    } else {
        x
    }
}

fn reference_channel(x: f64) -> i32 {
    (256.0 * reference_clamp(x, 0.0, 0.999)) as i32
}

#[test]
fn channel_of_exact_values() {
    assert_eq!(channel(s(0.0)), 0);
    assert_eq!(channel(s(0.25)), 64);
    assert_eq!(channel(s(0.5)), 128);
    assert_eq!(channel(s(0.75)), 192);
    assert_eq!(channel(s(0.999)), 255);
    assert_eq!(channel(s(1.0 / 256.0)), 1);
    assert_eq!(channel(s(255.0 / 256.0)), 255);
}

#[test]
fn channel_rounds_down() {
    assert_eq!(channel(s(0.0039)), 0);
    assert_eq!(channel(s(0.00391)), 1);
    assert_eq!(channel(s(0.49999)), 127);
    assert_eq!(channel(s(0.996)), 254);
    assert_eq!(channel(s(0.9961)), 255);
}

#[test]
fn channel_is_held_to_the_output_range() {
    assert_eq!(channel(s(1.0)), 255);
    assert_eq!(channel(s(17.0)), 255);
    assert_eq!(channel(s(f64::INFINITY)), 255);
    assert_eq!(channel(s(-0.5)), 0);
    assert_eq!(channel(s(f64::NEG_INFINITY)), 0);
    assert_eq!(channel(s(-0.0)), 0);
}

#[test]
fn channel_of_nan_is_zero() {
    assert_eq!(channel(s(f64::NAN)), 0);
    assert_eq!(reference_channel(f64::NAN), 0);
}

#[test]
fn channel_of_tiny_values_is_zero() {
    assert_eq!(channel(s(5e-324)), 0);
    assert_eq!(channel(s(1e-310)), 0);
    assert_eq!(channel(s(f64::MIN_POSITIVE)), 0);
    assert_eq!(channel(s(1e-8)), 0);
}

#[test]
fn channel_agrees_with_doubles_on_a_sweep() {
    let mut i: i32 = -200;
    while i <= 4200 {
        let x = (i as f64) / 4000.0;
        assert_eq!(channel(s(x)) as i32, reference_channel(x), "{}", x);
        let y = (x * x).sqrt() * 0.9993;
        assert_eq!(channel(s(y)) as i32, reference_channel(y), "{}", y);
        i += 1;
    }
}

#[test]
fn channel_agrees_with_doubles_at_every_step() {
    let mut k: i32 = 0;
    while k <= 256 {
        let edge = (k as f64) / 256.0;
        let below = f64::from_bits(edge.to_bits().wrapping_sub(1));
        let above = f64::from_bits(edge.to_bits() + 1);
        assert_eq!(channel(s(edge)) as i32, reference_channel(edge), "{}", edge);
        assert_eq!(channel(s(above)) as i32, reference_channel(above), "{}", above);
        if k > 0 {
            assert_eq!(channel(s(below)) as i32, reference_channel(below), "{}", below);
        }
        k += 1;
    }
}

#[test]
fn write_color_gives_three_decimal_channels() {
    let c = Vec3::new(s(1.0), s(0.0), s(0.5));
    assert_eq!(write_color(&c), "255 0 128");
    let c = Vec3::new(s(0.25), s(0.04), s(0.999));
    assert_eq!(write_color(&c), "64 10 255");
    let c = Vec3::new(s(0.0), s(0.0), s(0.0));
    assert_eq!(write_color(&c), "0 0 0");
}

#[test]
fn write_color_matches_formatted_doubles() {
    let values = [0.0, 0.1, 0.2, 0.33, 0.5, 0.71, 0.9, 0.999, 1.0, 2.0, -1.0];
    for r in values {
        for g in values {
            for b in values {
                let c = Vec3::new(s(r), s(g), s(b));
                let expected = format!(
                    "{} {} {}",
                    reference_channel(r),
                    reference_channel(g),
                    reference_channel(b)
                );
                assert_eq!(write_color(&c), expected);
            }
        }
    }
}

#[test]
fn header_of_the_reference_image() {
    assert_eq!(header(400, 225), "P3\n400 225\n255");
}

#[test]
fn header_of_other_sizes() {
    assert_eq!(header(1200, 800), "P3\n1200 800\n255");
    assert_eq!(header(1, 1), "P3\n1 1\n255");
    assert_eq!(header(0, 10), "P3\n0 10\n255");
}

#[test]
fn header_prints_integers_as_decimal() {
    let values = [0, 1, 9, 10, 99, 100, 101, 1000, 65535, i32::MAX, -1, -10, -255, i32::MIN];
    for w in values {
        for h in values {
            assert_eq!(header(w, h), format!("P3\n{} {}\n255", w, h));
        }
    }
}

#[test]
fn channel_agrees_with_doubles_on_scattered_patterns() {
    let mut state: u64 = 0x0F1E_2D3C_4B5A_6978;
    for _ in 0..20000 {
        state = state.wrapping_mul(6364136223846793005).wrapping_add(1442695040888963407);
        let bits = state ^ (state >> 31);
        let x = f64::from_bits(bits);
        assert_eq!(channel(Scalar::from_bits(bits)) as i32, reference_channel(x), "{:#x}", bits);
        let near_one = 0x3FE0_0000_0000_0000 | (bits >> 12);
        let y = f64::from_bits(near_one);
        assert_eq!(channel(Scalar::from_bits(near_one)) as i32, reference_channel(y));
        let small = (bits >> 2) % 0x3FF0_0000_0000_0000;
        let z = f64::from_bits(small);
        assert_eq!(channel(Scalar::from_bits(small)) as i32, reference_channel(z));
    }
}
