use raytracer::ray::Ray;
use raytracer::scalar::Scalar;
use raytracer::vec3::{Color, Point3, Vec3};

fn s(x: f64) -> Scalar {
    Scalar::from_bits(x.to_bits())
}

fn v(x: f64, y: f64, z: f64) -> Vec3 {
    Vec3::new(s(x), s(y), s(z))
}

#[test]
fn new_keeps_the_components_in_order() {
    let a = v(1.0, -2.0, 3.5);
    assert_eq!(a.x(), s(1.0));
    assert_eq!(a.y(), s(-2.0));
    assert_eq!(a.z(), s(3.5));
    assert_eq!(a.x, s(1.0));
}

#[test]
fn from_a_triple() {
    let a: Vec3 = Vec3::from((s(1.0), s(2.0), s(3.0)));
    assert_eq!(a, v(1.0, 2.0, 3.0));
}

#[test]
fn default_is_zero() {
    assert_eq!(Vec3::default(), v(0.0, 0.0, 0.0));
}

#[test]
fn points_and_colors_are_vectors() {
    let p: Point3 = v(1.0, 2.0, 3.0);
    let c: Color = p;
    assert_eq!(c, v(1.0, 2.0, 3.0));
}

#[test]
fn neg_reverses_every_component() {
    assert_eq!(v(1.0, -2.0, 0.0).neg(), v(-1.0, 2.0, -0.0));
    assert_eq!(v(1.0, -2.0, 0.0).neg().z().to_bits(), (-0.0f64).to_bits());
    assert_eq!(v(0.3, 0.7, -9.0).neg().neg(), v(0.3, 0.7, -9.0));
}

#[test]
fn near_zero_needs_every_component_small() {
    assert!(v(0.0, 0.0, 0.0).near_zero());
    assert!(v(1e-9, -1e-9, 9.9e-9).near_zero());
    assert!(!v(1e-8, 0.0, 0.0).near_zero());
    assert!(!v(0.0, -1e-8, 0.0).near_zero());
    assert!(!v(0.0, 0.0, 2e-8).near_zero());
    assert!(!v(1.0, 1e-9, 1e-9).near_zero());
    assert!(!v(f64::NAN, 0.0, 0.0).near_zero());
}

#[test]
fn near_zero_agrees_with_doubles() {
    let values = [0.0, -0.0, 1e-9, -1e-9, 9.999e-9, 1e-8, -1e-8, 1.0001e-8, 0.5, f64::NAN];
    for x in values {
        for y in values {
            for z in values {
                let th = 1e-8;
                let expected = (f64::abs(x) < th) && (f64::abs(y) < th) && (f64::abs(z) < th);
                assert_eq!(v(x, y, z).near_zero(), expected, "{} {} {}", x, y, z);
            }
        }
    }
}

#[test]
fn hemisphere_keeps_a_sample_on_the_normal_side() {
    let sample = v(0.1, 0.2, -0.3);
    assert_eq!(Vec3::random_in_hemisphere(sample, s(0.25)), sample);
    assert_eq!(Vec3::random_in_hemisphere(sample, s(5e-324)), sample);
}

#[test]
fn hemisphere_reverses_a_sample_on_the_far_side() {
    let sample = v(0.1, 0.2, -0.3);
    assert_eq!(Vec3::random_in_hemisphere(sample, s(-0.25)), v(-0.1, -0.2, 0.3));
    assert_eq!(Vec3::random_in_hemisphere(sample, s(0.0)), v(-0.1, -0.2, 0.3));
    assert_eq!(Vec3::random_in_hemisphere(sample, s(f64::NAN)), v(-0.1, -0.2, 0.3));
}

#[test]
fn unit_ball_keeps_lengths_below_one() {
    assert!(Vec3::inside_unit_ball(s(0.0)));
    assert!(Vec3::inside_unit_ball(s(0.75)));
    assert!(Vec3::inside_unit_ball(s(1.0 - f64::EPSILON / 2.0)));
    assert!(!Vec3::inside_unit_ball(s(1.0)));
    assert!(!Vec3::inside_unit_ball(s(1.0 + f64::EPSILON)));
    assert!(!Vec3::inside_unit_ball(s(3.0)));
    assert!(!Vec3::inside_unit_ball(s(f64::INFINITY)));
}

#[test]
fn unit_ball_test_agrees_with_doubles() {
    let values = [0.0, 0.5, 0.999_999, 1.0, 1.000_001, 2.9, f64::NAN, f64::INFINITY];
    for x in values {
        let redraw = x >= 1.0;
        assert_eq!(Vec3::inside_unit_ball(s(x)), !redraw, "{}", x);
    }
}

#[test]
fn named_colors() {
    assert_eq!(Vec3::black(), v(0.0, 0.0, 0.0));
    assert_eq!(Vec3::white(), v(1.0, 1.0, 1.0));
    assert_eq!(Vec3::light_blue(), v(0.5, 0.7, 1.0));
}

#[test]
fn ray_keeps_origin_and_direction() {
    let r = Ray::new(v(1.0, 2.0, 3.0), v(0.0, 0.0, -1.0));
    assert_eq!(r.origin(), v(1.0, 2.0, 3.0));
    assert_eq!(r.direction(), v(0.0, 0.0, -1.0));
}
