//! Tests for the fixed-point scalar, vector and color algebra.

use raytracer::color::Color;
use raytracer::fixed::Fx;
use raytracer::fixed::SCALE;
use raytracer::structs::Ray;
use raytracer::structs::Vec3;
use raytracer::trig::HALF_PI_FX;

fn fx(v: i64) -> Fx {
    Fx { v }
}

fn v3(x: i64, y: i64, z: i64) -> Vec3 {
    Vec3 { x: fx(x), y: fx(y), z: fx(z) }
}

#[test]
fn fx_add_and_saturation() {
    assert_eq!(fx(1_500_000).add(fx(2_500_000)), fx(4_000_000));
    assert_eq!(fx(i64::MAX).add(fx(1)), fx(i64::MAX));
    assert_eq!(fx(i64::MIN).add(fx(-1)), fx(i64::MIN));
    assert_eq!(fx(i64::MIN).sub(fx(1)), fx(i64::MIN));
    assert_eq!(fx(i64::MIN).neg(), fx(i64::MAX));
}

#[test]
fn fx_mul_truncates_toward_zero() {
    assert_eq!(fx(1_500_000).mul(fx(1_500_000)), fx(2_250_000));
    // 0.000003 * 0.5 = 0.0000015, truncated to 0.000001
    assert_eq!(fx(3).mul(fx(500_000)), fx(1));
    // the negative mirror truncates toward zero, not down
    assert_eq!(fx(-3).mul(fx(500_000)), fx(-1));
}

#[test]
fn fx_div_conventions() {
    assert_eq!(fx(3_000_000).div(fx(2_000_000)), fx(1_500_000));
    assert_eq!(fx(1_000_000).div(fx(0)), fx(i64::MAX));
    assert_eq!(fx(-1_000_000).div(fx(0)), fx(i64::MIN));
    assert_eq!(fx(0).div(fx(0)), fx(0));
    assert_eq!(fx(1_000_000).div(fx(-2_000_000)), fx(-500_000));
}

#[test]
fn fx_sqrt_values() {
    assert_eq!(fx(4_000_000).sqrt(), fx(2_000_000));
    assert_eq!(fx(1_000_000).sqrt(), fx(1_000_000));
    assert_eq!(fx(-5).sqrt(), fx(0));
    // sqrt(2) to six places, truncated
    assert_eq!(fx(2_000_000).sqrt(), fx(1_414_213));
}

#[test]
fn fx_from_int_saturates() {
    assert_eq!(Fx::from_int(2), fx(2_000_000));
    assert_eq!(Fx::from_int(10_000_000_000_000), fx(i64::MAX));
    assert_eq!(Fx::from_int(-10_000_000_000_000), fx(i64::MIN));
}

#[test]
fn trig_basic_values() {
    assert_eq!(fx(0).sin(), fx(0));
    // the folded polynomial is clamped, so the quarter turn is exact
    assert_eq!(fx(HALF_PI_FX).sin(), fx(1_000_000));
    assert_eq!(fx(0).cos(), fx(1_000_000));
    // cosine is defined as the sine a quarter turn later
    assert_eq!(fx(0).cos(), fx(HALF_PI_FX).sin());
    let t = fx(785_398).tan().v;
    assert!((999_900..=1_000_100).contains(&t), "tan(pi/4) = {t}");
    assert_eq!(fx(-HALF_PI_FX).sin(), fx(-1_000_000));
}

#[test]
fn vec3_componentwise_ops() {
    let a = v3(1_000_000, 2_000_000, 3_000_000);
    let b = v3(4_000_000, 5_000_000, 6_000_000);
    assert_eq!(a.add(b), v3(5_000_000, 7_000_000, 9_000_000));
    assert_eq!(b.sub(a), v3(3_000_000, 3_000_000, 3_000_000));
    assert_eq!(a.neg(), v3(-1_000_000, -2_000_000, -3_000_000));
    assert_eq!(a.scale(fx(500_000)), v3(500_000, 1_000_000, 1_500_000));
    assert_eq!(a.dot(b), fx(32_000_000));
}

#[test]
fn cross_product_values_and_orthogonality() {
    let a = v3(1_000_000, 2_000_000, 3_000_000);
    let b = v3(4_000_000, 5_000_000, 6_000_000);
    let c = a.cross(b);
    assert_eq!(c, v3(-3_000_000, 6_000_000, -3_000_000));
    assert_eq!(c.dot(a), fx(0));
    assert_eq!(c.dot(b), fx(0));
    // with fractional components the rounded result is orthogonal to
    // within a few millionths
    let p = v3(1_500_000, -2_250_000, 500_000);
    let q = v3(333_333, 4_000_000, -1_200_000);
    let r = p.cross(q);
    assert!(r.dot(p).v.abs() <= 20, "dot = {}", r.dot(p).v);
    assert!(r.dot(q).v.abs() <= 20, "dot = {}", r.dot(q).v);
}

#[test]
fn norm_and_normalize() {
    let v = v3(3_000_000, 4_000_000, 0);
    assert_eq!(v.norm(), fx(5_000_000));
    let n = v.normalize();
    assert_eq!(n, v3(600_000, 800_000, 0));
    // this unit vector normalizes to itself exactly
    assert_eq!(n.normalize(), n);
    assert_eq!(n.norm(), fx(1_000_000));
}

#[test]
fn normalize_near_unit_for_inexact_norms() {
    let v = v3(1_000_000, 1_000_000, 0);
    let n = v.normalize().norm().v;
    assert!((999_990..=1_000_010).contains(&n), "norm = {n}");
    let w = v3(123_456, -654_321, 999_999);
    let m = w.normalize().norm().v;
    assert!((999_900..=1_000_100).contains(&m), "norm = {m}");
}

#[test]
fn rotate_quarter_turn_about_z() {
    let v = v3(1_000_000, 0, 0);
    let r = v.rotate(fx(0), fx(0), fx(HALF_PI_FX));
    assert!(r.x.v.abs() <= 10, "x = {}", r.x.v);
    assert_eq!(r.y, fx(1_000_000));
    assert_eq!(r.z, fx(0));
}

#[test]
fn rotate_zero_angles_is_identity() {
    // cos(0) is exactly one and sin(0) exactly zero, so every stage is
    // the identity on any vector
    let vs = [
        v3(1_000_000, 2_000_000, 3_000_000),
        v3(-123_456, 654_321, -999_999),
        v3(0, 0, 0),
        v3(i64::MAX, i64::MIN, 1),
    ];
    for v in vs {
        assert_eq!(v.rotate(fx(0), fx(0), fx(0)), v);
    }
}

#[test]
fn rotate_equals_staged_composition() {
    let v = v3(1_500_000, -2_250_000, 500_000);
    let (x, y, z) = (fx(300_000), fx(700_000), fx(-1_200_000));
    let direct = v.rotate(x, y, z);
    let staged = v.rotate(x, fx(0), fx(0)).rotate(fx(0), y, fx(0)).rotate(fx(0), fx(0), z);
    assert_eq!(direct, staged);
}

#[test]
fn rotate_order_is_x_then_y_then_z() {
    // rotating the y axis: a quarter turn about x sends it near +z;
    // the subsequent quarter turn about z must then leave it there
    let v = v3(0, 1_000_000, 0);
    let r = v.rotate(fx(HALF_PI_FX), fx(0), fx(HALF_PI_FX));
    assert!(r.x.v.abs() <= 10, "x = {}", r.x.v);
    assert!(r.y.v.abs() <= 10, "y = {}", r.y.v);
    assert!((999_980..=1_000_020).contains(&r.z.v), "z = {}", r.z.v);
}

#[test]
fn from_spherical_poles() {
    let v = Vec3::from_spherical(fx(2_000_000), fx(0), fx(0));
    assert_eq!(v.x, fx(0));
    assert_eq!(v.y, fx(0));
    assert_eq!(v.z, fx(2_000_000));
}

#[test]
fn ray_at_parameter() {
    let ray = Ray { origin: v3(1_000_000, 0, 0), direction: v3(0, 0, 2_000_000) };
    assert_eq!(ray.at(fx(1_500_000)), v3(1_000_000, 0, 3_000_000));
    assert_eq!(ray.at(fx(0)), v3(1_000_000, 0, 0));
}

#[test]
fn color_ops() {
    let a = Color { r: fx(100_000), g: fx(200_000), b: fx(300_000), a: fx(1_000_000) };
    let b = Color { r: fx(50_000), g: fx(60_000), b: fx(70_000), a: fx(0) };
    let sum = a.add(b);
    assert_eq!(sum.r, fx(150_000));
    assert_eq!(sum.g, fx(260_000));
    assert_eq!(sum.b, fx(370_000));
    assert_eq!(sum.a, fx(1_000_000));
    assert_eq!(a.sub(b).r, fx(50_000));
    assert_eq!(a.scale(fx(2_000_000)).g, fx(400_000));
    let mut acc = Color::zero();
    acc.add_assign(a);
    acc.add_assign(a);
    assert_eq!(acc.b, fx(600_000));
    assert_eq!(Color::white().r, fx(SCALE));
    assert_eq!(Color::black().a, fx(SCALE));
    assert_eq!(Color::orange().r, fx(996_078));
}
