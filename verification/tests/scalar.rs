//! Fixed-point scalar arithmetic, square root and trigonometry.

use gfxmath::fixed::{fp_add, fp_sub, fp_neg, fp_mul, fp_div, fp_sqrt, int_to_fp, FP_ONE};
use gfxmath::trig::{fp_cos_deg, fp_sin_deg};

const S: f64 = 65536.0;

fn fp(x: f64) -> i64 {
    (x * S).round() as i64
}

fn to_f(v: i64) -> f64 {
    v as f64 / S
}

#[test]
fn add_and_sub_are_exact() {
    assert_eq!(fp_add(fp(1.5), fp(2.25)), fp(3.75));
    assert_eq!(fp_sub(fp(1.5), fp(2.25)), fp(-0.75));
    assert_eq!(fp_add(fp(-1.0), fp(1.0)), 0);
}

#[test]
fn add_saturates_at_the_i64_range() {
    assert_eq!(fp_add(i64::MAX, 1), i64::MAX);
    assert_eq!(fp_sub(i64::MIN, 1), i64::MIN);
    assert_eq!(fp_neg(i64::MIN), i64::MAX);
}

#[test]
fn mul_is_exact_on_representable_products() {
    assert_eq!(fp_mul(fp(2.0), fp(3.0)), fp(6.0));
    assert_eq!(fp_mul(fp(-2.0), fp(3.5)), fp(-7.0));
    assert_eq!(fp_mul(fp(0.5), fp(0.5)), fp(0.25));
    assert_eq!(fp_mul(fp(1.0), 12345), 12345);
    assert_eq!(fp_mul(12345, 0), 0);
}

#[test]
fn mul_rounds_down() {
    // 1/65536 * 1/65536 is far below the grid: the floor is zero.
    assert_eq!(fp_mul(1, 1), 0);
    // -1/65536 * 1/65536 floors to the grid point below zero.
    assert_eq!(fp_mul(-1, 1), -1);
}

#[test]
fn div_is_exact_on_representable_quotients() {
    assert_eq!(fp_div(fp(6.0), fp(3.0)), fp(2.0));
    assert_eq!(fp_div(fp(1.0), fp(-4.0)), fp(-0.25));
    assert_eq!(fp_div(fp(-1.0), fp(-4.0)), fp(0.25));
}

#[test]
fn div_rounds_down() {
    // 1/3 is not on the grid; the result is the floor.
    let r = fp_div(fp(1.0), fp(3.0));
    assert!(to_f(r) <= 1.0 / 3.0);
    assert!(1.0 / 3.0 - to_f(r) < 1.0 / S);
    // -1/3 floors away from zero.
    let rn = fp_div(fp(-1.0), fp(3.0));
    assert!(to_f(rn) <= -1.0 / 3.0);
    assert!(-1.0 / 3.0 - to_f(rn) < 1.0 / S);
}

#[test]
fn int_to_fp_scales_by_one() {
    assert_eq!(int_to_fp(7), 7 * FP_ONE);
    assert_eq!(int_to_fp(-3), -3 * FP_ONE);
    assert_eq!(int_to_fp(0), 0);
}

#[test]
fn mul_div_and_int_to_fp_saturate_at_the_i64_range() {
    assert_eq!(fp_mul(i64::MAX, i64::MAX), i64::MAX);
    assert_eq!(fp_mul(i64::MIN, fp(2.0)), i64::MIN);
    // Dividing by the tiniest positive grid step blows up to saturation.
    assert_eq!(fp_div(i64::MAX, 1), i64::MAX);
    assert_eq!(fp_div(i64::MIN, 1), i64::MIN);
    // A division that merely grows by the scale factor stays exact.
    assert_eq!(fp_div(fp(-1.0), 1), -(1i64 << 32));
    assert_eq!(int_to_fp(i64::MAX), i64::MAX);
    assert_eq!(int_to_fp(i64::MIN), i64::MIN);
}

#[test]
fn sqrt_is_exact_on_perfect_squares() {
    assert_eq!(fp_sqrt(fp(25.0)), fp(5.0));
    assert_eq!(fp_sqrt(fp(2.25)), fp(1.5));
    assert_eq!(fp_sqrt(0), 0);
    assert_eq!(fp_sqrt(fp(1.0)), fp(1.0));
}

#[test]
fn sqrt_tracks_the_real_square_root() {
    for &x in &[0.5f64, 2.0, 3.0, 10.0, 123.456, 99999.0] {
        let r = fp_sqrt(fp(x));
        assert!((to_f(r) - x.sqrt()).abs() < 1e-4, "sqrt({}) came out {}", x, to_f(r));
    }
}

#[test]
fn sine_and_cosine_are_exact_on_quadrant_boundaries() {
    assert_eq!(fp_sin_deg(fp(0.0)), 0);
    assert_eq!(fp_sin_deg(fp(90.0)), FP_ONE);
    assert_eq!(fp_sin_deg(fp(180.0)), 0);
    assert_eq!(fp_sin_deg(fp(270.0)), -FP_ONE);
    assert_eq!(fp_sin_deg(fp(360.0)), 0);
    assert_eq!(fp_sin_deg(fp(-90.0)), -FP_ONE);
    assert_eq!(fp_cos_deg(fp(0.0)), FP_ONE);
    assert_eq!(fp_cos_deg(fp(90.0)), 0);
    assert_eq!(fp_cos_deg(fp(180.0)), -FP_ONE);
    assert_eq!(fp_cos_deg(fp(270.0)), 0);
    assert_eq!(fp_cos_deg(fp(-180.0)), -FP_ONE);
}

#[test]
fn sine_and_cosine_track_the_real_functions() {
    let mut deg = -720.0f64;
    while deg <= 720.0 {
        let rad = deg.to_radians();
        let s = fp_sin_deg(fp(deg));
        let c = fp_cos_deg(fp(deg));
        assert!(
            (to_f(s) - rad.sin()).abs() < 1e-3,
            "sin({}) came out {} against {}",
            deg,
            to_f(s),
            rad.sin()
        );
        assert!(
            (to_f(c) - rad.cos()).abs() < 1e-3,
            "cos({}) came out {} against {}",
            deg,
            to_f(c),
            rad.cos()
        );
        deg += 7.3;
    }
}

#[test]
fn thirty_degrees_has_a_half_sine() {
    let s = fp_sin_deg(fp(30.0));
    assert!((to_f(s) - 0.5).abs() < 3e-4);
}
