//! The fixed-point scalar layer against floating-point references.

use softrender::fx::{
    fx_add, fx_div, fx_from_int, fx_mul, fx_neg, fx_round, fx_round_i32, fx_sqrt, fx_sub,
    FX_ONE,
};
use softrender::fxmath::{
    fx_cos, fx_exp, fx_exp2, fx_log2, fx_powf, fx_powi, fx_sin, FX_HALF_PI, FX_PI,
};
use softrender::linalg::{fx_sqrt_val, Mat4, Vec4};

fn fl(x: f64) -> i64 {
    (x * 65536.0).round() as i64
}

fn close(a: i64, b: i64, tol: i64) -> bool {
    (a - b).abs() <= tol
}

#[test]
fn fx_basic_arithmetic() {
    assert_eq!(fx_add(fl(1.5), fl(2.25)), fl(3.75));
    assert_eq!(fx_sub(fl(1.0), fl(2.5)), fl(-1.5));
    assert_eq!(fx_mul(fl(1.5), fl(2.0)), fl(3.0));
    assert_eq!(fx_mul(fl(-1.5), fl(2.0)), fl(-3.0));
    assert_eq!(fx_div(fl(3.0), fl(2.0)), fl(1.5));
    assert_eq!(fx_div(fl(1.0), 0), 0);
    assert_eq!(fx_neg(fl(4.0)), fl(-4.0));
    assert_eq!(fx_from_int(7), fl(7.0));
}

#[test]
fn fx_saturates_at_the_bounds() {
    assert_eq!(fx_add(i64::MAX, 1), i64::MAX);
    assert_eq!(fx_sub(i64::MIN, 1), i64::MIN);
    assert_eq!(fx_neg(i64::MIN), i64::MAX);
    assert_eq!(fx_mul(i64::MAX, fl(2.0)), i64::MAX);
}

#[test]
fn fx_rounding_halves_away_from_zero() {
    assert_eq!(fx_round(fl(2.5)), 3);
    assert_eq!(fx_round(fl(-2.5)), -3);
    assert_eq!(fx_round(fl(2.4)), 2);
    assert_eq!(fx_round(fl(-2.4)), -2);
    assert_eq!(fx_round_i32(fl(1.0e10)), i32::MAX);
}

#[test]
fn fx_square_roots_are_floors() {
    assert_eq!(fx_sqrt(fl(4.0)), fl(2.0));
    assert_eq!(fx_sqrt(0), 0);
    assert_eq!(fx_sqrt(-5), 0);
    let r = fx_sqrt_val(fl(3.0));
    assert!(close(r, fl(3.0f64.sqrt()), 2));
    // floor: r*r <= 3 * FX_ONE^2 in raw terms
    let n = 3i128 * 65536 * 65536;
    assert!((r as i128) * (r as i128) <= n);
    assert!(((r + 1) as i128) * ((r + 1) as i128) > n);
}

#[test]
fn sine_and_cosine_track_the_references() {
    assert_eq!(fx_sin(0), 0);
    assert!(close(fx_sin(FX_HALF_PI), FX_ONE, 8));
    assert!(close(fx_cos(0), FX_ONE, 8));
    assert!(close(fx_sin(FX_PI), 0, 8));
    for k in -20..=20 {
        let a = k as f64 * 0.37;
        assert!(close(fx_sin(fl(a)), fl(a.sin()), 16));
        assert!(close(fx_cos(fl(a)), fl(a.cos()), 16));
    }
}

#[test]
fn exponentials_and_logarithms_track_the_references() {
    assert!(close(fx_exp2(0), FX_ONE, 4));
    assert!(close(fx_exp2(fl(3.0)), fl(8.0), 64));
    assert!(close(fx_exp2(fl(-2.0)), fl(0.25), 8));
    assert!(close(fx_log2(fl(8.0)), fl(3.0), 8));
    assert!(close(fx_log2(fl(0.25)), fl(-2.0), 8));
    assert_eq!(fx_log2(0), 0);
    assert_eq!(fx_log2(-7), 0);
    for k in 1..=30 {
        let x = k as f64 * 0.17;
        assert!(close(fx_exp(fl(-x)), fl((-x).exp()), 64));
        assert!(close(fx_log2(fl(x)), fl(x.log2()), 16));
    }
    assert!(close(fx_powf(fl(0.394), fl(1.0 / 2.2)), fl(0.394f64.powf(1.0 / 2.2)), 64));
    assert_eq!(fx_powf(0, fl(0.5)), 0);
    assert_eq!(fx_powi(fl(3.0), 0), FX_ONE);
    assert_eq!(fx_powi(fl(3.0), 2), fl(9.0));
}

#[test]
fn vectors_and_matrices_compose() {
    let a = Vec4 { x: fl(1.0), y: fl(2.0), z: fl(3.0), w: 0 };
    let b = Vec4 { x: fl(-1.0), y: fl(0.5), z: fl(2.0), w: 0 };
    assert_eq!(a.dot3(b), fl(-1.0 + 1.0 + 6.0));
    let c = a.cross3(b);
    assert_eq!(c.x, fl(2.0 * 2.0 - 3.0 * 0.5));
    assert_eq!(c.y, fl(3.0 * -1.0 - 1.0 * 2.0));
    assert_eq!(c.z, fl(1.0 * 0.5 - 2.0 * -1.0));
    let n = Vec4 { x: fl(3.0), y: 0, z: fl(4.0), w: 0 }.normalize3();
    assert!(close(n.x, fl(0.6), 4));
    assert!(close(n.z, fl(0.8), 4));
    let id = Mat4::identity();
    assert_eq!(id.transform(a), a);
    assert_eq!(id.matmul(id), id);
    let t = id.transpose();
    assert_eq!(t, id);
}
