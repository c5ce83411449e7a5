//! The shading pass's arithmetic: barycentric weights from cross products,
//! perspective-correct attribute interpolation in exact rational form, and
//! the per-pixel lighting model.
//!
//! Interpolation computes `sum(A_i * w_i / z_i) / sum(w_i / z_i)` with both
//! sums multiplied through by `z1 * z2 * z3`, so the quotient is formed from
//! exact integer products and is taken once. Evaluated with a single nonzero
//! weight it returns that vertex's attribute exactly
//! ([`lemma_lerp_at_first_vertex`] and its two siblings).

use vstd::prelude::*;
use vstd::arithmetic::div_mod::{lemma_basic_div, lemma_div_basics, lemma_fundamental_div_mod};
use crate::fx::{
    FX_ONE, div_trunc_i128, fx_mul, sat_narrow, lemma_div_le, lemma_div_trunc_exact,
    spec_div_trunc, spec_fx_add, spec_fx_mul, spec_fx_sat,
};
use crate::fxmath::{fx_powi, spec_fx_powi};
use crate::linalg::{
    Vec4, spec_cross3, spec_dot3, spec_normalize3, spec_vec4_neg, spec_vec4_scale,
    spec_vec4_sub,
};
use crate::object::{
    Object, face_in_bounds, object_valid, spec_channel_unit,
};
use crate::texture::{Texture, spec_texture_sample};
use crate::types::{Color, Face, Pixel, spec_channel_to_u8};

verus! {

/// Largest attribute magnitude interpolation accepts (a little over sixteen
/// million in scalar units).
pub const LERP_ATTR_MAX: i64 = 0x100_0000_0000;

/// Largest depth magnitude interpolation accepts (a little over sixteen
/// thousand in scalar units).
pub const LERP_Z_MAX: i64 = 0x4000_0000;

pub open spec fn spec_abs(x: int) -> int {
    if x >= 0 {
        x
    } else {
        -x
    }
}

pub open spec fn spec_max3(a: int, b: int, c: int) -> int {
    if a >= b && a >= c {
        a
    } else if b >= c {
        b
    } else {
        c
    }
}

/// The common divisor that brings three weights into range: one more than a
/// millionth-step of their largest magnitude.
pub open spec fn spec_weight_scale(w1: int, w2: int, w3: int) -> int {
    spec_div_trunc(spec_max3(spec_abs(w1), spec_abs(w2), spec_abs(w3)), 0x10_0000) + 1
}

/// Perspective-correct interpolation of one scalar attribute: weights are
/// scaled down by their common divisor, both sums are multiplied through by
/// the three depths, and the single quotient is truncated; a zero denominator
/// yields zero.
pub open spec fn spec_lerp_scalar(
    a1: int, a2: int, a3: int,
    w1: int, w2: int, w3: int,
    z1: int, z2: int, z3: int,
) -> int {
    let t = spec_weight_scale(w1, w2, w3);
    let u1 = spec_div_trunc(w1, t);
    let u2 = spec_div_trunc(w2, t);
    let u3 = spec_div_trunc(w3, t);
    let num = ((a1 * u1) * z2) * z3 + ((a2 * u2) * z1) * z3 + ((a3 * u3) * z1) * z2;
    let den = (u1 * z2) * z3 + (u2 * z1) * z3 + (u3 * z1) * z2;
    spec_fx_sat(spec_div_trunc(num, den))
}

/// A quotient with a divisor beyond the dividend's range stays below the
/// range's step.
proof fn lemma_div_bound_by_scale(x: int, t: int, b: int)
    requires
        0 <= x,
        1 <= t,
        x < t * b,
        0 < b,
    ensures
        x / t < b,
{
    lemma_fundamental_div_mod(x, t);
    crate::fx::lemma_div_le(x, t);
    if x / t >= b {
        assert(t * (x / t) >= t * b) by (nonlinear_arith)
            requires t >= 1 && x / t >= b;
        assert(x % t >= 0);
        assert(false);
    }
}

/// A weight divided by the common scale is below the millionth-step bound.
proof fn lemma_reduced_weight_bound(w: int, m: int, t: int)
    requires
        spec_abs(w) <= m,
        0 <= m,
        t == spec_div_trunc(m, 0x10_0000) + 1,
    ensures
        t >= 1,
        spec_abs(spec_div_trunc(w, t)) < 0x10_0000,
{
    lemma_div_le(m, 0x10_0000);
    lemma_fundamental_div_mod(m, 0x10_0000);
    assert(m % 0x10_0000 >= 0);
    assert(t * 0x10_0000 > m);
    if w > 0 {
        lemma_div_bound_by_scale(w, t, 0x10_0000);
    } else if w < 0 {
        lemma_div_bound_by_scale(-w, t, 0x10_0000);
    }
}

/// One numerator term of the interpolation quotient.
fn lerp_term(a: i64, u: i64, za: i64, zb: i64) -> (r: i128)
    requires
        -LERP_ATTR_MAX <= a <= LERP_ATTR_MAX,
        -0x10_0000 <= u <= 0x10_0000,
        -LERP_Z_MAX <= za <= LERP_Z_MAX,
        -LERP_Z_MAX <= zb <= LERP_Z_MAX,
    ensures
        r as int == ((a as int * u as int) * za as int) * zb as int,
        -0x1000_0000_0000_0000_0000_0000_0000_0000 <= r as int
            <= 0x1000_0000_0000_0000_0000_0000_0000_0000,
{
    proof {
        crate::fx::lemma_mul_bounds(a as int, u as int, 0x100_0000_0000, 0x10_0000);
        crate::fx::lemma_mul_bounds(
            (a as int) * (u as int), za as int, 0x1000_0000_0000_0000, 0x4000_0000,
        );
        crate::fx::lemma_mul_bounds(
            ((a as int) * (u as int)) * (za as int), zb as int,
            0x4000_0000_0000_0000_0000_0000, 0x4000_0000,
        );
        assert(0x4000_0000_0000_0000_0000_0000 * 0x4000_0000
            == 0x1000_0000_0000_0000_0000_0000_0000_0000) by (nonlinear_arith);
    }
    ((a as i128 * u as i128) * za as i128) * zb as i128
}

/// One denominator term of the interpolation quotient.
fn lerp_den_term(u: i64, za: i64, zb: i64) -> (r: i128)
    requires
        -0x10_0000 <= u <= 0x10_0000,
        -LERP_Z_MAX <= za <= LERP_Z_MAX,
        -LERP_Z_MAX <= zb <= LERP_Z_MAX,
    ensures
        r as int == ((u as int) * za as int) * zb as int,
        -0x1_0000_0000_0000_0000_0000 <= r as int <= 0x1_0000_0000_0000_0000_0000,
{
    proof {
        crate::fx::lemma_mul_bounds(u as int, za as int, 0x10_0000, 0x4000_0000);
        crate::fx::lemma_mul_bounds(
            (u as int) * (za as int), zb as int, 0x4_0000_0000_0000, 0x4000_0000,
        );
    }
    ((u as i128) * za as i128) * zb as i128
}

fn reduce_weight(w: i64, t: i64, Ghost(m): Ghost<int>) -> (r: i64)
    requires
        spec_abs(w as int) <= m,
        0 <= m,
        t as int == spec_div_trunc(m, 0x10_0000) + 1,
    ensures
        r as int == spec_div_trunc(w as int, t as int),
        -0x10_0000 <= r <= 0x10_0000,
{
    proof {
        lemma_reduced_weight_bound(w as int, m, t as int);
    }
    let q = div_trunc_i128(w as i128, t as i128);
    q as i64
}

/// Perspective-correct interpolation of one scalar, pinned to
/// [`spec_lerp_scalar`].
pub fn lerp_scalar(
    a1: i64, a2: i64, a3: i64,
    w1: i64, w2: i64, w3: i64,
    z1: i64, z2: i64, z3: i64,
) -> (r: i64)
    requires
        -LERP_ATTR_MAX <= a1 <= LERP_ATTR_MAX,
        -LERP_ATTR_MAX <= a2 <= LERP_ATTR_MAX,
        -LERP_ATTR_MAX <= a3 <= LERP_ATTR_MAX,
        -LERP_Z_MAX <= z1 <= LERP_Z_MAX,
        -LERP_Z_MAX <= z2 <= LERP_Z_MAX,
        -LERP_Z_MAX <= z3 <= LERP_Z_MAX,
    ensures
        r as int == spec_lerp_scalar(
            a1 as int, a2 as int, a3 as int,
            w1 as int, w2 as int, w3 as int,
            z1 as int, z2 as int, z3 as int,
        ),
{
    let m1: i128 = if w1 >= 0 { w1 as i128 } else { -(w1 as i128) };
    let m2: i128 = if w2 >= 0 { w2 as i128 } else { -(w2 as i128) };
    let m3: i128 = if w3 >= 0 { w3 as i128 } else { -(w3 as i128) };
    let m: i128 = if m1 >= m2 && m1 >= m3 {
        m1
    } else if m2 >= m3 {
        m2
    } else {
        m3
    };
    proof {
        lemma_div_le(m as int, 0x10_0000);
    }
    let t: i64 = div_trunc_i128(m, 0x10_0000) as i64 + 1;
    let u1 = reduce_weight(w1, t, Ghost(m as int));
    let u2 = reduce_weight(w2, t, Ghost(m as int));
    let u3 = reduce_weight(w3, t, Ghost(m as int));
    let n1 = lerp_term(a1, u1, z2, z3);
    let n2 = lerp_term(a2, u2, z1, z3);
    let n3 = lerp_term(a3, u3, z1, z2);
    let d1 = lerp_den_term(u1, z2, z3);
    let d2 = lerp_den_term(u2, z1, z3);
    let d3 = lerp_den_term(u3, z1, z2);
    let num: i128 = n1 + n2 + n3;
    let den: i128 = d1 + d2 + d3;
    let q = div_trunc_i128(num, den);
    sat_narrow(q)
}

/// Interpolation at the first vertex: with the whole weight on one corner and
/// the other two depths nonzero, the quotient cancels exactly and the first
/// attribute comes back unchanged, whatever the weight's magnitude.
pub proof fn lemma_lerp_at_first_vertex(
    a1: int, a2: int, a3: int, w: int, z1: int, z2: int, z3: int,
)
    requires
        w != 0,
        z2 != 0,
        z3 != 0,
        i64::MIN as int <= a1 <= i64::MAX as int,
    ensures
        spec_lerp_scalar(a1, a2, a3, w, 0, 0, z1, z2, z3) == a1,
{
    lemma_lerp_single_weight(a1, a2, a3, w, z1, z2, z3, 0);
}

/// Interpolation at the second vertex.
pub proof fn lemma_lerp_at_second_vertex(
    a1: int, a2: int, a3: int, w: int, z1: int, z2: int, z3: int,
)
    requires
        w != 0,
        z1 != 0,
        z3 != 0,
        i64::MIN as int <= a2 <= i64::MAX as int,
    ensures
        spec_lerp_scalar(a1, a2, a3, 0, w, 0, z1, z2, z3) == a2,
{
    lemma_lerp_single_weight(a1, a2, a3, w, z1, z2, z3, 1);
}

/// Interpolation at the third vertex.
pub proof fn lemma_lerp_at_third_vertex(
    a1: int, a2: int, a3: int, w: int, z1: int, z2: int, z3: int,
)
    requires
        w != 0,
        z1 != 0,
        z2 != 0,
        i64::MIN as int <= a3 <= i64::MAX as int,
    ensures
        spec_lerp_scalar(a1, a2, a3, 0, 0, w, z1, z2, z3) == a3,
{
    lemma_lerp_single_weight(a1, a2, a3, w, z1, z2, z3, 2);
}

/// The common argument: a nonzero weight survives the scaling step, the two
/// zero weights contribute nothing, and `(a * d) / d == a`.
proof fn lemma_lerp_single_weight(
    a1: int, a2: int, a3: int, w: int, z1: int, z2: int, z3: int, position: int,
)
    requires
        w != 0,
        0 <= position <= 2,
        position == 0 ==> z2 != 0 && z3 != 0 && i64::MIN as int <= a1 <= i64::MAX as int,
        position == 1 ==> z1 != 0 && z3 != 0 && i64::MIN as int <= a2 <= i64::MAX as int,
        position == 2 ==> z1 != 0 && z2 != 0 && i64::MIN as int <= a3 <= i64::MAX as int,
    ensures
        position == 0 ==> spec_lerp_scalar(a1, a2, a3, w, 0, 0, z1, z2, z3) == a1,
        position == 1 ==> spec_lerp_scalar(a1, a2, a3, 0, w, 0, z1, z2, z3) == a2,
        position == 2 ==> spec_lerp_scalar(a1, a2, a3, 0, 0, w, z1, z2, z3) == a3,
{
    let aw = spec_abs(w);
    assert(spec_max3(aw, 0, 0) == aw);
    assert(spec_max3(0, aw, 0) == aw);
    assert(spec_max3(0, 0, aw) == aw);
    let t = spec_div_trunc(aw, 0x10_0000) + 1;
    lemma_div_le(aw, 0x10_0000);
    assert(t >= 1);
    let u = spec_div_trunc(w, t);
    assert(u != 0) by {
        if aw < 0x10_0000 {
            lemma_basic_div(aw, 0x10_0000);
            assert(t == 1);
            lemma_div_basics(w);
            if w > 0 {
                assert(spec_div_trunc(w, 1) == w);
            } else {
                lemma_div_basics(-w);
                assert(spec_div_trunc(w, 1) == ((w * -1) / 1) * -1);
                assert((w * -1) / 1 == w * -1);
            }
        } else {
            let q = spec_div_trunc(aw, 0x10_0000);
            lemma_fundamental_div_mod(aw, 0x10_0000);
            assert(q >= 1) by (nonlinear_arith)
                requires
                    0x10_0000 * q + aw % 0x10_0000 == aw,
                    aw % 0x10_0000 < 0x10_0000,
                    aw >= 0x10_0000,
                    q >= 0,
            ;
            assert(t <= aw) by (nonlinear_arith)
                requires
                    t == q + 1,
                    q >= 1,
                    0x10_0000 * q <= aw,
            ;
            if w > 0 {
                lemma_fundamental_div_mod(w, t);
                assert(w / t >= 1) by (nonlinear_arith)
                    requires
                        t * (w / t) + w % t == w,
                        0 <= w % t < t,
                        w >= t,
                        t >= 1,
                ;
            } else {
                lemma_fundamental_div_mod(-w, t);
                assert((w * -1) / t >= 1) by (nonlinear_arith)
                    requires
                        t * ((-w) / t) + (-w) % t == -w,
                        0 <= (-w) % t < t,
                        -w >= t,
                        t >= 1,
                        w * -1 == -w,
                ;
            }
        }
    }
    assert(spec_div_trunc(0, t) == 0);
    if position == 0 {
        let den = (u * z2) * z3;
        assert(den != 0) by (nonlinear_arith)
            requires u != 0 && z2 != 0 && z3 != 0 && den == (u * z2) * z3;
        assert(((a1 * u) * z2) * z3 == a1 * den) by (nonlinear_arith)
            requires den == (u * z2) * z3;
        assert((a2 * 0) == 0 && (a3 * 0) == 0);
        assert(((a2 * 0) * z1) * z3 == 0 && ((a3 * 0) * z1) * z2 == 0) by (nonlinear_arith);
        assert((0 * z1) * z3 == 0 && (0 * z1) * z2 == 0) by (nonlinear_arith);
        lemma_div_trunc_exact(a1, den);
    } else if position == 1 {
        let den = (u * z1) * z3;
        assert(den != 0) by (nonlinear_arith)
            requires u != 0 && z1 != 0 && z3 != 0 && den == (u * z1) * z3;
        assert(((a2 * u) * z1) * z3 == a2 * den) by (nonlinear_arith)
            requires den == (u * z1) * z3;
        assert(((a1 * 0) * z2) * z3 == 0 && ((a3 * 0) * z1) * z2 == 0) by (nonlinear_arith);
        assert((0 * z2) * z3 == 0 && (0 * z1) * z2 == 0) by (nonlinear_arith);
        lemma_div_trunc_exact(a2, den);
    } else {
        let den = (u * z1) * z2;
        assert(den != 0) by (nonlinear_arith)
            requires u != 0 && z1 != 0 && z2 != 0 && den == (u * z1) * z2;
        assert(((a3 * u) * z1) * z2 == a3 * den) by (nonlinear_arith)
            requires den == (u * z1) * z2;
        assert(((a1 * 0) * z2) * z3 == 0 && ((a2 * 0) * z1) * z3 == 0) by (nonlinear_arith);
        assert((0 * z2) * z3 == 0 && (0 * z1) * z3 == 0) by (nonlinear_arith);
        lemma_div_trunc_exact(a3, den);
    }
}


/// Unnormalized barycentric weights of a point against three screen-space
/// vertices, by the cross-product construction: each weight is the triple
/// product of one edge, the vector from that edge's start to the point, and
/// the triangle's normal. The common normalizing denominator is left out:
/// interpolation divides it away.
pub open spec fn spec_barycentric(p: Vec4, v1: Vec4, v2: Vec4, v3: Vec4) -> Vec4 {
    let v12 = spec_vec4_sub(v2, v1);
    let v23 = spec_vec4_sub(v3, v2);
    let v31 = spec_vec4_sub(v1, v3);
    let v13 = spec_vec4_sub(v3, v1);
    let n = spec_cross3(v12, v13);
    let v1p = spec_vec4_sub(p, v1);
    let v2p = spec_vec4_sub(p, v2);
    let v3p = spec_vec4_sub(p, v3);
    Vec4 {
        x: spec_dot3(spec_cross3(v23, v2p), n) as i64,
        y: spec_dot3(spec_cross3(v31, v3p), n) as i64,
        z: spec_dot3(spec_cross3(v12, v1p), n) as i64,
        w: 0,
    }
}

pub fn calc_barycentric(p: &Vec4, v1: &Vec4, v2: &Vec4, v3: &Vec4) -> (r: Vec4)
    ensures
        r == spec_barycentric(*p, *v1, *v2, *v3),
{
    let v12 = v2.sub(*v1);
    let v23 = v3.sub(*v2);
    let v31 = v1.sub(*v3);
    let v13 = v3.sub(*v1);
    let n = v12.cross3(v13);
    let v1p = p.sub(*v1);
    let v2p = p.sub(*v2);
    let v3p = p.sub(*v3);
    Vec4 {
        x: v23.cross3(v2p).dot3(n),
        y: v31.cross3(v3p).dot3(n),
        z: v12.cross3(v1p).dot3(n),
        w: 0,
    }
}

/// Clamping of a scalar into a symmetric range.
pub open spec fn spec_clamp_mag(v: int, bound: int) -> int {
    if v > bound {
        bound
    } else if v < -bound {
        -bound
    } else {
        v
    }
}

fn clamp_mag(v: i64, bound: i64) -> (r: i64)
    requires
        bound >= 0,
    ensures
        r as int == spec_clamp_mag(v as int, bound as int),
        -bound <= r <= bound,
{
    if v > bound {
        bound
    } else if v < -bound {
        -bound
    } else {
        v
    }
}

pub open spec fn spec_clamp_attr_vec(a: Vec4) -> Vec4 {
    Vec4 {
        x: spec_clamp_mag(a.x as int, LERP_ATTR_MAX as int) as i64,
        y: spec_clamp_mag(a.y as int, LERP_ATTR_MAX as int) as i64,
        z: spec_clamp_mag(a.z as int, LERP_ATTR_MAX as int) as i64,
        w: spec_clamp_mag(a.w as int, LERP_ATTR_MAX as int) as i64,
    }
}

fn clamp_attr_vec(a: &Vec4) -> (r: Vec4)
    ensures
        r == spec_clamp_attr_vec(*a),
        -LERP_ATTR_MAX <= r.x <= LERP_ATTR_MAX,
        -LERP_ATTR_MAX <= r.y <= LERP_ATTR_MAX,
        -LERP_ATTR_MAX <= r.z <= LERP_ATTR_MAX,
        -LERP_ATTR_MAX <= r.w <= LERP_ATTR_MAX,
{
    Vec4 {
        x: clamp_mag(a.x, LERP_ATTR_MAX),
        y: clamp_mag(a.y, LERP_ATTR_MAX),
        z: clamp_mag(a.z, LERP_ATTR_MAX),
        w: clamp_mag(a.w, LERP_ATTR_MAX),
    }
}

/// Perspective-correct interpolation of a whole attribute vector. Attributes
/// and depths far outside the renderer's working range are clamped first, so
/// the exact quotient always fits the wide intermediates.
pub open spec fn spec_lerp_vec(
    bary: Vec4, a1: Vec4, a2: Vec4, a3: Vec4, z1: int, z2: int, z3: int,
) -> Vec4 {
    let c1 = spec_clamp_attr_vec(a1);
    let c2 = spec_clamp_attr_vec(a2);
    let c3 = spec_clamp_attr_vec(a3);
    let zc1 = spec_clamp_mag(z1, LERP_Z_MAX as int);
    let zc2 = spec_clamp_mag(z2, LERP_Z_MAX as int);
    let zc3 = spec_clamp_mag(z3, LERP_Z_MAX as int);
    Vec4 {
        x: spec_lerp_scalar(
            c1.x as int, c2.x as int, c3.x as int,
            bary.x as int, bary.y as int, bary.z as int,
            zc1, zc2, zc3,
        ) as i64,
        y: spec_lerp_scalar(
            c1.y as int, c2.y as int, c3.y as int,
            bary.x as int, bary.y as int, bary.z as int,
            zc1, zc2, zc3,
        ) as i64,
        z: spec_lerp_scalar(
            c1.z as int, c2.z as int, c3.z as int,
            bary.x as int, bary.y as int, bary.z as int,
            zc1, zc2, zc3,
        ) as i64,
        w: spec_lerp_scalar(
            c1.w as int, c2.w as int, c3.w as int,
            bary.x as int, bary.y as int, bary.z as int,
            zc1, zc2, zc3,
        ) as i64,
    }
}

pub fn lerp(bary: &Vec4, a1: &Vec4, a2: &Vec4, a3: &Vec4, z1: i64, z2: i64, z3: i64) -> (r:
    Vec4)
    ensures
        r == spec_lerp_vec(*bary, *a1, *a2, *a3, z1 as int, z2 as int, z3 as int),
{
    let c1 = clamp_attr_vec(a1);
    let c2 = clamp_attr_vec(a2);
    let c3 = clamp_attr_vec(a3);
    let zc1 = clamp_mag(z1, LERP_Z_MAX);
    let zc2 = clamp_mag(z2, LERP_Z_MAX);
    let zc3 = clamp_mag(z3, LERP_Z_MAX);
    Vec4 {
        x: lerp_scalar(c1.x, c2.x, c3.x, bary.x, bary.y, bary.z, zc1, zc2, zc3),
        y: lerp_scalar(c1.y, c2.y, c3.y, bary.x, bary.y, bary.z, zc1, zc2, zc3),
        z: lerp_scalar(c1.z, c2.z, c3.z, bary.x, bary.y, bary.z, zc1, zc2, zc3),
        w: lerp_scalar(c1.w, c2.w, c3.w, bary.x, bary.y, bary.z, zc1, zc2, zc3),
    }
}

/// What shading one pixel produces: its lit color, its emission sample, and
/// whether an emission texture was actually read.
#[derive(Clone, Copy, PartialEq, Eq, Structural, Debug)]
pub struct ShadeOut {
    pub color: Color<u8>,
    pub emission: Color<u8>,
    pub emission_used: bool,
}

/// A texture slot takes part in shading only if it is enabled and has a
/// nonempty grid (an enabled but empty slot samples nothing).
pub open spec fn spec_slot_active<T>(enabled: bool, t: Texture<T>) -> bool {
    enabled && t.width >= 1 && t.height >= 1
}

/// A sampled byte color as unit-scale coefficients.
pub open spec fn spec_sample_unit_color(t: Texture<Pixel>, u: int, v: int) -> Color<i64> {
    let p = spec_texture_sample(t, u, v);
    Color {
        r: spec_channel_unit(p.color.r as int) as i64,
        g: spec_channel_unit(p.color.g as int) as i64,
        b: spec_channel_unit(p.color.b as int) as i64,
    }
}

/// One channel of the lighting model: ambient plus specular plus diffuse,
/// scaled to a byte.
pub open spec fn spec_lit_channel(
    bg: int, ambient: int, dl: int, spec_coeff: int, spec_int: int, gloss: int,
    diffuse: int, diff_int: int, cos: int,
) -> int {
    let lit = spec_fx_add(
        spec_fx_add(
            spec_fx_mul(bg, ambient),
            spec_fx_mul(spec_fx_mul(spec_fx_mul(dl, spec_coeff), spec_int), gloss),
        ),
        spec_fx_mul(spec_fx_mul(diffuse, diff_int), cos),
    );
    spec_channel_to_u8(spec_fx_mul(lit, 255 * FX_ONE as int))
}

/// The whole per-pixel shading computation, exactly as the exec function
/// performs it.
pub open spec fn spec_shade_pixel(
    obj: Object, face: Face,
    vv1: Vec4, vv2: Vec4, vv3: Vec4,
    z1: int, z2: int, z3: int,
    point: Vec4,
    light_dir: Vec4, camera_pos: Vec4,
    bg: Color<i64>, dl: Color<i64>,
) -> ShadeOut {
    let bary = spec_barycentric(point, vv1, vv2, vv3);
    let vt1 = obj.texture_vertices@[face.texture_vertices_indexes.i0 as int];
    let vt2 = obj.texture_vertices@[face.texture_vertices_indexes.i1 as int];
    let vt3 = obj.texture_vertices@[face.texture_vertices_indexes.i2 as int];
    let uv = spec_lerp_vec(bary, vt1, vt2, vt3, z1, z2, z3);
    let diffuse = if spec_slot_active(obj.use_diffuse_texture, obj.diffuse_texture) {
        spec_sample_unit_color(obj.diffuse_texture, uv.x as int, uv.y as int)
    } else {
        obj.model_color
    };
    let emission_used = spec_slot_active(obj.use_emission_texture, obj.emission_texture);
    let emission = if emission_used {
        spec_texture_sample(obj.emission_texture, uv.x as int, uv.y as int).color
    } else {
        Color { r: 0u8, g: 0u8, b: 0u8 }
    };
    let vn1 = obj.vertices_normals@[face.vertices_normals_indexes.i0 as int];
    let vn2 = obj.vertices_normals@[face.vertices_normals_indexes.i1 as int];
    let vn3 = obj.vertices_normals@[face.vertices_normals_indexes.i2 as int];
    let normal = if spec_slot_active(obj.use_normal_texture, obj.normal_texture_normals) {
        spec_texture_sample(obj.normal_texture_normals, uv.x as int, uv.y as int)
    } else {
        spec_lerp_vec(bary, vn1, vn2, vn3, z1, z2, z3)
    };
    let cos = spec_dot3(spec_normalize3(normal), spec_vec4_neg(spec_normalize3(light_dir)));
    let mv1 = obj.vertices@[face.vertices_indexes.i0 as int];
    let mv2 = obj.vertices@[face.vertices_indexes.i1 as int];
    let mv3 = obj.vertices@[face.vertices_indexes.i2 as int];
    let model_point = spec_lerp_vec(bary, mv1, mv2, mv3, z1, z2, z3);
    let cam_dir = spec_vec4_sub(camera_pos, model_point);
    let twice_dot = spec_fx_add(
        spec_dot3(light_dir, normal),
        spec_dot3(light_dir, normal),
    );
    let reflection = spec_vec4_sub(light_dir, spec_vec4_scale(normal, twice_dot));
    let gloss_base0 = spec_dot3(spec_normalize3(reflection), spec_normalize3(cam_dir));
    let gloss_base: int = if gloss_base0 < 0 {
        0
    } else {
        gloss_base0
    };
    let gloss = spec_fx_powi(gloss_base, obj.shininess as nat);
    let specular_c = if spec_slot_active(obj.use_specular_texture, obj.specular_texture_coeff) {
        spec_texture_sample(obj.specular_texture_coeff, uv.x as int, uv.y as int)
    } else {
        obj.specular
    };
    ShadeOut {
        color: Color {
            r: spec_lit_channel(
                bg.r as int, obj.ambient.r as int, dl.r as int, specular_c.r as int,
                obj.specular_intensity.r as int, gloss, diffuse.r as int,
                obj.diffuse_intensity.r as int, cos,
            ) as u8,
            g: spec_lit_channel(
                bg.g as int, obj.ambient.g as int, dl.g as int, specular_c.g as int,
                obj.specular_intensity.g as int, gloss, diffuse.g as int,
                obj.diffuse_intensity.g as int, cos,
            ) as u8,
            b: spec_lit_channel(
                bg.b as int, obj.ambient.b as int, dl.b as int, specular_c.b as int,
                obj.specular_intensity.b as int, gloss, diffuse.b as int,
                obj.diffuse_intensity.b as int, cos,
            ) as u8,
        },
        emission,
        emission_used,
    }
}

fn lit_channel(
    bg: i64, ambient: i64, dl: i64, spec_coeff: i64, spec_int: i64, gloss: i64,
    diffuse: i64, diff_int: i64, cos: i64,
) -> (r: u8)
    ensures
        r as int == spec_lit_channel(
            bg as int, ambient as int, dl as int, spec_coeff as int, spec_int as int,
            gloss as int, diffuse as int, diff_int as int, cos as int,
        ),
{
    let lit = crate::fx::fx_add(
        crate::fx::fx_add(
            fx_mul(bg, ambient),
            fx_mul(fx_mul(fx_mul(dl, spec_coeff), spec_int), gloss),
        ),
        fx_mul(fx_mul(diffuse, diff_int), cos),
    );
    let scaled = fx_mul(lit, 255 * FX_ONE);
    let c = (Color { r: scaled, g: scaled, b: scaled }).to_u8();
    c.r
}

/// Shades one pixel: recover the triangle's attributes, interpolate them
/// perspective-correctly at the pixel, and evaluate the lighting model; the
/// emission sample rides along.
pub fn shade_pixel(
    obj: &Object, face: &Face,
    vv1: &Vec4, vv2: &Vec4, vv3: &Vec4,
    z1: i64, z2: i64, z3: i64,
    point: &Vec4,
    light_dir: &Vec4, camera_pos: &Vec4,
    bg: &Color<i64>, dl: &Color<i64>,
) -> (r: ShadeOut)
    requires
        object_valid(*obj),
        face_in_bounds(*obj, *face),
    ensures
        r == spec_shade_pixel(
            *obj, *face, *vv1, *vv2, *vv3, z1 as int, z2 as int, z3 as int,
            *point, *light_dir, *camera_pos, *bg, *dl,
        ),
{
    let bary = calc_barycentric(point, vv1, vv2, vv3);
    let vt1 = obj.texture_vertices[face.texture_vertices_indexes.i0];
    let vt2 = obj.texture_vertices[face.texture_vertices_indexes.i1];
    let vt3 = obj.texture_vertices[face.texture_vertices_indexes.i2];
    let uv = lerp(&bary, &vt1, &vt2, &vt3, z1, z2, z3);

    let diffuse: Color<i64>;
    if obj.use_diffuse_texture && obj.diffuse_texture.width >= 1 && obj.diffuse_texture.height
        >= 1 {
        let p = obj.diffuse_texture.get_pixel(uv.x, uv.y);
        let full = crate::fx::fx_from_int(255);
        diffuse = Color {
            r: crate::fx::fx_div(crate::fx::fx_from_int(p.color.r as i64), full),
            g: crate::fx::fx_div(crate::fx::fx_from_int(p.color.g as i64), full),
            b: crate::fx::fx_div(crate::fx::fx_from_int(p.color.b as i64), full),
        };
    } else {
        diffuse = obj.model_color;
    }

    let emission_used: bool = obj.use_emission_texture && obj.emission_texture.width >= 1
        && obj.emission_texture.height >= 1;
    let emission: Color<u8>;
    if emission_used {
        emission = obj.emission_texture.get_pixel(uv.x, uv.y).color;
    } else {
        emission = Color { r: 0, g: 0, b: 0 };
    }

    let vn1 = obj.vertices_normals[face.vertices_normals_indexes.i0];
    let vn2 = obj.vertices_normals[face.vertices_normals_indexes.i1];
    let vn3 = obj.vertices_normals[face.vertices_normals_indexes.i2];
    let normal: Vec4;
    if obj.use_normal_texture && obj.normal_texture_normals.width >= 1
        && obj.normal_texture_normals.height >= 1 {
        normal = obj.normal_texture_normals.get_pixel(uv.x, uv.y);
    } else {
        normal = lerp(&bary, &vn1, &vn2, &vn3, z1, z2, z3);
    }

    let cos = normal.normalize3().dot3(light_dir.normalize3().neg());

    let mv1 = obj.vertices[face.vertices_indexes.i0];
    let mv2 = obj.vertices[face.vertices_indexes.i1];
    let mv3 = obj.vertices[face.vertices_indexes.i2];
    let model_point = lerp(&bary, &mv1, &mv2, &mv3, z1, z2, z3);
    let cam_dir = camera_pos.sub(model_point);

    let d = light_dir.dot3(normal);
    let twice_dot = crate::fx::fx_add(d, d);
    let reflection = light_dir.sub(normal.scale(twice_dot));
    let gloss_base0 = reflection.normalize3().dot3(cam_dir.normalize3());
    let gloss_base: i64 = if gloss_base0 < 0 {
        0
    } else {
        gloss_base0
    };
    let gloss = fx_powi(gloss_base, obj.shininess);

    let specular_c: Color<i64>;
    if obj.use_specular_texture && obj.specular_texture_coeff.width >= 1
        && obj.specular_texture_coeff.height >= 1 {
        specular_c = obj.specular_texture_coeff.get_pixel(uv.x, uv.y);
    } else {
        specular_c = obj.specular;
    }

    ShadeOut {
        color: Color {
            r: lit_channel(
                bg.r, obj.ambient.r, dl.r, specular_c.r, obj.specular_intensity.r, gloss,
                diffuse.r, obj.diffuse_intensity.r, cos,
            ),
            g: lit_channel(
                bg.g, obj.ambient.g, dl.g, specular_c.g, obj.specular_intensity.g, gloss,
                diffuse.g, obj.diffuse_intensity.g, cos,
            ),
            b: lit_channel(
                bg.b, obj.ambient.b, dl.b, specular_c.b, obj.specular_intensity.b, gloss,
                diffuse.b, obj.diffuse_intensity.b, cos,
            ),
        },
        emission,
        emission_used,
    }
}

} // verus!
