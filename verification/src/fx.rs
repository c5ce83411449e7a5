//! Q16.16 fixed-point scalars: the renderer's number type.
//!
//! A scalar is an `i64` whose value is `raw / 65536`. Every operation is
//! total: results outside the `i64` range saturate to the nearest bound, and
//! division by zero yields zero. The spec functions below state the result of
//! each operation exactly, so contracts further up the pipeline can be exact
//! compositions of them.

use vstd::prelude::*;
use vstd::arithmetic::div_mod::lemma_div_multiples_vanish;
use vstd::arithmetic::div_mod::lemma_fundamental_div_mod;
use vstd::arithmetic::div_mod::lemma_div_pos_is_pos;

verus! {

/// Raw representation of 1.0.
pub const FX_ONE: i64 = 65536;

/// Raw representation of 0.5, used when rounding to a whole number.
pub const FX_HALF: i64 = 32768;

/// Saturation of an unbounded integer into the `i64` range.
pub open spec fn spec_fx_sat(v: int) -> int {
    if v > i64::MAX as int {
        i64::MAX as int
    } else if v < i64::MIN as int {
        i64::MIN as int
    } else {
        v
    }
}

/// Division truncated toward zero (the machine's signed division), extended
/// with `d == 0 ==> 0` so that every quotient in the renderer is defined.
pub open spec fn spec_div_trunc(x: int, d: int) -> int {
    if d == 0 {
        0
    } else if x == 0 {
        0
    } else if x > 0 && d > 0 {
        x / d
    } else if x < 0 && d < 0 {
        (x * -1) / (d * -1)
    } else if x < 0 {
        ((x * -1) / d) * -1
    } else {
        (x / (d * -1)) * -1
    }
}

pub open spec fn spec_fx_add(a: int, b: int) -> int {
    spec_fx_sat(a + b)
}

pub open spec fn spec_fx_sub(a: int, b: int) -> int {
    spec_fx_sat(a - b)
}

pub open spec fn spec_fx_neg(a: int) -> int {
    spec_fx_sat(-a)
}

pub open spec fn spec_fx_mul(a: int, b: int) -> int {
    spec_fx_sat(spec_div_trunc(a * b, FX_ONE as int))
}

pub open spec fn spec_fx_div(a: int, b: int) -> int {
    if b == 0 {
        0
    } else {
        spec_fx_sat(spec_div_trunc(a * (FX_ONE as int), b))
    }
}

/// Rounding to the nearest whole number, halves away from zero, as a raw
/// (unscaled) integer.
pub open spec fn spec_fx_round(a: int) -> int {
    if a >= 0 {
        spec_div_trunc(a + FX_HALF as int, FX_ONE as int)
    } else {
        spec_div_trunc(a - FX_HALF as int, FX_ONE as int)
    }
}

/// `r` is the floor of the square root of `n`.
pub open spec fn is_floor_sqrt(n: int, r: int) -> bool {
    &&& 0 <= r
    &&& r * r <= n
    &&& n < (r + 1) * (r + 1)
}

pub(crate) fn sat_narrow(v: i128) -> (r: i64)
    ensures
        r as int == spec_fx_sat(v as int),
{
    if v > i64::MAX as i128 {
        i64::MAX
    } else if v < i64::MIN as i128 {
        i64::MIN
    } else {
        v as i64
    }
}

/// A Euclidean quotient is no larger than the (non-negative) dividend.
pub proof fn lemma_div_le(xx: int, dd: int)
    requires
        xx >= 0,
        dd >= 1,
    ensures
        0 <= xx / dd <= xx,
{
    lemma_div_pos_is_pos(xx, dd);
    lemma_fundamental_div_mod(xx, dd);
    assert(dd * (xx / dd) >= xx / dd) by (nonlinear_arith)
        requires dd >= 1 && xx / dd >= 0;
    assert(xx % dd >= 0);
}

/// With a divisor of at least two, twice the quotient stays below the
/// dividend.
proof fn lemma_div_halves(xx: int, dd: int)
    requires
        xx >= 0,
        dd >= 2,
    ensures
        2 * (xx / dd) <= xx,
{
    lemma_div_pos_is_pos(xx, dd);
    lemma_fundamental_div_mod(xx, dd);
    assert(dd * (xx / dd) >= 2 * (xx / dd)) by (nonlinear_arith)
        requires dd >= 2 && xx / dd >= 0;
    assert(xx % dd >= 0);
}

/// The product of two `i64` values fits in an `i128`.
pub proof fn lemma_i64_product_fits(a: int, b: int)
    by (nonlinear_arith)
    requires
        i64::MIN as int <= a <= i64::MAX as int,
        i64::MIN as int <= b <= i64::MAX as int,
    ensures
        i128::MIN as int <= a * b <= i128::MAX as int,
{
}

/// Truncated division on wide intermediates; division by zero yields zero.
pub fn div_trunc_i128(x: i128, d: i128) -> (r: i128)
    requires
        !(x == i128::MIN && d == -1),
    ensures
        r as int == spec_div_trunc(x as int, d as int),
{
    proof {
        if d != 0 && x != 0 {
            let xi = x as int;
            let di = d as int;
            if xi > 0 && di > 0 {
                lemma_div_le(xi, di);
            } else if xi < 0 && di < 0 {
                lemma_div_le(xi * -1, di * -1);
                if di <= -2 {
                    lemma_div_halves(xi * -1, di * -1);
                }
            } else if xi < 0 {
                lemma_div_le(xi * -1, di);
            } else {
                lemma_div_le(xi, di * -1);
            }
        }
    }
    match x.checked_div(d) {
        Some(q) => q,
        None => 0,
    }
}

pub fn fx_add(a: i64, b: i64) -> (r: i64)
    ensures
        r as int == spec_fx_add(a as int, b as int),
{
    sat_narrow(a as i128 + b as i128)
}

pub fn fx_sub(a: i64, b: i64) -> (r: i64)
    ensures
        r as int == spec_fx_sub(a as int, b as int),
{
    sat_narrow(a as i128 - b as i128)
}

pub fn fx_neg(a: i64) -> (r: i64)
    ensures
        r as int == spec_fx_neg(a as int),
{
    sat_narrow(-(a as i128))
}

pub fn fx_mul(a: i64, b: i64) -> (r: i64)
    ensures
        r as int == spec_fx_mul(a as int, b as int),
{
    proof {
        lemma_i64_product_fits(a as int, b as int);
    }
    let p: i128 = a as i128 * b as i128;
    let q: i128 = div_trunc_i128(p, FX_ONE as i128);
    sat_narrow(q)
}

pub fn fx_div(a: i64, b: i64) -> (r: i64)
    ensures
        r as int == spec_fx_div(a as int, b as int),
{
    if b == 0 {
        return 0;
    }
    proof {
        lemma_i64_product_fits(a as int, FX_ONE as int);
    }
    let p: i128 = a as i128 * FX_ONE as i128;
    let q: i128 = div_trunc_i128(p, b as i128);
    sat_narrow(q)
}

pub fn fx_round(a: i64) -> (r: i64)
    ensures
        r as int == spec_fx_round(a as int),
{
    if a >= 0 {
        let shifted: i128 = a as i128 + FX_HALF as i128;
        div_trunc_i128(shifted, FX_ONE as i128) as i64
    } else {
        let shifted: i128 = a as i128 - FX_HALF as i128;
        div_trunc_i128(shifted, FX_ONE as i128) as i64
    }
}

/// Saturation of a rounded coordinate into the `i32` range, mirroring how a
/// screen coordinate is narrowed before scan conversion.
pub open spec fn spec_fx_round_i32(a: int) -> int {
    let r = spec_fx_round(a);
    if r > i32::MAX as int {
        i32::MAX as int
    } else if r < i32::MIN as int {
        i32::MIN as int
    } else {
        r
    }
}

pub fn fx_round_i32(a: i64) -> (r: i32)
    ensures
        r as int == spec_fx_round_i32(a as int),
{
    let v: i64 = fx_round(a);
    if v > i32::MAX as i64 {
        i32::MAX
    } else if v < i32::MIN as i64 {
        i32::MIN
    } else {
        v as i32
    }
}

pub open spec fn spec_fx_from_int(v: int) -> int {
    spec_fx_sat(v * FX_ONE as int)
}

pub fn fx_from_int(v: i64) -> (r: i64)
    ensures
        r as int == spec_fx_from_int(v as int),
{
    proof {
        lemma_i64_product_fits(v as int, FX_ONE as int);
    }
    sat_narrow(v as i128 * FX_ONE as i128)
}

/// Floor of the square root by bisection.
pub fn isqrt_u128(n: u128) -> (r: u128)
    ensures
        is_floor_sqrt(n as int, r as int),
{
    let mut lo: u128 = 0;
    let mut hi: u128 = 0x1_0000_0000_0000_0000u128;
    proof {
        assert(n < (0x1_0000_0000_0000_0000u128 as int) * (0x1_0000_0000_0000_0000u128 as int))
            by (nonlinear_arith)
            requires n <= u128::MAX;
    }
    while lo + 1 < hi
        invariant
            lo < hi,
            hi <= 0x1_0000_0000_0000_0000u128,
            lo * lo <= n,
            n < hi * hi,
        decreases hi - lo,
    {
        let mid: u128 = lo + (hi - lo) / 2;
        proof {
            assert((mid as int) * (mid as int) < (u128::MAX as int)) by (nonlinear_arith)
                requires mid < 0x1_0000_0000_0000_0000u128;
        }
        if mid * mid <= n {
            lo = mid;
        } else {
            hi = mid;
        }
    }
    lo
}

/// Fixed-point square root: zero on non-positive input, else the floor square
/// root of the value.
pub fn fx_sqrt(x: i64) -> (r: i64)
    ensures
        x <= 0 ==> r == 0,
        x > 0 ==> is_floor_sqrt(x as int * FX_ONE as int, r as int),
{
    if x <= 0 {
        return 0;
    }
    proof {
        assert((x as int) * (FX_ONE as int) <= (u128::MAX as int)) by (nonlinear_arith)
            requires 0 < x <= i64::MAX;
    }
    let wide: u128 = x as u128 * FX_ONE as u128;
    let root: u128 = isqrt_u128(wide);
    proof {
        assert(root as int * root as int <= wide as int);
        assert(wide as int <= i64::MAX as int * FX_ONE as int);
        assert(root < 0x8000_0000_0000_0000u128) by {
            if root >= 0x8000_0000_0000_0000u128 {
                assert((root as int) * (root as int) >= (0x8000_0000_0000_0000i128 as int) * (0x8000_0000_0000_0000i128 as int)) by (nonlinear_arith)
                    requires
                        root >= 0x8000_0000_0000_0000u128,
                ;
            }
        }
    }
    root as i64
}

/// Exact cancellation of a truncated quotient: dividing a product by one of
/// its factors returns the other factor, whatever the signs.
pub proof fn lemma_div_trunc_exact(a: int, d: int)
    requires
        d != 0,
    ensures
        spec_div_trunc(a * d, d) == a,
{
    if a == 0 {
        assert(a * d == 0) by (nonlinear_arith)
            requires a == 0;
    } else {
        let x = a * d;
        if d > 0 {
            if a > 0 {
                assert(x > 0) by (nonlinear_arith)
                    requires a > 0 && d > 0 && x == a * d;
                lemma_div_multiples_vanish(a, d);
                assert(d * a == a * d) by (nonlinear_arith);
            } else {
                assert(x < 0) by (nonlinear_arith)
                    requires a < 0 && d > 0 && x == a * d;
                lemma_div_multiples_vanish(-a, d);
                assert(d * (-a) == x * -1) by (nonlinear_arith)
                    requires x == a * d;
            }
        } else {
            if a > 0 {
                assert(x < 0) by (nonlinear_arith)
                    requires a > 0 && d < 0 && x == a * d;
                lemma_div_multiples_vanish(a, -d);
                assert((-d) * a == x * -1) by (nonlinear_arith)
                    requires x == a * d;
            } else {
                assert(x > 0) by (nonlinear_arith)
                    requires a < 0 && d < 0 && x == a * d;
                lemma_div_multiples_vanish(-a, -d);
                assert((-d) * (-a) == x) by (nonlinear_arith)
                    requires x == a * d;
                assert(d * -1 == -d);
            }
        }
    }
}

/// A dividend below a multiple of its divisor has a quotient below the
/// multiplier.
pub proof fn lemma_div_below(x: int, t: int, b: int)
    requires
        0 <= x,
        1 <= t,
        x < t * b,
        0 < b,
    ensures
        x / t < b,
{
    lemma_fundamental_div_mod(x, t);
    lemma_div_le(x, t);
    if x / t >= b {
        assert(t * (x / t) >= t * b) by (nonlinear_arith)
            requires t >= 1 && x / t >= b;
        assert(x % t >= 0);
        assert(false);
    }
}

/// Interval arithmetic for one product: magnitudes multiply.
pub proof fn lemma_mul_bounds(x: int, y: int, bx: int, by: int)
    by (nonlinear_arith)
    requires
        -bx <= x <= bx,
        -by <= y <= by,
        0 <= bx,
        0 <= by,
    ensures
        -(bx * by) <= x * y <= bx * by,
{
}

/// A rounded scalar stays within the whole-number range a raw value can
/// carry.
pub proof fn lemma_fx_round_bound(a: int)
    requires
        i64::MIN as int <= a <= i64::MAX as int,
    ensures
        -0x1_0000_0000_0000 <= spec_fx_round(a) <= 0x1_0000_0000_0000,
{
    if a >= 0 {
        let x = a + FX_HALF as int;
        lemma_div_le(x, FX_ONE as int);
        lemma_fundamental_div_mod(x, FX_ONE as int);
        assert(x % (FX_ONE as int) >= 0);
        assert(65536 * (x / 65536) <= x);
    } else {
        let x = (a - FX_HALF as int) * -1;
        lemma_div_le(x, FX_ONE as int);
        lemma_fundamental_div_mod(x, FX_ONE as int);
        assert(x % (FX_ONE as int) >= 0);
        assert(65536 * (x / 65536) <= x);
    }
}

} // verus!
