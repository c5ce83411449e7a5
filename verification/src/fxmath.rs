//! Fixed-point elementary functions: sine, cosine, base-two exponential and
//! logarithm, and the powers built from them.
//!
//! Each function computes a fixed polynomial approximation; its contract pins
//! the result to the spec-level mirror of that computation, so callers reason
//! about one exact value.

use vstd::prelude::*;
use vstd::arithmetic::div_mod::lemma_fundamental_div_mod;
use crate::fx::{
    FX_ONE, fx_add, fx_sub, fx_mul, fx_div, div_trunc_i128, sat_narrow,
    spec_fx_add, spec_fx_sub, spec_fx_mul, spec_fx_div, spec_fx_sat,
    spec_div_trunc, lemma_div_le, lemma_div_trunc_exact,
};

verus! {

/// 2*pi in Q16.16.
pub const FX_TWO_PI: i64 = 411775;

/// pi in Q16.16.
pub const FX_PI: i64 = 205887;

/// pi/2 in Q16.16.
pub const FX_HALF_PI: i64 = 102944;

/// log2(e) in Q16.16.
pub const FX_LOG2E: i64 = 94548;

/// ln(2) in Q16.16.
pub const FX_LN2: i64 = 45426;

/// Truncated division of a scalar by a small positive whole constant.
pub fn fx_div_int(a: i64, d: i64) -> (r: i64)
    requires
        d >= 1,
    ensures
        r as int == spec_div_trunc(a as int, d as int),
{
    let q: i128 = div_trunc_i128(a as i128, d as i128);
    proof {
        if a > 0 {
            lemma_div_le(a as int, d as int);
        }
        if a < 0 {
            lemma_div_le((a as int) * -1, d as int);
        }
    }
    q as i64
}

/// Reduction of an angle to [-pi/2, pi/2] with the sine's symmetry: first
/// modulo 2*pi, then mirrored about the vertical axis.
pub open spec fn spec_angle_reduce(x: int) -> int {
    let r = x % (FX_TWO_PI as int);
    let k = if r > FX_PI as int {
        r - FX_TWO_PI as int
    } else {
        r
    };
    if k > FX_HALF_PI as int {
        FX_PI as int - k
    } else if k < -(FX_HALF_PI as int) {
        -(FX_PI as int) - k
    } else {
        k
    }
}

/// Degree-nine sine polynomial on the reduced range, evaluated by Horner's
/// rule with the exact fixed-point operations.
pub open spec fn spec_sin_core(k: int) -> int {
    let x2 = spec_fx_mul(k, k);
    let a1 = spec_fx_sub(FX_ONE as int, spec_div_trunc(x2, 72));
    let a2 = spec_fx_sub(FX_ONE as int, spec_div_trunc(spec_fx_mul(x2, a1), 42));
    let a3 = spec_fx_sub(FX_ONE as int, spec_div_trunc(spec_fx_mul(x2, a2), 20));
    let a4 = spec_fx_sub(FX_ONE as int, spec_div_trunc(spec_fx_mul(x2, a3), 6));
    spec_fx_mul(k, a4)
}

pub open spec fn spec_fx_sin(x: int) -> int {
    spec_sin_core(spec_angle_reduce(x))
}

pub open spec fn spec_fx_cos(x: int) -> int {
    spec_fx_sin(spec_fx_add(x, FX_HALF_PI as int))
}

pub fn fx_sin(x: i64) -> (r: i64)
    ensures
        r as int == spec_fx_sin(x as int),
{
    let r0: i64 = match x.checked_rem_euclid(FX_TWO_PI) {
        Some(v) => v,
        None => {
            proof {
                assert(false);
            }
            0
        },
    };
    let k1: i64 = if r0 > FX_PI {
        r0 - FX_TWO_PI
    } else {
        r0
    };
    let k: i64 = if k1 > FX_HALF_PI {
        FX_PI - k1
    } else if k1 < -FX_HALF_PI {
        -FX_PI - k1
    } else {
        k1
    };
    let x2: i64 = fx_mul(k, k);
    let a1: i64 = fx_sub(FX_ONE, fx_div_int(x2, 72));
    let a2: i64 = fx_sub(FX_ONE, fx_div_int(fx_mul(x2, a1), 42));
    let a3: i64 = fx_sub(FX_ONE, fx_div_int(fx_mul(x2, a2), 20));
    let a4: i64 = fx_sub(FX_ONE, fx_div_int(fx_mul(x2, a3), 6));
    fx_mul(k, a4)
}

pub fn fx_cos(x: i64) -> (r: i64)
    ensures
        r as int == spec_fx_cos(x as int),
{
    fx_sin(fx_add(x, FX_HALF_PI))
}

/// Powers of two as raw integers.
pub open spec fn spec_pow2(n: nat) -> int
    decreases n,
{
    if n == 0 {
        1
    } else {
        2 * spec_pow2((n - 1) as nat)
    }
}

pub proof fn lemma_pow2_monotone(a: nat, b: nat)
    requires
        a <= b,
    ensures
        1 <= spec_pow2(a) <= spec_pow2(b),
    decreases b,
{
    if b > 0 {
        if a < b {
            lemma_pow2_monotone(a, (b - 1) as nat);
        } else {
            lemma_pow2_monotone((a - 1) as nat, (b - 1) as nat);
        }
    }
}

pub fn pow2_i64(n: u32) -> (r: i64)
    requires
        n <= 62,
    ensures
        r as int == spec_pow2(n as nat),
        r >= 1,
{
    let mut r: i64 = 1;
    let mut i: u32 = 0;
    while i < n
        invariant
            i <= n,
            n <= 62,
            r as int == spec_pow2(i as nat),
            r >= 1,
        decreases n - i,
    {
        proof {
            assert(spec_pow2(61) == 0x2000_0000_0000_0000) by {
                reveal_with_fuel(spec_pow2, 62);
            }
            lemma_pow2_monotone(i as nat, 61);
        }
        r = r * 2;
        i = i + 1;
    }
    r
}

/// Degree-seven exponential polynomial for the fractional part of the
/// exponent, as `e^(f*ln2)` by Horner's rule.
pub open spec fn spec_exp2_frac(f: int) -> int {
    let y = spec_fx_mul(f, FX_LN2 as int);
    let a7 = spec_fx_add(FX_ONE as int, spec_div_trunc(y, 7));
    let a6 = spec_fx_add(FX_ONE as int, spec_div_trunc(spec_fx_mul(y, a7), 6));
    let a5 = spec_fx_add(FX_ONE as int, spec_div_trunc(spec_fx_mul(y, a6), 5));
    let a4 = spec_fx_add(FX_ONE as int, spec_div_trunc(spec_fx_mul(y, a5), 4));
    let a3 = spec_fx_add(FX_ONE as int, spec_div_trunc(spec_fx_mul(y, a4), 3));
    let a2 = spec_fx_add(FX_ONE as int, spec_div_trunc(spec_fx_mul(y, a3), 2));
    spec_fx_add(FX_ONE as int, spec_fx_mul(y, a2))
}

/// Base-two exponential: split into whole and fractional exponent, scale the
/// fractional polynomial by the power of two; saturates far above, vanishes
/// far below.
pub open spec fn spec_fx_exp2(x: int) -> int {
    let n = x / (FX_ONE as int);
    let f = x % (FX_ONE as int);
    let p = spec_exp2_frac(f);
    if n >= 46 {
        i64::MAX as int
    } else if n >= 0 {
        spec_fx_sat(p * spec_pow2(n as nat))
    } else if n < -62 {
        0
    } else {
        spec_div_trunc(p, spec_pow2((-n) as nat))
    }
}

pub fn fx_exp2(x: i64) -> (r: i64)
    ensures
        r as int == spec_fx_exp2(x as int),
{
    let f: i64 = match x.checked_rem_euclid(FX_ONE) {
        Some(v) => v,
        None => {
            proof {
                assert(false);
            }
            0
        },
    };
    let diff: i128 = x as i128 - f as i128;
    let ghost nq = x as int / (FX_ONE as int);
    proof {
        lemma_fundamental_div_mod(x as int, FX_ONE as int);
        assert(diff as int == (FX_ONE as int) * nq);
        lemma_div_trunc_exact(nq, FX_ONE as int);
        assert(nq * (FX_ONE as int) == (FX_ONE as int) * nq) by (nonlinear_arith);
        assert(65536 * nq == diff as int);
        assert(-0x1_0000_0000_0000 < nq < 0x1_0000_0000_0000) by (nonlinear_arith)
            requires
                65536 * nq == diff as int,
                -0x1_0000_0000_0000_0000 < (diff as int) < 0x1_0000_0000_0000_0000,
        ;
    }
    let n: i64 = div_trunc_i128(diff, FX_ONE as i128) as i64;
    let y: i64 = fx_mul(f, FX_LN2);
    let a7: i64 = fx_add(FX_ONE, fx_div_int(y, 7));
    let a6: i64 = fx_add(FX_ONE, fx_div_int(fx_mul(y, a7), 6));
    let a5: i64 = fx_add(FX_ONE, fx_div_int(fx_mul(y, a6), 5));
    let a4: i64 = fx_add(FX_ONE, fx_div_int(fx_mul(y, a5), 4));
    let a3: i64 = fx_add(FX_ONE, fx_div_int(fx_mul(y, a4), 3));
    let a2: i64 = fx_add(FX_ONE, fx_div_int(fx_mul(y, a3), 2));
    let p: i64 = fx_add(FX_ONE, fx_mul(y, a2));
    if n >= 46 {
        i64::MAX
    } else if n >= 0 {
        let scale: i64 = pow2_i64(n as u32);
        proof {
            crate::fx::lemma_i64_product_fits(p as int, scale as int);
        }
        sat_narrow(p as i128 * scale as i128)
    } else if n < -62 {
        0
    } else {
        let scale: i64 = pow2_i64((-n) as u32);
        let q: i128 = div_trunc_i128(p as i128, scale as i128);
        proof {
            if p > 0 {
                lemma_div_le(p as int, scale as int);
            }
            if p < 0 {
                lemma_div_le((p as int) * -1, scale as int);
            }
        }
        q as i64
    }
}

/// Halvings until the mantissa drops below two.
pub open spec fn spec_norm_down(m: int) -> int
    decreases m,
{
    if m >= 2 * FX_ONE as int {
        spec_norm_down(m / 2)
    } else {
        m
    }
}

pub open spec fn spec_norm_down_count(m: int) -> int
    decreases m,
{
    if m >= 2 * FX_ONE as int {
        spec_norm_down_count(m / 2) + 1
    } else {
        0
    }
}

/// Doublings until the mantissa reaches one.
pub open spec fn spec_norm_up(m: int) -> int
    decreases 2 * FX_ONE as int - m,
{
    if 1 <= m < FX_ONE as int {
        spec_norm_up(2 * m)
    } else {
        m
    }
}

pub open spec fn spec_norm_up_count(m: int) -> int
    decreases 2 * FX_ONE as int - m,
{
    if 1 <= m < FX_ONE as int {
        spec_norm_up_count(2 * m) + 1
    } else {
        0
    }
}

proof fn lemma_norm_down_count_nonneg(m: int)
    ensures
        0 <= spec_norm_down_count(m),
    decreases m,
{
    if m >= 2 * FX_ONE as int {
        lemma_norm_down_count_nonneg(m / 2);
    }
}

/// Counting halvings: a value below 2^(k+17) needs at most k of them.
proof fn lemma_norm_down_count_rec(m: int, k: int)
    requires
        0 <= k,
        m < spec_pow2((k + 17) as nat),
    ensures
        spec_norm_down_count(m) <= k,
    decreases m,
{
    if m >= 2 * FX_ONE as int {
        assert(spec_pow2((k + 17) as nat) == 2 * spec_pow2((k + 16) as nat));
        if k == 0 {
            assert(spec_pow2(17nat) == 131072) by {
                reveal_with_fuel(spec_pow2, 18);
            }
        }
        lemma_norm_down_count_rec(m / 2, k - 1);
    }
}

proof fn lemma_norm_up_count_nonneg(m: int)
    ensures
        0 <= spec_norm_up_count(m),
    decreases 2 * FX_ONE as int - m,
{
    if 1 <= m < FX_ONE as int {
        lemma_norm_up_count_nonneg(2 * m);
    }
}

/// Counting doublings: a value of at least 2^(16-k) needs at most k of them.
proof fn lemma_norm_up_count_rec(m: int, k: int)
    requires
        0 <= k <= 16,
        spec_pow2((16 - k) as nat) <= m,
    ensures
        spec_norm_up_count(m) <= k,
    decreases 2 * FX_ONE as int - m,
{
    if 1 <= m < FX_ONE as int {
        if k == 0 {
            assert(spec_pow2(16nat) == 65536) by {
                reveal_with_fuel(spec_pow2, 17);
            }
        }
        assert(spec_pow2((16 - (k - 1)) as nat) == 2 * spec_pow2((16 - k) as nat));
        lemma_norm_up_count_rec(2 * m, k - 1);
    }
}

/// Base-two logarithm: normalize the mantissa into [1, 2), then an
/// inverse-hyperbolic-tangent polynomial of degree seven; zero on
/// non-positive input.
pub open spec fn spec_fx_log2(x: int) -> int {
    if x <= 0 {
        0
    } else {
        let md = spec_norm_down(x);
        let m = spec_norm_up(md);
        let e = spec_norm_down_count(x) - spec_norm_up_count(md);
        let s = spec_fx_div(m - FX_ONE as int, m + FX_ONE as int);
        let s2 = spec_fx_mul(s, s);
        let t7 = spec_div_trunc(s, 7);
        let t5 = spec_fx_add(spec_div_trunc(s, 5), spec_fx_mul(s2, t7));
        let t3 = spec_fx_add(spec_div_trunc(s, 3), spec_fx_mul(s2, t5));
        let t = spec_fx_add(s, spec_fx_mul(s2, t3));
        spec_fx_add(e * (FX_ONE as int), spec_fx_mul(2 * FX_LOG2E as int, t))
    }
}

pub fn fx_log2(x: i64) -> (r: i64)
    ensures
        r as int == spec_fx_log2(x as int),
{
    if x <= 0 {
        return 0;
    }
    let ghost x0 = x as int;
    proof {
        assert(spec_pow2(63nat) == 0x8000_0000_0000_0000) by {
            reveal_with_fuel(spec_pow2, 64);
        }
        lemma_norm_down_count_rec(x0, 46);
        lemma_norm_down_count_nonneg(x0);
    }
    let mut m: i64 = x;
    let mut e: i64 = 0;
    while m >= 2 * FX_ONE
        invariant
            1 <= m as int,
            spec_norm_down(m as int) == spec_norm_down(x0),
            e as int + spec_norm_down_count(m as int) == spec_norm_down_count(x0),
            spec_norm_down_count(x0) <= 46,
            0 <= e as int <= 46,
        decreases m,
    {
        m = m / 2;
        e = e + 1;
        proof {
            lemma_norm_down_count_nonneg(m as int);
        }
    }
    let ghost md = m as int;
    proof {
        assert(spec_norm_down(x0) == md);
        assert(spec_norm_down_count(x0) == e as int);
        lemma_norm_up_count_rec(md, 16);
        lemma_norm_up_count_nonneg(md);
    }
    let mut eu: i64 = 0;
    while m < FX_ONE
        invariant
            1 <= m as int,
            (m as int) < 2 * FX_ONE as int,
            spec_norm_up(m as int) == spec_norm_up(md),
            eu as int + spec_norm_up_count(m as int) == spec_norm_up_count(md),
            spec_norm_up_count(md) <= 16,
            0 <= eu as int <= 16,
        decreases 2 * FX_ONE - m,
    {
        m = m * 2;
        eu = eu + 1;
        proof {
            lemma_norm_up_count_nonneg(m as int);
        }
    }
    proof {
        assert(spec_norm_up(md) == m as int);
        assert(spec_norm_up_count(md) == eu as int);
    }
    let ecombined: i64 = e - eu;
    let s: i64 = fx_div(m - FX_ONE, m + FX_ONE);
    let s2: i64 = fx_mul(s, s);
    let t7: i64 = fx_div_int(s, 7);
    let t5: i64 = fx_add(fx_div_int(s, 5), fx_mul(s2, t7));
    let t3: i64 = fx_add(fx_div_int(s, 3), fx_mul(s2, t5));
    let t: i64 = fx_add(s, fx_mul(s2, t3));
    fx_add(ecombined * FX_ONE, fx_mul(2 * FX_LOG2E, t))
}

/// Natural exponential through the base-two one.
pub open spec fn spec_fx_exp(x: int) -> int {
    spec_fx_exp2(spec_fx_mul(x, FX_LOG2E as int))
}

pub fn fx_exp(x: i64) -> (r: i64)
    ensures
        r as int == spec_fx_exp(x as int),
{
    fx_exp2(fx_mul(x, FX_LOG2E))
}

/// Real power `x^p` for positive base, through exp2 and log2; zero otherwise.
pub open spec fn spec_fx_powf(x: int, p: int) -> int {
    if x <= 0 {
        0
    } else {
        spec_fx_exp2(spec_fx_mul(p, spec_fx_log2(x)))
    }
}

pub fn fx_powf(x: i64, p: i64) -> (r: i64)
    ensures
        r as int == spec_fx_powf(x as int, p as int),
{
    if x <= 0 {
        return 0;
    }
    fx_exp2(fx_mul(p, fx_log2(x)))
}

/// Whole-number power by repeated multiplication.
pub open spec fn spec_fx_powi(b: int, n: nat) -> int
    decreases n,
{
    if n == 0 {
        FX_ONE as int
    } else {
        spec_fx_mul(spec_fx_powi(b, (n - 1) as nat), b)
    }
}

pub fn fx_powi(b: i64, n: u32) -> (r: i64)
    ensures
        r as int == spec_fx_powi(b as int, n as nat),
{
    let mut r: i64 = FX_ONE;
    let mut i: u32 = 0;
    while i < n
        invariant
            i <= n,
            r as int == spec_fx_powi(b as int, i as nat),
        decreases n - i,
    {
        r = fx_mul(r, b);
        i = i + 1;
    }
    r
}

} // verus!
