//! The bloom post-process: a separable five-tap Gaussian blur of the emission
//! buffer, iterated five times through a scratch buffer, then an
//! exposure/gamma tonemap compositing the blurred emission into the color
//! buffer.
//!
//! Taps that fall outside the image are simply left out, so edges darken; the
//! tonemap is `(1 - exp(-(base + emission * 3/2) / 255))^(1/gamma) * 255` per
//! channel with unit exposure and a gamma of 2.2.

use vstd::prelude::*;
use vstd::arithmetic::div_mod::lemma_fundamental_div_mod;
use vstd::pervasive::VecAdditionalExecFns;
use crate::fx::{
    FX_ONE, fx_div, fx_mul, fx_neg, fx_sub, lemma_div_below,
    spec_fx_div, spec_fx_mul, spec_fx_neg, spec_fx_sub,
};
use crate::fxmath::{fx_exp, spec_fx_exp, fx_powf, spec_fx_powf};
use crate::types::{
    Color, Pixel, spec_channel_to_u8, spec_color_add, spec_color_scale, spec_color_to_fx,
    spec_color_to_u8,
};

verus! {

/// The five Gaussian tap weights, center first.
pub open spec fn spec_blur_weight(off: int) -> int {
    if off == 0 {
        14879
    } else if off == 1 {
        12753
    } else if off == 2 {
        7971
    } else if off == 3 {
        3543
    } else {
        1063
    }
}

fn blur_weight(off: u32) -> (r: i64)
    ensures
        r as int == spec_blur_weight(off as int),
{
    if off == 0 {
        14879
    } else if off == 1 {
        12753
    } else if off == 2 {
        7971
    } else if off == 3 {
        3543
    } else {
        1063
    }
}

/// The emission gain in the composite (three halves).
pub const FX_EMISSION_GAIN: i64 = 98304;

/// The reciprocal of the tonemap gamma of 2.2.
pub const FX_INV_GAMMA: i64 = 29789;

/// The horizontal blur accumulated through tap offset `off`: the center tap,
/// then for each offset the left neighbor before the right one, each only if
/// its column is inside the row.
pub open spec fn spec_blur_acc_h(src: Seq<Pixel>, w: int, i: int, off: nat) -> Color<i64>
    decreases off,
{
    if off == 0 {
        spec_color_scale(spec_color_to_fx(src[i].color), spec_blur_weight(0))
    } else {
        let prev = spec_blur_acc_h(src, w, i, (off - 1) as nat);
        let wgt = spec_blur_weight(off as int);
        let with_left = if i % w - off >= 0 {
            spec_color_add(prev, spec_color_scale(spec_color_to_fx(src[i - off].color), wgt))
        } else {
            prev
        };
        if i % w + off < w {
            spec_color_add(
                with_left,
                spec_color_scale(spec_color_to_fx(src[i + off].color), wgt),
            )
        } else {
            with_left
        }
    }
}

/// The vertical blur accumulated through tap offset `off`, over rows instead
/// of columns.
pub open spec fn spec_blur_acc_v(src: Seq<Pixel>, w: int, h: int, i: int, off: nat) -> Color<
    i64,
>
    decreases off,
{
    if off == 0 {
        spec_color_scale(spec_color_to_fx(src[i].color), spec_blur_weight(0))
    } else {
        let prev = spec_blur_acc_v(src, w, h, i, (off - 1) as nat);
        let wgt = spec_blur_weight(off as int);
        let with_up = if i / w - off >= 0 {
            spec_color_add(
                prev,
                spec_color_scale(spec_color_to_fx(src[i - off * w].color), wgt),
            )
        } else {
            prev
        };
        if i / w + off < h {
            spec_color_add(
                with_up,
                spec_color_scale(spec_color_to_fx(src[i + off * w].color), wgt),
            )
        } else {
            with_up
        }
    }
}

pub open spec fn spec_blur_h_at(src: Seq<Pixel>, w: int, i: int) -> Color<u8> {
    spec_color_to_u8(spec_blur_acc_h(src, w, i, 4))
}

pub open spec fn spec_blur_v_at(src: Seq<Pixel>, w: int, h: int, i: int) -> Color<u8> {
    spec_color_to_u8(spec_blur_acc_v(src, w, h, i, 4))
}

/// A horizontal pass over the whole buffer: blurred colors, alphas kept from
/// the destination.
pub open spec fn spec_blur_h_seq(src: Seq<Pixel>, dst0: Seq<Pixel>, w: int) -> Seq<Pixel> {
    Seq::new(src.len(), |i: int| Pixel { color: spec_blur_h_at(src, w, i), a: dst0[i].a })
}

pub open spec fn spec_blur_v_seq(src: Seq<Pixel>, dst0: Seq<Pixel>, w: int, h: int) -> Seq<
    Pixel,
> {
    Seq::new(src.len(), |i: int| Pixel { color: spec_blur_v_at(src, w, h, i), a: dst0[i].a })
}

/// `n` blur rounds: each runs the emission buffer horizontally into the
/// scratch buffer, then the scratch buffer vertically back into the emission
/// buffer.
pub open spec fn spec_blur_rounds(
    em: Seq<Pixel>,
    pp: Seq<Pixel>,
    w: int,
    h: int,
    n: nat,
) -> (Seq<Pixel>, Seq<Pixel>)
    decreases n,
{
    if n == 0 {
        (em, pp)
    } else {
        let pp1 = spec_blur_h_seq(em, pp, w);
        let em1 = spec_blur_v_seq(pp1, em, w, h);
        spec_blur_rounds(em1, pp1, w, h, (n - 1) as nat)
    }
}

/// Index safety of horizontal taps: a column with room on either side keeps
/// the flat index inside the buffer.
proof fn lemma_row_step(i: int, w: int, h: int, off: int)
    requires
        0 <= i < w * h,
        w >= 1,
        0 <= off,
    ensures
        i % w + off < w ==> i + off < w * h,
        i % w >= off ==> i - off >= 0,
{
    assert(h >= 1) by (nonlinear_arith)
        requires 0 <= i && i < w * h && w >= 1;
    lemma_fundamental_div_mod(i, w);
    lemma_div_below(i, w, h);
    assert(w * (i / w) >= 0) by (nonlinear_arith)
        requires w >= 1 && i / w >= 0;
    if i % w + off < w {
        assert(w * (i / w) + w <= w * h) by (nonlinear_arith)
            requires i / w < h && w >= 1 && i / w >= 0;
    }
}

/// Index safety of vertical taps: a row with room above or below keeps the
/// flat index inside the buffer.
proof fn lemma_col_step(i: int, w: int, h: int, off: int)
    requires
        0 <= i < w * h,
        w >= 1,
        0 <= off,
    ensures
        i / w + off < h ==> i + off * w < w * h,
        i / w >= off ==> i - off * w >= 0,
        0 <= i / w < h,
{
    assert(h >= 1) by (nonlinear_arith)
        requires 0 <= i && i < w * h && w >= 1;
    lemma_fundamental_div_mod(i, w);
    lemma_div_below(i, w, h);
    if i / w + off < h {
        assert(w * (i / w) + off * w + w <= w * h) by (nonlinear_arith)
            requires i / w + off < h && w >= 1 && i / w >= 0 && off >= 0;
    }
    if i / w >= off {
        assert(w * (i / w) >= off * w) by (nonlinear_arith)
            requires i / w >= off && w >= 1;
    }
}

fn scaled_tap(p: Pixel, weight: i64) -> (r: Color<i64>)
    ensures
        r == spec_color_scale(spec_color_to_fx(p.color), weight as int),
{
    p.color.to_fx().scale(weight)
}

/// One blurred color sample of the horizontal pass.
fn blur_h_sample(src: &Vec<Pixel>, width: u32, height: u32, i: usize) -> (c: Color<u8>)
    requires
        src.len() == width as int * height as int,
        i < src.len(),
        width >= 1,
    ensures
        c == spec_blur_h_at(src@, width as int, i as int),
{
    let w: usize = width as usize;
    let x: usize = i % w;
    let mut acc: Color<i64> = scaled_tap(src[i], blur_weight(0));
    let mut off: usize = 1;
    while off <= 4
        invariant
            src.len() == width as int * height as int,
            i < src.len(),
            width >= 1,
            w == width as usize,
            x as int == i as int % (w as int),
            x < w,
            1 <= off <= 5,
            acc == spec_blur_acc_h(src@, w as int, i as int, (off - 1) as nat),
        decreases 5 - off,
    {
        proof {
            lemma_row_step(i as int, w as int, height as int, off as int);
        }
        let wgt = blur_weight(off as u32);
        if x >= off {
            acc = acc.add(scaled_tap(src[i - off], wgt));
        }
        if off < w - x {
            acc = acc.add(scaled_tap(src[i + off], wgt));
        }
        off = off + 1;
    }
    acc.to_u8()
}

/// One blurred color sample of the vertical pass.
fn blur_v_sample(src: &Vec<Pixel>, width: u32, height: u32, i: usize) -> (c: Color<u8>)
    requires
        src.len() == width as int * height as int,
        i < src.len(),
        width >= 1,
    ensures
        c == spec_blur_v_at(src@, width as int, height as int, i as int),
{
    let w: usize = width as usize;
    let y: usize = i / w;
    proof {
        lemma_col_step(i as int, w as int, height as int, 0);
    }
    let mut acc: Color<i64> = scaled_tap(src[i], blur_weight(0));
    let mut off: usize = 1;
    while off <= 4
        invariant
            src.len() == width as int * height as int,
            i < src.len(),
            width >= 1,
            w == width as usize,
            y as int == i as int / (w as int),
            y < height as usize,
            1 <= off <= 5,
            acc == spec_blur_acc_v(src@, w as int, height as int, i as int, (off - 1) as nat),
        decreases 5 - off,
    {
        proof {
            lemma_col_step(i as int, w as int, height as int, off as int);
        }
        let wgt = blur_weight(off as u32);
        if y >= off {
            acc = acc.add(scaled_tap(src[i - off * w], wgt));
        }
        if off < height as usize - y {
            acc = acc.add(scaled_tap(src[i + off * w], wgt));
        }
        off = off + 1;
    }
    proof {
        lemma_col_step(i as int, w as int, height as int, 0);
    }
    acc.to_u8()
}

/// One horizontal blur pass; the destination keeps its alphas.
pub fn blur_horizontal(src: &Vec<Pixel>, dst: &mut Vec<Pixel>, width: u32, height: u32)
    requires
        src.len() == width as int * height as int,
        old(dst).len() == src.len(),
    ensures
        final(dst)@ == spec_blur_h_seq(src@, old(dst)@, width as int),
{
    let total: usize = src.len();
    let mut i: usize = 0;
    while i < total
        invariant
            src.len() == width as int * height as int,
            dst.len() == total,
            total == src.len(),
            i <= total,
            forall|j: int| 0 <= j < i ==> dst@[j] == (Pixel {
                color: spec_blur_h_at(src@, width as int, j),
                a: old(dst)@[j].a,
            }),
            forall|j: int| i <= j < total ==> dst@[j] == old(dst)@[j],
        decreases total - i,
    {
        proof {
            if width == 0 {
                assert(src.len() == 0) by (nonlinear_arith)
                    requires src.len() == (width as int) * (height as int), width == 0;
            }
        }
        let color = blur_h_sample(src, width, height, i);
        let a = dst[i].a;
        dst.set(i, Pixel { color, a });
        i = i + 1;
    }
    proof {
        assert(dst@ =~= spec_blur_h_seq(src@, old(dst)@, width as int));
    }
}

/// One vertical blur pass; the destination keeps its alphas.
pub fn blur_vertical(src: &Vec<Pixel>, dst: &mut Vec<Pixel>, width: u32, height: u32)
    requires
        src.len() == width as int * height as int,
        old(dst).len() == src.len(),
    ensures
        final(dst)@ == spec_blur_v_seq(src@, old(dst)@, width as int, height as int),
{
    let total: usize = src.len();
    let mut i: usize = 0;
    while i < total
        invariant
            src.len() == width as int * height as int,
            dst.len() == total,
            total == src.len(),
            i <= total,
            forall|j: int| 0 <= j < i ==> dst@[j] == (Pixel {
                color: spec_blur_v_at(src@, width as int, height as int, j),
                a: old(dst)@[j].a,
            }),
            forall|j: int| i <= j < total ==> dst@[j] == old(dst)@[j],
        decreases total - i,
    {
        proof {
            if width == 0 {
                assert(src.len() == 0) by (nonlinear_arith)
                    requires src.len() == (width as int) * (height as int), width == 0;
            }
        }
        let color = blur_v_sample(src, width, height, i);
        let a = dst[i].a;
        dst.set(i, Pixel { color, a });
        i = i + 1;
    }
    proof {
        assert(dst@ =~= spec_blur_v_seq(src@, old(dst)@, width as int, height as int));
    }
}

/// The tonemap of one channel: unit exposure, the fixed gamma.
pub open spec fn spec_tonemap_channel(c: int) -> int {
    let x = spec_fx_mul(spec_fx_div(c, 255 * FX_ONE as int), FX_ONE as int);
    let e = spec_fx_exp(spec_fx_neg(x));
    let y = spec_fx_sub(FX_ONE as int, e);
    let p = spec_fx_powf(y, FX_INV_GAMMA as int);
    spec_channel_to_u8(spec_fx_mul(p, 255 * FX_ONE as int))
}

/// The composite of one pixel: base plus gained emission, tonemapped per
/// channel.
pub open spec fn spec_tonemap(base: Color<u8>, em: Color<u8>) -> Color<u8> {
    let c = spec_color_add(
        spec_color_to_fx(base),
        spec_color_scale(spec_color_to_fx(em), FX_EMISSION_GAIN as int),
    );
    Color {
        r: spec_tonemap_channel(c.r as int) as u8,
        g: spec_tonemap_channel(c.g as int) as u8,
        b: spec_tonemap_channel(c.b as int) as u8,
    }
}

fn tonemap_channel(c: i64) -> (r: u8)
    ensures
        r as int == spec_tonemap_channel(c as int),
{
    let x = fx_mul(fx_div(c, 255 * FX_ONE), FX_ONE);
    let e = fx_exp(fx_neg(x));
    let y = fx_sub(FX_ONE, e);
    let p = fx_powf(y, FX_INV_GAMMA);
    let scaled = fx_mul(p, 255 * FX_ONE);
    (Color { r: scaled, g: scaled, b: scaled }).to_u8().r
}

/// Tonemaps one pixel against its blurred emission sample.
pub fn tonemap_pixel(base: Color<u8>, em: Color<u8>) -> (r: Color<u8>)
    ensures
        r == spec_tonemap(base, em),
{
    let c = base.to_fx().add(em.to_fx().scale(FX_EMISSION_GAIN));
    Color { r: tonemap_channel(c.r), g: tonemap_channel(c.g), b: tonemap_channel(c.b) }
}

/// The whole post-process: five blur rounds of the emission buffer through
/// the scratch buffer, then the tonemap composite into the color buffer,
/// which keeps its alphas.
pub fn bloom(
    pixels: &mut Vec<Pixel>,
    emission: &mut Vec<Pixel>,
    pingpong: &mut Vec<Pixel>,
    width: u32,
    height: u32,
)
    requires
        old(pixels).len() == width as int * height as int,
        old(emission).len() == old(pixels).len(),
        old(pingpong).len() == old(pixels).len(),
    ensures
        final(emission)@ == spec_blur_rounds(
            old(emission)@, old(pingpong)@, width as int, height as int, 5,
        ).0,
        final(pixels).len() == old(pixels).len(),
        final(emission).len() == old(emission).len(),
        final(pingpong).len() == old(pingpong).len(),
        forall|i: int| 0 <= i < final(pixels).len() ==> final(pixels)@[i] == (Pixel {
            color: spec_tonemap(old(pixels)@[i].color, final(emission)@[i].color),
            a: old(pixels)@[i].a,
        }),
{
    let mut round: u32 = 0;
    while round < 5
        invariant
            pixels.len() == width as int * height as int,
            emission.len() == pixels.len(),
            pingpong.len() == pixels.len(),
            round <= 5,
            (emission@, pingpong@) == spec_blur_rounds(
                old(emission)@, old(pingpong)@, width as int, height as int, round as nat,
            ),
        decreases 5 - round,
    {
        blur_horizontal(emission, pingpong, width, height);
        blur_vertical(pingpong, emission, width, height);
        proof {
            lemma_blur_rounds_step(
                old(emission)@, old(pingpong)@, width as int, height as int, round as nat,
            );
        }
        round = round + 1;
    }
    let total: usize = pixels.len();
    let mut i: usize = 0;
    while i < total
        invariant
            pixels.len() == total,
            emission.len() == total,
            i <= total,
            emission@ == spec_blur_rounds(
                old(emission)@, old(pingpong)@, width as int, height as int, 5,
            ).0,
            forall|j: int| 0 <= j < i ==> pixels@[j] == (Pixel {
                color: spec_tonemap(old(pixels)@[j].color, emission@[j].color),
                a: old(pixels)@[j].a,
            }),
            forall|j: int| i <= j < total ==> pixels@[j] == old(pixels)@[j],
        decreases total - i,
    {
        let base = pixels[i];
        let em = emission[i];
        let color = tonemap_pixel(base.color, em.color);
        pixels.set(i, Pixel { color, a: base.a });
        i = i + 1;
    }
}

/// Unrolling one blur round of the recursion from the back.
proof fn lemma_blur_rounds_step(em: Seq<Pixel>, pp: Seq<Pixel>, w: int, h: int, n: nat)
    ensures
        spec_blur_rounds(em, pp, w, h, n + 1).0 == spec_blur_v_seq(
            spec_blur_h_seq(
                spec_blur_rounds(em, pp, w, h, n).0,
                spec_blur_rounds(em, pp, w, h, n).1,
                w,
            ),
            spec_blur_rounds(em, pp, w, h, n).0,
            w,
            h,
        ),
        spec_blur_rounds(em, pp, w, h, n + 1).1 == spec_blur_h_seq(
            spec_blur_rounds(em, pp, w, h, n).0,
            spec_blur_rounds(em, pp, w, h, n).1,
            w,
        ),
    decreases n,
{
    let pp1 = spec_blur_h_seq(em, pp, w);
    let em1 = spec_blur_v_seq(pp1, em, w, h);
    assert(spec_blur_rounds(em, pp, w, h, n + 1) == spec_blur_rounds(em1, pp1, w, h, n));
    if n == 0 {
        assert(spec_blur_rounds(em1, pp1, w, h, 0) == (em1, pp1));
        assert(spec_blur_rounds(em, pp, w, h, 0) == (em, pp));
    } else {
        lemma_blur_rounds_step(em1, pp1, w, h, (n - 1) as nat);
    }
}

} // verus!
