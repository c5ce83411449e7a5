//! Shared plain data: colors, pixels and mesh faces.

use vstd::prelude::*;
use crate::fx::{
    FX_ONE, fx_add, fx_sub, fx_neg, fx_mul, fx_from_int, div_trunc_i128,
    spec_fx_add, spec_fx_sub, spec_fx_neg, spec_fx_mul, spec_fx_from_int,
    spec_div_trunc, lemma_div_le,
};
use crate::linalg::Vec4;

verus! {

/// An RGB triple; `u8` for stored images, `i64` for fixed-point arithmetic
/// (one channel unit is `FX_ONE`, and image work scales channels by 255).
#[derive(Clone, Copy, PartialEq, Eq, Structural, Debug)]
pub struct Color<T> {
    pub r: T,
    pub g: T,
    pub b: T,
}

/// A stored pixel: an 8-bit color and an alpha byte.
#[derive(Clone, Copy, PartialEq, Eq, Structural, Debug)]
pub struct Pixel {
    pub color: Color<u8>,
    pub a: u8,
}

/// Three indices into one of a mesh's attribute arrays.
#[derive(Clone, Copy, PartialEq, Eq, Structural, Debug)]
pub struct Idx3 {
    pub i0: usize,
    pub i1: usize,
    pub i2: usize,
}

/// A triangle: indices into the vertex, UV and normal arrays, plus the unit
/// face normal fixed when the face was added.
#[derive(Clone, Copy, PartialEq, Eq, Structural, Debug)]
pub struct Face {
    pub vertices_indexes: Idx3,
    pub texture_vertices_indexes: Idx3,
    pub vertices_normals_indexes: Idx3,
    pub normal: Vec4,
}

pub fn white_color() -> (r: Color<u8>)
    ensures
        r == (Color::<u8> { r: 255, g: 255, b: 255 }),
{
    Color { r: 255, g: 255, b: 255 }
}

pub fn black_color() -> (r: Color<u8>)
    ensures
        r == (Color::<u8> { r: 0, g: 0, b: 0 }),
{
    Color { r: 0, g: 0, b: 0 }
}

/// One fixed-point channel narrowed to a byte: whole part, clamped to 0..=255.
pub open spec fn spec_channel_to_u8(v: int) -> int {
    let w = spec_div_trunc(v, FX_ONE as int);
    if w < 0 {
        0
    } else if w > 255 {
        255
    } else {
        w
    }
}

pub open spec fn spec_color_to_u8(c: Color<i64>) -> Color<u8> {
    Color {
        r: spec_channel_to_u8(c.r as int) as u8,
        g: spec_channel_to_u8(c.g as int) as u8,
        b: spec_channel_to_u8(c.b as int) as u8,
    }
}

pub open spec fn spec_color_to_fx(c: Color<u8>) -> Color<i64> {
    Color {
        r: spec_fx_from_int(c.r as int) as i64,
        g: spec_fx_from_int(c.g as int) as i64,
        b: spec_fx_from_int(c.b as int) as i64,
    }
}

pub open spec fn spec_color_add(a: Color<i64>, b: Color<i64>) -> Color<i64> {
    Color {
        r: spec_fx_add(a.r as int, b.r as int) as i64,
        g: spec_fx_add(a.g as int, b.g as int) as i64,
        b: spec_fx_add(a.b as int, b.b as int) as i64,
    }
}

pub open spec fn spec_color_sub(a: Color<i64>, b: Color<i64>) -> Color<i64> {
    Color {
        r: spec_fx_sub(a.r as int, b.r as int) as i64,
        g: spec_fx_sub(a.g as int, b.g as int) as i64,
        b: spec_fx_sub(a.b as int, b.b as int) as i64,
    }
}

pub open spec fn spec_color_neg(a: Color<i64>) -> Color<i64> {
    Color {
        r: spec_fx_neg(a.r as int) as i64,
        g: spec_fx_neg(a.g as int) as i64,
        b: spec_fx_neg(a.b as int) as i64,
    }
}

pub open spec fn spec_color_scale(a: Color<i64>, s: int) -> Color<i64> {
    Color {
        r: spec_fx_mul(a.r as int, s) as i64,
        g: spec_fx_mul(a.g as int, s) as i64,
        b: spec_fx_mul(a.b as int, s) as i64,
    }
}

fn channel_to_u8(v: i64) -> (r: u8)
    ensures
        r as int == spec_channel_to_u8(v as int),
{
    let w: i128 = div_trunc_i128(v as i128, FX_ONE as i128);
    proof {
        if v > 0 {
            lemma_div_le(v as int, FX_ONE as int);
        }
        if v < 0 {
            lemma_div_le((v as int) * -1, FX_ONE as int);
        }
    }
    if w < 0 {
        0
    } else if w > 255 {
        255
    } else {
        w as u8
    }
}

impl Color<u8> {
    /// The channels as fixed-point values on the 0..=255 scale.
    pub fn to_fx(self) -> (r: Color<i64>)
        ensures
            r == spec_color_to_fx(self),
    {
        Color {
            r: fx_from_int(self.r as i64),
            g: fx_from_int(self.g as i64),
            b: fx_from_int(self.b as i64),
        }
    }
}

impl Color<i64> {
    /// The whole part of each channel, clamped into a byte.
    pub fn to_u8(self) -> (r: Color<u8>)
        ensures
            r == spec_color_to_u8(self),
    {
        Color {
            r: channel_to_u8(self.r),
            g: channel_to_u8(self.g),
            b: channel_to_u8(self.b),
        }
    }

    pub fn add(self, o: Color<i64>) -> (r: Color<i64>)
        ensures
            r == spec_color_add(self, o),
    {
        Color { r: fx_add(self.r, o.r), g: fx_add(self.g, o.g), b: fx_add(self.b, o.b) }
    }

    pub fn sub(self, o: Color<i64>) -> (r: Color<i64>)
        ensures
            r == spec_color_sub(self, o),
    {
        Color { r: fx_sub(self.r, o.r), g: fx_sub(self.g, o.g), b: fx_sub(self.b, o.b) }
    }

    pub fn neg(self) -> (r: Color<i64>)
        ensures
            r == spec_color_neg(self),
    {
        Color { r: fx_neg(self.r), g: fx_neg(self.g), b: fx_neg(self.b) }
    }

    pub fn scale(self, s: i64) -> (r: Color<i64>)
        ensures
            r == spec_color_scale(self, s as int),
    {
        Color { r: fx_mul(self.r, s), g: fx_mul(self.g, s), b: fx_mul(self.b, s) }
    }
}

} // verus!
