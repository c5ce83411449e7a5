//! A flat rectangular sample grid with nearest-neighbor fetch by normalized
//! fixed-point coordinates.

use vstd::prelude::*;
use vstd::pervasive::VecAdditionalExecFns;
use vstd::arithmetic::div_mod::lemma_fundamental_div_mod;
use crate::fx::{FX_ONE, div_trunc_i128, spec_div_trunc};

verus! {

pub struct Texture<T> {
    pub width: usize,
    pub height: usize,
    pub data: Vec<T>,
}

/// The sample array covers the declared rectangle exactly.
pub open spec fn texture_valid<T>(t: Texture<T>) -> bool {
    t.data.len() == t.width * t.height
}

/// Clamping of a normalized coordinate into the open unit interval, away
/// from the edges, before it is scaled to the grid.
pub open spec fn spec_uv_clamp(u: int) -> int {
    if u <= 0 {
        66
    } else if u >= FX_ONE as int {
        65470
    } else {
        u
    }
}

/// Column index for a clamped horizontal coordinate.
pub open spec fn spec_uv_to_x(u: int, width: int) -> int {
    spec_div_trunc(spec_uv_clamp(u) * width, FX_ONE as int)
}

/// Row index for a clamped vertical coordinate; the vertical axis is flipped.
pub open spec fn spec_uv_to_y(v: int, height: int) -> int {
    spec_div_trunc((FX_ONE as int - spec_uv_clamp(v)) * height, FX_ONE as int)
}

/// The sample a fetch returns for normalized coordinates.
pub open spec fn spec_texture_sample<T>(t: Texture<T>, u: int, v: int) -> T {
    t.data@[spec_uv_to_y(v, t.height as int) * t.width as int + spec_uv_to_x(u, t.width as int)]
}

/// Scaling a coordinate strictly inside the unit interval never reaches the
/// far edge of the grid.
proof fn lemma_scaled_coord_in_range(u: int, w: int)
    requires
        1 <= u < FX_ONE as int,
        w >= 1,
    ensures
        0 <= spec_div_trunc(u * w, FX_ONE as int) < w,
{
    let p = u * w;
    assert(0 < p) by (nonlinear_arith)
        requires 1 <= u && w >= 1 && p == u * w;
    let q = p / 65536;
    lemma_fundamental_div_mod(p, 65536);
    assert(p % 65536 >= 0);
    assert(65536 * q <= p);
    assert(p <= 65535 * w) by (nonlinear_arith)
        requires u <= 65535 && w >= 1 && p == u * w;
    assert(q >= 0) by {
        crate::fx::lemma_div_le(p, 65536);
    }
    if q >= w {
        assert(65536 * q >= 65536 * w);
        assert(65535 * w < 65536 * w) by (nonlinear_arith)
            requires w >= 1;
        assert(false);
    }
}

impl<T: Copy> Texture<T> {
    pub fn new() -> (r: Texture<T>)
        ensures
            r.width == 0,
            r.height == 0,
            r.data.len() == 0,
            texture_valid(r),
    {
        Texture { width: 0, height: 0, data: Vec::new() }
    }

    /// Declares the grid's size: samples already uploaded keep their place
    /// (up to the new size), and any newly added cells take the fill value.
    pub fn set_size(&mut self, width: usize, height: usize, init_value: T)
        requires
            width as int * height as int <= usize::MAX as int,
        ensures
            final(self).width == width,
            final(self).height == height,
            final(self).data.len() == width * height,
            texture_valid(*final(self)),
            forall|i: int| 0 <= i < old(self).data.len() && i < width * height
                ==> final(self).data@[i] == old(self).data@[i],
            forall|i: int| old(self).data.len() <= i < width * height
                ==> final(self).data@[i] == init_value,
    {
        self.width = width;
        self.height = height;
        let total: usize = width * height;
        if self.data.len() > total {
            self.data.truncate(total);
        }
        while self.data.len() < total
            invariant
                self.data.len() <= total,
                self.width == width,
                self.height == height,
                self.data.len() >= old(self).data.len() || self.data.len() == total,
                forall|i: int| 0 <= i < self.data.len() && i < old(self).data.len()
                    ==> self.data@[i] == old(self).data@[i],
                forall|i: int| old(self).data.len() <= i < self.data.len()
                    ==> self.data@[i] == init_value,
            decreases total - self.data.len(),
        {
            self.data.push(init_value);
        }
    }

    /// The whole sample array, for handing the grid out to a host.
    pub fn get_data_pointer(&self) -> (r: &Vec<T>)
        ensures
            r == &self.data,
    {
        &self.data
    }

    /// Overwrites one cell; how a host uploads image data.
    pub fn set_pixel(&mut self, x: usize, y: usize, value: T)
        requires
            texture_valid(*old(self)),
            x < old(self).width,
            y < old(self).height,
        ensures
            final(self).width == old(self).width,
            final(self).height == old(self).height,
            texture_valid(*final(self)),
            final(self).data@ == old(self).data@.update(
                y as int * old(self).width as int + x as int,
                value,
            ),
    {
        proof {
            assert((y as int) * (self.width as int) + (x as int)
                < (self.width as int) * (self.height as int)) by (nonlinear_arith)
                requires
                    x < self.width,
                    y < self.height,
            ;
            assert((y as int) * (self.width as int) >= 0) by (nonlinear_arith)
                requires y >= 0 && self.width >= 0;
        }
        let index: usize = y * self.width + x;
        self.data.set(index, value);
    }

    /// Nearest-neighbor fetch by normalized coordinates; coordinates are
    /// clamped strictly inside the unit square, and the vertical axis is
    /// flipped.
    pub fn get_pixel(&self, u: i64, v: i64) -> (r: T)
        requires
            texture_valid(*self),
            self.width >= 1,
            self.height >= 1,
        ensures
            r == spec_texture_sample(*self, u as int, v as int),
    {
        let uc: i64 = if u <= 0 {
            66
        } else if u >= FX_ONE {
            65470
        } else {
            u
        };
        let vc: i64 = if v <= 0 {
            66
        } else if v >= FX_ONE {
            65470
        } else {
            v
        };
        proof {
            assert((uc as int) * (self.width as int)
                <= 65536 * 0xffff_ffff_ffff_ffff) by (nonlinear_arith)
                requires
                    0 <= uc <= 65536,
                    0 <= (self.width as int) <= 0xffff_ffff_ffff_ffff,
            ;
            assert((uc as int) * (self.width as int) >= 0) by (nonlinear_arith)
                requires 0 <= uc && 0 <= (self.width as int);
            assert(((FX_ONE - vc) as int) * (self.height as int)
                <= 65536 * 0xffff_ffff_ffff_ffff) by (nonlinear_arith)
                requires
                    0 <= ((FX_ONE - vc) as int) <= 65536,
                    0 <= (self.height as int) <= 0xffff_ffff_ffff_ffff,
            ;
            assert(((FX_ONE - vc) as int) * (self.height as int) >= 0) by (nonlinear_arith)
                requires 0 <= ((FX_ONE - vc) as int) && 0 <= (self.height as int);
            lemma_scaled_coord_in_range(uc as int, self.width as int);
            lemma_scaled_coord_in_range(FX_ONE as int - vc as int, self.height as int);
        }
        let x: usize = div_trunc_i128(uc as i128 * self.width as i128, FX_ONE as i128) as usize;
        let y: usize = div_trunc_i128(
            (FX_ONE as i128 - vc as i128) * self.height as i128,
            FX_ONE as i128,
        ) as usize;
        proof {
            assert((y as int) * (self.width as int) + (x as int)
                < (self.width as int) * (self.height as int)) by (nonlinear_arith)
                requires
                    x < self.width,
                    y < self.height,
            ;
            assert((y as int) * (self.width as int) >= 0) by (nonlinear_arith)
                requires y >= 0 && self.width >= 0;
        }
        let index: usize = y * self.width + x;
        self.data[index]
    }
}

} // verus!
