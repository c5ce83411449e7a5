//! Fixed-point homogeneous vectors and 4x4 matrices.
//!
//! Positions carry `w == FX_ONE`, directions `w == 0`. Every operation's
//! contract is the exact composition of the scalar operations of [`crate::fx`].

use vstd::prelude::*;
use crate::fx::{
    FX_ONE, fx_add, fx_sub, fx_neg, fx_mul, fx_div, fx_sqrt, is_floor_sqrt,
    spec_fx_add, spec_fx_sub, spec_fx_neg, spec_fx_mul, spec_fx_div,
};

verus! {

#[derive(Clone, Copy, PartialEq, Eq, Structural, Debug)]
pub struct Vec4 {
    pub x: i64,
    pub y: i64,
    pub z: i64,
    pub w: i64,
}

/// A homogeneous position or direction in the mesh and screen spaces.
pub type Vertex = Vec4;

/// A 4x4 matrix as four rows.
#[derive(Clone, Copy, PartialEq, Eq, Structural, Debug)]
pub struct Mat4 {
    pub r0: Vec4,
    pub r1: Vec4,
    pub r2: Vec4,
    pub r3: Vec4,
}

pub open spec fn spec_vec4_add(a: Vec4, b: Vec4) -> Vec4 {
    Vec4 {
        x: spec_fx_add(a.x as int, b.x as int) as i64,
        y: spec_fx_add(a.y as int, b.y as int) as i64,
        z: spec_fx_add(a.z as int, b.z as int) as i64,
        w: spec_fx_add(a.w as int, b.w as int) as i64,
    }
}

pub open spec fn spec_vec4_sub(a: Vec4, b: Vec4) -> Vec4 {
    Vec4 {
        x: spec_fx_sub(a.x as int, b.x as int) as i64,
        y: spec_fx_sub(a.y as int, b.y as int) as i64,
        z: spec_fx_sub(a.z as int, b.z as int) as i64,
        w: spec_fx_sub(a.w as int, b.w as int) as i64,
    }
}

pub open spec fn spec_vec4_neg(a: Vec4) -> Vec4 {
    Vec4 {
        x: spec_fx_neg(a.x as int) as i64,
        y: spec_fx_neg(a.y as int) as i64,
        z: spec_fx_neg(a.z as int) as i64,
        w: spec_fx_neg(a.w as int) as i64,
    }
}

pub open spec fn spec_vec4_scale(a: Vec4, s: int) -> Vec4 {
    Vec4 {
        x: spec_fx_mul(a.x as int, s) as i64,
        y: spec_fx_mul(a.y as int, s) as i64,
        z: spec_fx_mul(a.z as int, s) as i64,
        w: spec_fx_mul(a.w as int, s) as i64,
    }
}

/// Dot product of the spatial components.
pub open spec fn spec_dot3(a: Vec4, b: Vec4) -> int {
    spec_fx_add(
        spec_fx_add(
            spec_fx_mul(a.x as int, b.x as int),
            spec_fx_mul(a.y as int, b.y as int),
        ),
        spec_fx_mul(a.z as int, b.z as int),
    )
}

/// Dot product of all four components.
pub open spec fn spec_dot4(a: Vec4, b: Vec4) -> int {
    spec_fx_add(
        spec_fx_add(
            spec_fx_mul(a.x as int, b.x as int),
            spec_fx_mul(a.y as int, b.y as int),
        ),
        spec_fx_add(
            spec_fx_mul(a.z as int, b.z as int),
            spec_fx_mul(a.w as int, b.w as int),
        ),
    )
}

/// Cross product of the spatial components; the result is a direction.
pub open spec fn spec_cross3(a: Vec4, b: Vec4) -> Vec4 {
    Vec4 {
        x: spec_fx_sub(
            spec_fx_mul(a.y as int, b.z as int),
            spec_fx_mul(a.z as int, b.y as int),
        ) as i64,
        y: spec_fx_sub(
            spec_fx_mul(a.z as int, b.x as int),
            spec_fx_mul(a.x as int, b.z as int),
        ) as i64,
        z: spec_fx_sub(
            spec_fx_mul(a.x as int, b.y as int),
            spec_fx_mul(a.y as int, b.x as int),
        ) as i64,
        w: 0,
    }
}

/// The floor square root as a spec value: the unique `r` with
/// `r * r <= n < (r + 1) * (r + 1)`.
pub open spec fn spec_floor_sqrt(n: int) -> int {
    choose|r: int| is_floor_sqrt(n, r)
}

pub open spec fn spec_fx_sqrt(x: int) -> int {
    if x <= 0 {
        0
    } else {
        spec_floor_sqrt(x * FX_ONE as int)
    }
}

/// Two floor square roots of the same value coincide.
pub proof fn lemma_floor_sqrt_unique(n: int, r1: int, r2: int)
    requires
        is_floor_sqrt(n, r1),
        is_floor_sqrt(n, r2),
    ensures
        r1 == r2,
{
    if r1 < r2 {
        assert((r1 + 1) * (r1 + 1) <= r2 * r2) by (nonlinear_arith)
            requires 0 <= r1 && r1 < r2;
    }
    if r2 < r1 {
        assert((r2 + 1) * (r2 + 1) <= r1 * r1) by (nonlinear_arith)
            requires 0 <= r2 && r2 < r1;
    }
}

/// Fixed-point square root as an exec operation pinned to [`spec_fx_sqrt`].
pub fn fx_sqrt_val(x: i64) -> (r: i64)
    ensures
        r as int == spec_fx_sqrt(x as int),
{
    let r = fx_sqrt(x);
    proof {
        if x > 0 {
            let n = x as int * FX_ONE as int;
            assert(is_floor_sqrt(n, r as int));
            let c = spec_floor_sqrt(n);
            assert(is_floor_sqrt(n, c));
            lemma_floor_sqrt_unique(n, r as int, c);
        }
    }
    r
}

/// The length of the spatial part: the square root of the dot product with
/// itself.
pub open spec fn spec_magnitude3(v: Vec4) -> int {
    spec_fx_sqrt(spec_dot3(v, v))
}

/// Normalization of the spatial part; the zero direction stays zero and the
/// homogeneous component is kept.
pub open spec fn spec_normalize3(v: Vec4) -> Vec4 {
    let m = spec_magnitude3(v);
    if m == 0 {
        Vec4 { x: 0, y: 0, z: 0, w: v.w }
    } else {
        Vec4 {
            x: spec_fx_div(v.x as int, m) as i64,
            y: spec_fx_div(v.y as int, m) as i64,
            z: spec_fx_div(v.z as int, m) as i64,
            w: v.w,
        }
    }
}

pub open spec fn spec_mat_vec_mul(m: Mat4, v: Vec4) -> Vec4 {
    Vec4 {
        x: spec_dot4(m.r0, v) as i64,
        y: spec_dot4(m.r1, v) as i64,
        z: spec_dot4(m.r2, v) as i64,
        w: spec_dot4(m.r3, v) as i64,
    }
}

pub open spec fn spec_transpose(m: Mat4) -> Mat4 {
    Mat4 {
        r0: Vec4 { x: m.r0.x, y: m.r1.x, z: m.r2.x, w: m.r3.x },
        r1: Vec4 { x: m.r0.y, y: m.r1.y, z: m.r2.y, w: m.r3.y },
        r2: Vec4 { x: m.r0.z, y: m.r1.z, z: m.r2.z, w: m.r3.z },
        r3: Vec4 { x: m.r0.w, y: m.r1.w, z: m.r2.w, w: m.r3.w },
    }
}

/// Row-by-column matrix product.
pub open spec fn spec_mat_mul(a: Mat4, b: Mat4) -> Mat4 {
    let t = spec_transpose(b);
    Mat4 {
        r0: Vec4 {
            x: spec_dot4(a.r0, t.r0) as i64,
            y: spec_dot4(a.r0, t.r1) as i64,
            z: spec_dot4(a.r0, t.r2) as i64,
            w: spec_dot4(a.r0, t.r3) as i64,
        },
        r1: Vec4 {
            x: spec_dot4(a.r1, t.r0) as i64,
            y: spec_dot4(a.r1, t.r1) as i64,
            z: spec_dot4(a.r1, t.r2) as i64,
            w: spec_dot4(a.r1, t.r3) as i64,
        },
        r2: Vec4 {
            x: spec_dot4(a.r2, t.r0) as i64,
            y: spec_dot4(a.r2, t.r1) as i64,
            z: spec_dot4(a.r2, t.r2) as i64,
            w: spec_dot4(a.r2, t.r3) as i64,
        },
        r3: Vec4 {
            x: spec_dot4(a.r3, t.r0) as i64,
            y: spec_dot4(a.r3, t.r1) as i64,
            z: spec_dot4(a.r3, t.r2) as i64,
            w: spec_dot4(a.r3, t.r3) as i64,
        },
    }
}

/// The identity matrix.
pub open spec fn spec_mat_identity() -> Mat4 {
    Mat4 {
        r0: Vec4 { x: FX_ONE, y: 0, z: 0, w: 0 },
        r1: Vec4 { x: 0, y: FX_ONE, z: 0, w: 0 },
        r2: Vec4 { x: 0, y: 0, z: FX_ONE, w: 0 },
        r3: Vec4 { x: 0, y: 0, z: 0, w: FX_ONE },
    }
}

impl Vec4 {
    pub fn new(x: i64, y: i64, z: i64, w: i64) -> (r: Vec4)
        ensures
            r == (Vec4 { x, y, z, w }),
    {
        Vec4 { x, y, z, w }
    }

    pub fn zero() -> (r: Vec4)
        ensures
            r == (Vec4 { x: 0, y: 0, z: 0, w: 0 }),
    {
        Vec4 { x: 0, y: 0, z: 0, w: 0 }
    }

    pub fn add(self, o: Vec4) -> (r: Vec4)
        ensures
            r == spec_vec4_add(self, o),
    {
        Vec4 {
            x: fx_add(self.x, o.x),
            y: fx_add(self.y, o.y),
            z: fx_add(self.z, o.z),
            w: fx_add(self.w, o.w),
        }
    }

    pub fn sub(self, o: Vec4) -> (r: Vec4)
        ensures
            r == spec_vec4_sub(self, o),
    {
        Vec4 {
            x: fx_sub(self.x, o.x),
            y: fx_sub(self.y, o.y),
            z: fx_sub(self.z, o.z),
            w: fx_sub(self.w, o.w),
        }
    }

    pub fn neg(self) -> (r: Vec4)
        ensures
            r == spec_vec4_neg(self),
    {
        Vec4 { x: fx_neg(self.x), y: fx_neg(self.y), z: fx_neg(self.z), w: fx_neg(self.w) }
    }

    pub fn scale(self, s: i64) -> (r: Vec4)
        ensures
            r == spec_vec4_scale(self, s as int),
    {
        Vec4 {
            x: fx_mul(self.x, s),
            y: fx_mul(self.y, s),
            z: fx_mul(self.z, s),
            w: fx_mul(self.w, s),
        }
    }

    pub fn dot3(self, o: Vec4) -> (r: i64)
        ensures
            r as int == spec_dot3(self, o),
    {
        fx_add(fx_add(fx_mul(self.x, o.x), fx_mul(self.y, o.y)), fx_mul(self.z, o.z))
    }

    pub fn dot4(self, o: Vec4) -> (r: i64)
        ensures
            r as int == spec_dot4(self, o),
    {
        fx_add(
            fx_add(fx_mul(self.x, o.x), fx_mul(self.y, o.y)),
            fx_add(fx_mul(self.z, o.z), fx_mul(self.w, o.w)),
        )
    }

    pub fn cross3(self, o: Vec4) -> (r: Vec4)
        ensures
            r == spec_cross3(self, o),
    {
        Vec4 {
            x: fx_sub(fx_mul(self.y, o.z), fx_mul(self.z, o.y)),
            y: fx_sub(fx_mul(self.z, o.x), fx_mul(self.x, o.z)),
            z: fx_sub(fx_mul(self.x, o.y), fx_mul(self.y, o.x)),
            w: 0,
        }
    }

    pub fn magnitude3(self) -> (r: i64)
        ensures
            r as int == spec_magnitude3(self),
    {
        fx_sqrt_val(self.dot3(self))
    }

    pub fn normalize3(self) -> (r: Vec4)
        ensures
            r == spec_normalize3(self),
    {
        let m = self.magnitude3();
        if m == 0 {
            Vec4 { x: 0, y: 0, z: 0, w: self.w }
        } else {
            Vec4 {
                x: fx_div(self.x, m),
                y: fx_div(self.y, m),
                z: fx_div(self.z, m),
                w: self.w,
            }
        }
    }
}

impl Mat4 {
    pub fn identity() -> (r: Mat4)
        ensures
            r == spec_mat_identity(),
    {
        Mat4 {
            r0: Vec4 { x: FX_ONE, y: 0, z: 0, w: 0 },
            r1: Vec4 { x: 0, y: FX_ONE, z: 0, w: 0 },
            r2: Vec4 { x: 0, y: 0, z: FX_ONE, w: 0 },
            r3: Vec4 { x: 0, y: 0, z: 0, w: FX_ONE },
        }
    }

    pub fn transform(self, v: Vec4) -> (r: Vec4)
        ensures
            r == spec_mat_vec_mul(self, v),
    {
        Vec4 {
            x: self.r0.dot4(v),
            y: self.r1.dot4(v),
            z: self.r2.dot4(v),
            w: self.r3.dot4(v),
        }
    }

    pub fn transpose(self) -> (r: Mat4)
        ensures
            r == spec_transpose(self),
    {
        Mat4 {
            r0: Vec4 { x: self.r0.x, y: self.r1.x, z: self.r2.x, w: self.r3.x },
            r1: Vec4 { x: self.r0.y, y: self.r1.y, z: self.r2.y, w: self.r3.y },
            r2: Vec4 { x: self.r0.z, y: self.r1.z, z: self.r2.z, w: self.r3.z },
            r3: Vec4 { x: self.r0.w, y: self.r1.w, z: self.r2.w, w: self.r3.w },
        }
    }

    pub fn matmul(self, o: Mat4) -> (r: Mat4)
        ensures
            r == spec_mat_mul(self, o),
    {
        let t = o.transpose();
        Mat4 {
            r0: Vec4 {
                x: self.r0.dot4(t.r0),
                y: self.r0.dot4(t.r1),
                z: self.r0.dot4(t.r2),
                w: self.r0.dot4(t.r3),
            },
            r1: Vec4 {
                x: self.r1.dot4(t.r0),
                y: self.r1.dot4(t.r1),
                z: self.r1.dot4(t.r2),
                w: self.r1.dot4(t.r3),
            },
            r2: Vec4 {
                x: self.r2.dot4(t.r0),
                y: self.r2.dot4(t.r1),
                z: self.r2.dot4(t.r2),
                w: self.r2.dot4(t.r3),
            },
            r3: Vec4 {
                x: self.r3.dot4(t.r0),
                y: self.r3.dot4(t.r1),
                z: self.r3.dot4(t.r2),
                w: self.r3.dot4(t.r3),
            },
        }
    }
}

} // verus!
