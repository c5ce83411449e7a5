//! Scan conversion: a line rasterizer and the deferred geometry pass that
//! fills the shared depth and index buffers.
//!
//! The geometry pass's contract is the buffer discipline the shading pass
//! relies on: depths only ever get nearer, and a pixel's index entries change
//! exactly when its depth does, to the face and object being drawn.

use vstd::prelude::*;
use vstd::pervasive::VecAdditionalExecFns;
use crate::fx::{
    FX_ONE, fx_add, fx_div, fx_from_int, fx_round, fx_round_i32, fx_sub,
    spec_fx_add, spec_fx_div, spec_fx_from_int, spec_fx_mul, spec_fx_round,
    spec_fx_round_i32, spec_fx_sub,
};
use crate::linalg::Vec4;
use crate::types::{Color, Face, Pixel};

verus! {

/// Row-major position of a pixel.
pub fn get_index(y: u32, x: u32, width: u32) -> (r: usize)
    requires
        y as int * width as int + x as int <= usize::MAX as int,
    ensures
        r as int == y as int * width as int + x as int,
{
    proof {
        assert((y as int) * (width as int) >= 0) by (nonlinear_arith)
            requires y >= 0 && width >= 0;
    }
    (y as usize) * (width as usize) + (x as usize)
}

/// Bresenham line drawing, clipped to the pixel rectangle. Every pixel
/// either keeps its old value or holds the line's color; nothing else is
/// promised of which pixels lie on the line.
pub fn draw_line<T: Copy>(
    pixels: &mut Vec<T>,
    width: u32,
    height: u32,
    x0: i32,
    y0: i32,
    x1: i32,
    y1: i32,
    color: &T,
)
    requires
        old(pixels).len() == width as int * height as int,
    ensures
        final(pixels).len() == old(pixels).len(),
        forall|i: int| 0 <= i < final(pixels).len()
            ==> final(pixels)@[i] == old(pixels)@[i] || final(pixels)@[i] == *color,
{
    let mut w: u32 = width;
    let mut h: u32 = height;
    let mut ax0: i64 = x0 as i64;
    let mut ay0: i64 = y0 as i64;
    let mut ax1: i64 = x1 as i64;
    let mut ay1: i64 = y1 as i64;

    let adx: i64 = if ax0 - ax1 >= 0 { ax0 - ax1 } else { ax1 - ax0 };
    let ady: i64 = if ay0 - ay1 >= 0 { ay0 - ay1 } else { ay1 - ay0 };
    let steep: bool = adx < ady;
    if steep {
        let t = ax0;
        ax0 = ay0;
        ay0 = t;
        let t = ax1;
        ax1 = ay1;
        ay1 = t;
        let t = w;
        w = h;
        h = t;
    }
    if ax0 > ax1 {
        let t = ax0;
        ax0 = ax1;
        ax1 = t;
        let t = ay0;
        ay0 = ay1;
        ay1 = t;
    }

    let dx: i64 = ax1 - ax0;
    let dy: i64 = ay1 - ay0;
    let direction: i64 = if ay1 > ay0 { 1 } else { -1 };
    let derror2: i64 = if dy >= 0 { dy * 2 } else { -dy * 2 };
    let mut error2: i64 = 0;

    let mut y: i64 = ay0;
    let mut x: i64 = ax0;
    while x <= ax1
        invariant
            pixels.len() == width as int * height as int,
            w as int * h as int == width as int * height as int,
            forall|i: int| 0 <= i < pixels.len()
                ==> pixels@[i] == old(pixels)@[i] || pixels@[i] == *color,
            ax0 <= x,
            x <= ax1 + 1,
            -0x8000_0000 <= ax0 && ax1 <= 0x8000_0000,
            -0x8000_0000 <= ay0 && ay0 <= 0x8000_0000,
            ay0 - (x - ax0) <= y && y <= ay0 + (x - ax0),
            0 <= dx <= 0x1_0000_0000,
            dx == ax1 - ax0,
            0 <= derror2 <= 2 * dx,
            -dx <= error2 <= dx,
            direction == 1 || direction == -1,
        decreases ax1 + 1 - x,
    {
        if x >= 0 && x < w as i64 && y >= 0 && y < h as i64 {
            let index: usize;
            if steep {
                proof {
                    assert((x as int) * (h as int) + y < (h as int) * (w as int))
                        by (nonlinear_arith)
                        requires 0 <= x < w as int && 0 <= y < h as int;
                    assert((x as int) * (h as int) >= 0) by (nonlinear_arith)
                        requires x >= 0 && h as int >= 0;
                    assert((h as int) * (w as int) == (w as int) * (h as int))
                        by (nonlinear_arith);
                }
                index = (x as usize) * (h as usize) + (y as usize);
            } else {
                proof {
                    assert((y as int) * (w as int) + x < (w as int) * (h as int))
                        by (nonlinear_arith)
                        requires 0 <= y < h as int && 0 <= x < w as int;
                    assert((y as int) * (w as int) >= 0) by (nonlinear_arith)
                        requires y >= 0 && w as int >= 0;
                }
                index = (y as usize) * (w as usize) + (x as usize);
            }
            pixels.set(index, *color);
        }

        error2 = error2 + derror2;
        if error2 > dx {
            y = y + direction;
            error2 = error2 - dx * 2;
        }
        x = x + 1;
    }
}

/// The front-facing test: the sign of the 2D cross product of the projected
/// edges, negative in the screen's y-flipped basis.
pub open spec fn spec_is_front_facing(v1: Vec4, v2: Vec4, v3: Vec4) -> bool {
    spec_fx_sub(
        spec_fx_mul(
            spec_fx_sub(v2.x as int, v1.x as int),
            spec_fx_sub(v3.y as int, v1.y as int),
        ),
        spec_fx_mul(
            spec_fx_sub(v3.x as int, v1.x as int),
            spec_fx_sub(v2.y as int, v1.y as int),
        ),
    ) < 0
}

pub fn is_faced_towards_viewer(v1: &Vec4, v2: &Vec4, v3: &Vec4) -> (r: bool)
    ensures
        r == spec_is_front_facing(*v1, *v2, *v3),
{
    let c = fx_sub(
        crate::fx::fx_mul(fx_sub(v2.x, v1.x), fx_sub(v3.y, v1.y)),
        crate::fx::fx_mul(fx_sub(v3.x, v1.x), fx_sub(v2.y, v1.y)),
    );
    c < 0
}

/// The view-box test: the coordinate lies strictly inside the box spanned by
/// the two corners.
pub open spec fn spec_in_view_box(v: Vec4, cube_min: Vec4, cube_max: Vec4) -> bool {
    &&& v.x > cube_min.x && v.x < cube_max.x
    &&& v.y > cube_min.y && v.y < cube_max.y
    &&& v.z > cube_min.z && v.z < cube_max.z
}

pub fn check_vertex_in_view_box(v: &Vec4, cube_min: &Vec4, cube_max: &Vec4) -> (r: bool)
    ensures
        r == spec_in_view_box(*v, *cube_min, *cube_max),
{
    v.x > cube_min.x && v.x < cube_max.x && v.y > cube_min.y && v.y < cube_max.y && v.z
        > cube_min.z && v.z < cube_max.z
}

/// The geometry pass's buffer discipline, relating the buffers after a call
/// to the buffers before it: lengths are kept, no depth moves away, and a
/// pixel's entries either all stand as they were or its depth got strictly
/// nearer and its index entries name exactly the face and object drawn.
pub open spec fn depth_buffers_evolve(
    z0: Seq<i64>, f0: Seq<i32>, o0: Seq<i32>,
    z1: Seq<i64>, f1: Seq<i32>, o1: Seq<i32>,
    face_index: int, object_index: int,
) -> bool {
    &&& z1.len() == z0.len()
    &&& f1.len() == f0.len()
    &&& o1.len() == o0.len()
    &&& forall|i: int| 0 <= i < z0.len() ==> #[trigger] z1[i] <= z0[i]
    &&& forall|i: int| 0 <= i < z0.len() && i < f0.len() && i < o0.len()
        ==> ((#[trigger] z1[i]) == z0[i] && f1[i] == f0[i] && o1[i] == o0[i])
            || (z1[i] < z0[i] && f1[i] == face_index && o1[i] == object_index)
}

/// The walking state of the scan fill: the three buffers plus the two edge
/// x positions and depths that advance per row.
pub struct FillState {
    pub z: Seq<i64>,
    pub f: Seq<i32>,
    pub o: Seq<i32>,
    pub wx1: int,
    pub wx2: int,
    pub wz1: int,
    pub wz2: int,
}

/// The cells of one scanline from column `j` through `jb`: each in-rectangle
/// column whose stepped depth is nearer than the stored one is claimed, and
/// the depth steps by `dz` either way.
pub open spec fn spec_scan_cells(
    z: Seq<i64>, f: Seq<i32>, o: Seq<i32>,
    width: int, i: int, j: int, jb: int, z_j: int, dz: int, fi: int, oi: int,
) -> (Seq<i64>, Seq<i32>, Seq<i32>)
    decreases jb + 1 - j,
{
    if j > jb {
        (z, f, o)
    } else {
        let idx = i * width + j;
        let write = 0 <= j < width && z_j < z[idx];
        let z1 = if write { z.update(idx, z_j as i64) } else { z };
        let f1 = if write { f.update(idx, fi as i32) } else { f };
        let o1 = if write { o.update(idx, oi as i32) } else { o };
        spec_scan_cells(z1, f1, o1, width, i, j + 1, jb, spec_fx_add(z_j, dz), dz, fi, oi)
    }
}

/// One scanline: columns run between the rounded edge x positions, and the
/// depth starts at the left edge's and steps by the edge-to-edge slope.
pub open spec fn spec_scan_row_bufs(
    z: Seq<i64>, f: Seq<i32>, o: Seq<i32>,
    width: int, i: int, wx1: int, wx2: int, wz1: int, wz2: int, fi: int, oi: int,
) -> (Seq<i64>, Seq<i32>, Seq<i32>) {
    let ja = spec_fx_round(wx1);
    let jb = spec_fx_round(wx2);
    let dz = spec_fx_div(spec_fx_sub(wz2, wz1), spec_fx_from_int(jb - ja + 1));
    spec_scan_cells(z, f, o, width, i, ja, jb, wz1, dz, fi, oi)
}

/// Rows `i` through `iend`: each row inside the image is scanned, and the
/// edge x positions and depths advance linearly between rows.
pub open spec fn spec_fill_rows(
    s: FillState, width: int, height: int, i: int, iend: int,
    dxa: int, dxb: int, dza: int, dzb: int, fi: int, oi: int,
) -> FillState
    decreases iend - i,
{
    if i >= iend {
        s
    } else {
        let row = if 0 <= i < height {
            spec_scan_row_bufs(s.z, s.f, s.o, width, i, s.wx1, s.wx2, s.wz1, s.wz2, fi, oi)
        } else {
            (s.z, s.f, s.o)
        };
        spec_fill_rows(
            FillState {
                z: row.0,
                f: row.1,
                o: row.2,
                wx1: spec_fx_add(s.wx1, dxa),
                wx2: spec_fx_add(s.wx2, dxb),
                wz1: spec_fx_add(s.wz1, dza),
                wz2: spec_fx_add(s.wz2, dzb),
            },
            width, height, i + 1, iend, dxa, dxb, dza, dzb, fi, oi,
        )
    }
}

/// The whole flat-split fill of one triangle, exactly as the exec code
/// performs it: vertices sorted by ascending y, coordinates rounded, edge
/// slopes taken between the rounded vertices, the upper rows filled from the
/// top vertex, the walking state reset when the top edge is flat, and the
/// lower rows filled to the bottom vertex.
pub open spec fn spec_draw_face(
    z: Seq<i64>, f: Seq<i32>, o: Seq<i32>,
    width: int, height: int,
    v1in: Vec4, v2in: Vec4, v3in: Vec4,
    fi: int, oi: int,
) -> (Seq<i64>, Seq<i32>, Seq<i32>) {
    let (p1, p2) = if v2in.y < v1in.y { (v2in, v1in) } else { (v1in, v2in) };
    let (q1, q3) = if v3in.y < p1.y { (v3in, p1) } else { (p1, v3in) };
    let (r2, r3) = if q3.y < p2.y { (q3, p2) } else { (p2, q3) };
    let x1 = spec_fx_from_int(spec_fx_round(q1.x as int));
    let y1 = spec_fx_from_int(spec_fx_round(q1.y as int));
    let z1 = q1.z as int;
    let x2 = spec_fx_from_int(spec_fx_round(r2.x as int));
    let y2 = spec_fx_from_int(spec_fx_round(r2.y as int));
    let z2 = r2.z as int;
    let x3 = spec_fx_from_int(spec_fx_round(r3.x as int));
    let y3 = spec_fx_from_int(spec_fx_round(r3.y as int));
    let z3 = r3.z as int;
    let dx13 = if y1 != y3 { spec_fx_div(spec_fx_sub(x3, x1), spec_fx_sub(y3, y1)) } else { 0 };
    let dx12 = if y1 != y2 { spec_fx_div(spec_fx_sub(x2, x1), spec_fx_sub(y2, y1)) } else { 0 };
    let dx23 = if y2 != y3 { spec_fx_div(spec_fx_sub(x3, x2), spec_fx_sub(y3, y2)) } else { 0 };
    let dz13 = if y1 != y3 { spec_fx_div(spec_fx_sub(z3, z1), spec_fx_sub(y3, y1)) } else { 0 };
    let dz12 = if y1 != y2 { spec_fx_div(spec_fx_sub(z2, z1), spec_fx_sub(y2, y1)) } else { 0 };
    let dz23 = if y2 != y3 { spec_fx_div(spec_fx_sub(z3, z2), spec_fx_sub(y3, y2)) } else { 0 };
    let upper = if dx13 > dx12 {
        (dx12, dx13, dz12, dz13)
    } else {
        (dx13, dx12, dz13, dz12)
    };
    let y1i = spec_fx_round_i32(q1.y as int);
    let y2i = spec_fx_round_i32(r2.y as int);
    let y3i = spec_fx_round_i32(r3.y as int);
    let s0 = (FillState { z, f, o, wx1: x1, wx2: x1, wz1: z1, wz2: z1 });
    let s1 = spec_fill_rows(
        s0, width, height, y1i, y2i, upper.0, upper.1, upper.2, upper.3, fi, oi,
    );
    let s2 = if y1i == y2i {
        if x1 < x2 {
            (FillState { wx1: x1, wx2: x2, wz1: z1, wz2: z2, ..s1 })
        } else {
            (FillState { wx1: x2, wx2: x1, wz1: z2, wz2: z1, ..s1 })
        }
    } else {
        s1
    };
    let lower = if dx13 < dx23 {
        (dx23, dx13, dz23, dz13)
    } else {
        (dx13, dx23, dz13, dz23)
    };
    let s3 = spec_fill_rows(
        s2, width, height, y2i, y3i, lower.0, lower.1, lower.2, lower.3, fi, oi,
    );
    (s3.z, s3.f, s3.o)
}

/// Scan-fills one screen-space triangle into the depth and index buffers:
/// vertices sorted by ascending y, split at the middle vertex, edge x and
/// depth advanced linearly per scanline, and a depth test guarding every
/// write. Every candidate pixel is checked against the rectangle, whether or
/// not the triangle is partly out of view. The buffers come out exactly as
/// [`spec_draw_face`] says, and obey the depth discipline of
/// [`depth_buffers_evolve`].
#[verifier::rlimit(100)]
#[verifier::spinoff_prover]
pub fn draw_face_on_buffer(
    width: i32,
    height: i32,
    z_buf: &mut Vec<i64>,
    face_index_buffer: &mut Vec<i32>,
    face_index: usize,
    object_index_buffer: &mut Vec<i32>,
    object_index: usize,
    v1in: &Vec4,
    v2in: &Vec4,
    v3in: &Vec4,
)
    requires
        width >= 0,
        height >= 0,
        old(z_buf).len() == width as int * height as int,
        old(face_index_buffer).len() == old(z_buf).len(),
        old(object_index_buffer).len() == old(z_buf).len(),
        face_index <= i32::MAX as int,
        object_index <= i32::MAX as int,
    ensures
        depth_buffers_evolve(
            old(z_buf)@, old(face_index_buffer)@, old(object_index_buffer)@,
            final(z_buf)@, final(face_index_buffer)@, final(object_index_buffer)@,
            face_index as int, object_index as int,
        ),
        (final(z_buf)@, final(face_index_buffer)@, final(object_index_buffer)@)
            == spec_draw_face(
            old(z_buf)@, old(face_index_buffer)@, old(object_index_buffer)@,
            width as int, height as int,
            *v1in, *v2in, *v3in,
            face_index as int, object_index as int,
        ),
{
    let mut v1: Vec4 = *v1in;
    let mut v2: Vec4 = *v2in;
    let mut v3: Vec4 = *v3in;

    // sort on y
    if v2.y < v1.y {
        let t = v2;
        v2 = v1;
        v1 = t;
    }
    if v3.y < v1.y {
        let t = v3;
        v3 = v1;
        v1 = t;
    }
    if v3.y < v2.y {
        let t = v3;
        v3 = v2;
        v2 = t;
    }

    let x1: i64 = fx_from_int(fx_round(v1.x));
    let y1: i64 = fx_from_int(fx_round(v1.y));
    let z1: i64 = v1.z;

    let x2: i64 = fx_from_int(fx_round(v2.x));
    let y2: i64 = fx_from_int(fx_round(v2.y));
    let z2: i64 = v2.z;

    let x3: i64 = fx_from_int(fx_round(v3.x));
    let y3: i64 = fx_from_int(fx_round(v3.y));
    let z3: i64 = v3.z;

    let mut dx13: i64 = if y1 != y3 { fx_div(fx_sub(x3, x1), fx_sub(y3, y1)) } else { 0 };
    let mut dx13b: i64 = dx13;
    let mut dx12: i64 = if y1 != y2 { fx_div(fx_sub(x2, x1), fx_sub(y2, y1)) } else { 0 };
    let mut dx23: i64 = if y2 != y3 { fx_div(fx_sub(x3, x2), fx_sub(y3, y2)) } else { 0 };

    let mut dz13: i64 = if y1 != y3 { fx_div(fx_sub(z3, z1), fx_sub(y3, y1)) } else { 0 };
    let mut dz13b: i64 = dz13;
    let mut dz12: i64 = if y1 != y2 { fx_div(fx_sub(z2, z1), fx_sub(y2, y1)) } else { 0 };
    let mut dz23: i64 = if y2 != y3 { fx_div(fx_sub(z3, z2), fx_sub(y3, y2)) } else { 0 };

    let mut wx1: i64 = x1;
    let mut wx2: i64 = x1;
    let mut wz1: i64 = z1;
    let mut wz2: i64 = z1;

    if dx13 > dx12 {
        let t = dx13;
        dx13 = dx12;
        dx12 = t;
        let t = dz13;
        dz13 = dz12;
        dz12 = t;
    }

    let y1i: i32 = fx_round_i32(v1.y);
    let y2i: i32 = fx_round_i32(v2.y);
    let y3i: i32 = fx_round_i32(v3.y);

    let ghost gz0 = z_buf@;
    let ghost gf0 = face_index_buffer@;
    let ghost go0 = object_index_buffer@;
    let ghost s0 = (FillState {
        z: gz0,
        f: gf0,
        o: go0,
        wx1: x1 as int,
        wx2: x1 as int,
        wz1: z1 as int,
        wz2: z1 as int,
    });

    let mut i: i32 = y1i;
    while i < y2i
        invariant
            width >= 0,
            height >= 0,
            z_buf.len() == width as int * height as int,
            face_index_buffer.len() == z_buf.len(),
            object_index_buffer.len() == z_buf.len(),
            face_index <= i32::MAX as int,
            object_index <= i32::MAX as int,
            depth_buffers_evolve(
                gz0, gf0, go0,
                z_buf@, face_index_buffer@, object_index_buffer@,
                face_index as int, object_index as int,
            ),
            spec_fill_rows(
                s0, width as int, height as int, y1i as int, y2i as int,
                dx13 as int, dx12 as int, dz13 as int, dz12 as int,
                face_index as int, object_index as int,
            ) == spec_fill_rows(
                (FillState {
                    z: z_buf@,
                    f: face_index_buffer@,
                    o: object_index_buffer@,
                    wx1: wx1 as int,
                    wx2: wx2 as int,
                    wz1: wz1 as int,
                    wz2: wz2 as int,
                }),
                width as int, height as int, i as int, y2i as int,
                dx13 as int, dx12 as int, dz13 as int, dz12 as int,
                face_index as int, object_index as int,
            ),
        decreases y2i - i,
    {
        if i >= 0 && i < height {
            scan_row(
                width, height, i,
                z_buf, face_index_buffer, face_index, object_index_buffer, object_index,
                wx1, wx2, wz1, wz2,
                Ghost(gz0), Ghost(gf0), Ghost(go0),
            );
        }
        wx1 = fx_add(wx1, dx13);
        wx2 = fx_add(wx2, dx12);
        wz1 = fx_add(wz1, dz13);
        wz2 = fx_add(wz2, dz12);
        i = i + 1;
    }

    let ghost s1 = spec_fill_rows(
        s0, width as int, height as int, y1i as int, y2i as int,
        dx13 as int, dx12 as int, dz13 as int, dz12 as int,
        face_index as int, object_index as int,
    );
    proof {
        assert(s1 == (FillState {
            z: z_buf@,
            f: face_index_buffer@,
            o: object_index_buffer@,
            wx1: wx1 as int,
            wx2: wx2 as int,
            wz1: wz1 as int,
            wz2: wz2 as int,
        }));
    }

    if y1i == y2i {
        if x1 < x2 {
            wx1 = x1;
            wx2 = x2;
            wz1 = z1;
            wz2 = z2;
        } else {
            wx1 = x2;
            wx2 = x1;
            wz1 = z2;
            wz2 = z1;
        }
    }

    if dx13b < dx23 {
        let t = dx13b;
        dx13b = dx23;
        dx23 = t;
        let t = dz13b;
        dz13b = dz23;
        dz23 = t;
    }

    let ghost s2 = (FillState {
        z: z_buf@,
        f: face_index_buffer@,
        o: object_index_buffer@,
        wx1: wx1 as int,
        wx2: wx2 as int,
        wz1: wz1 as int,
        wz2: wz2 as int,
    });

    let mut i: i32 = y2i;
    while i < y3i
        invariant
            width >= 0,
            height >= 0,
            z_buf.len() == width as int * height as int,
            face_index_buffer.len() == z_buf.len(),
            object_index_buffer.len() == z_buf.len(),
            face_index <= i32::MAX as int,
            object_index <= i32::MAX as int,
            depth_buffers_evolve(
                gz0, gf0, go0,
                z_buf@, face_index_buffer@, object_index_buffer@,
                face_index as int, object_index as int,
            ),
            spec_fill_rows(
                s2, width as int, height as int, y2i as int, y3i as int,
                dx13b as int, dx23 as int, dz13b as int, dz23 as int,
                face_index as int, object_index as int,
            ) == spec_fill_rows(
                (FillState {
                    z: z_buf@,
                    f: face_index_buffer@,
                    o: object_index_buffer@,
                    wx1: wx1 as int,
                    wx2: wx2 as int,
                    wz1: wz1 as int,
                    wz2: wz2 as int,
                }),
                width as int, height as int, i as int, y3i as int,
                dx13b as int, dx23 as int, dz13b as int, dz23 as int,
                face_index as int, object_index as int,
            ),
        decreases y3i - i,
    {
        if i >= 0 && i < height {
            scan_row(
                width, height, i,
                z_buf, face_index_buffer, face_index, object_index_buffer, object_index,
                wx1, wx2, wz1, wz2,
                Ghost(gz0), Ghost(gf0), Ghost(go0),
            );
        }
        wx1 = fx_add(wx1, dx13b);
        wx2 = fx_add(wx2, dx23);
        wz1 = fx_add(wz1, dz13b);
        wz2 = fx_add(wz2, dz23);
        i = i + 1;
    }

    proof {
        let s3 = spec_fill_rows(
            s2, width as int, height as int, y2i as int, y3i as int,
            dx13b as int, dx23 as int, dz13b as int, dz23 as int,
            face_index as int, object_index as int,
        );
        assert(s3 == (FillState {
            z: z_buf@,
            f: face_index_buffer@,
            o: object_index_buffer@,
            wx1: wx1 as int,
            wx2: wx2 as int,
            wz1: wz1 as int,
            wz2: wz2 as int,
        }));
        assert((z_buf@, face_index_buffer@, object_index_buffer@) == spec_draw_face(
            gz0, gf0, go0,
            width as int, height as int,
            *v1in, *v2in, *v3in,
            face_index as int, object_index as int,
        ));
    }
}

/// One scanline of the fill: depth is advanced linearly from the left edge,
/// and each in-bounds pixel is depth-tested and conditionally claimed.
fn scan_row(
    width: i32,
    height: i32,
    i: i32,
    z_buf: &mut Vec<i64>,
    face_index_buffer: &mut Vec<i32>,
    face_index: usize,
    object_index_buffer: &mut Vec<i32>,
    object_index: usize,
    wx1: i64,
    wx2: i64,
    wz1: i64,
    wz2: i64,
    Ghost(gz0): Ghost<Seq<i64>>,
    Ghost(gf0): Ghost<Seq<i32>>,
    Ghost(go0): Ghost<Seq<i32>>,
)
    requires
        width >= 0,
        height >= 0,
        0 <= i < height,
        old(z_buf).len() == width as int * height as int,
        old(face_index_buffer).len() == old(z_buf).len(),
        old(object_index_buffer).len() == old(z_buf).len(),
        face_index <= i32::MAX as int,
        object_index <= i32::MAX as int,
        depth_buffers_evolve(
            gz0, gf0, go0,
            old(z_buf)@, old(face_index_buffer)@, old(object_index_buffer)@,
            face_index as int, object_index as int,
        ),
    ensures
        final(z_buf).len() == old(z_buf).len(),
        final(face_index_buffer).len() == old(face_index_buffer).len(),
        final(object_index_buffer).len() == old(object_index_buffer).len(),
        depth_buffers_evolve(
            gz0, gf0, go0,
            final(z_buf)@, final(face_index_buffer)@, final(object_index_buffer)@,
            face_index as int, object_index as int,
        ),
        (final(z_buf)@, final(face_index_buffer)@, final(object_index_buffer)@)
            == spec_scan_row_bufs(
            old(z_buf)@, old(face_index_buffer)@, old(object_index_buffer)@,
            width as int, i as int,
            wx1 as int, wx2 as int, wz1 as int, wz2 as int,
            face_index as int, object_index as int,
        ),
{
    let ghost bz0 = z_buf@;
    let ghost bf0 = face_index_buffer@;
    let ghost bo0 = object_index_buffer@;
    let ja: i64 = fx_round(wx1);
    let jb: i64 = fx_round(wx2);
    proof {
        crate::fx::lemma_fx_round_bound(wx1 as int);
        crate::fx::lemma_fx_round_bound(wx2 as int);
    }
    let dz_k: i64 = fx_div(fx_sub(wz2, wz1), fx_from_int(jb - ja + 1));
    let mut z_j: i64 = wz1;
    let mut j: i64 = ja;
    while j <= jb
        invariant
            width >= 0,
            height >= 0,
            0 <= i < height,
            z_buf.len() == width as int * height as int,
            face_index_buffer.len() == z_buf.len(),
            object_index_buffer.len() == z_buf.len(),
            face_index <= i32::MAX as int,
            object_index <= i32::MAX as int,
            jb <= 0x1_0000_0000_0000,
            depth_buffers_evolve(
                gz0, gf0, go0,
                z_buf@, face_index_buffer@, object_index_buffer@,
                face_index as int, object_index as int,
            ),
            spec_scan_cells(
                bz0, bf0, bo0, width as int, i as int, ja as int, jb as int,
                wz1 as int, dz_k as int, face_index as int, object_index as int,
            ) == spec_scan_cells(
                z_buf@, face_index_buffer@, object_index_buffer@,
                width as int, i as int, j as int, jb as int,
                z_j as int, dz_k as int, face_index as int, object_index as int,
            ),
        decreases jb + 1 - j,
    {
        if j >= 0 && j < width as i64 {
            proof {
                assert((i as int) * (width as int) + j < (width as int) * (height as int))
                    by (nonlinear_arith)
                    requires 0 <= i < height as int && 0 <= j < width as int;
                assert((i as int) * (width as int) >= 0) by (nonlinear_arith)
                    requires i >= 0 && width as int >= 0;
            }
            let index: usize = (i as usize) * (width as usize) + (j as usize);
            if z_j < z_buf[index] {
                z_buf.set(index, z_j);
                face_index_buffer.set(index, face_index as i32);
                object_index_buffer.set(index, object_index as i32);
            }
        }
        z_j = fx_add(z_j, dz_k);
        j = j + 1;
    }
}


/// A homogeneous vertex as a spatial point: every component over `w`.
pub open spec fn spec_from_homogeneous(v: Vec4) -> Vec4 {
    Vec4 {
        x: crate::fx::spec_fx_div(v.x as int, v.w as int) as i64,
        y: crate::fx::spec_fx_div(v.y as int, v.w as int) as i64,
        z: crate::fx::spec_fx_div(v.z as int, v.w as int) as i64,
        w: 0,
    }
}

fn from_homogeneous(v: &Vec4) -> (r: Vec4)
    ensures
        r == spec_from_homogeneous(*v),
{
    Vec4 { x: fx_div(v.x, v.w), y: fx_div(v.y, v.w), z: fx_div(v.z, v.w), w: 0 }
}

/// Flat diffuse shading of one point inside a triangle: normalized
/// barycentric weights from cross-product ratios blend the vertex normals,
/// and the flat color is scaled by the blended normal's alignment against
/// the light.
pub open spec fn spec_find_color_in_point(
    point: Vec4,
    v1: Vec4, v2: Vec4, v3: Vec4,
    vn1: Vec4, vn2: Vec4, vn3: Vec4,
    light: Vec4,
    color: Pixel,
) -> Pixel {
    let p1 = spec_from_homogeneous(v1);
    let p2 = spec_from_homogeneous(v2);
    let p3 = spec_from_homogeneous(v3);
    let p = spec_from_homogeneous(point);
    let v12 = crate::linalg::spec_vec4_sub(p2, p1);
    let v23 = crate::linalg::spec_vec4_sub(p3, p2);
    let v31 = crate::linalg::spec_vec4_sub(p1, p3);
    let v13 = crate::linalg::spec_vec4_sub(p3, p1);
    let n = crate::linalg::spec_cross3(v12, v13);
    let denom = crate::linalg::spec_dot3(n, n);
    let v1p = crate::linalg::spec_vec4_sub(p, p1);
    let v2p = crate::linalg::spec_vec4_sub(p, p2);
    let v3p = crate::linalg::spec_vec4_sub(p, p3);
    let w = crate::fx::spec_fx_div(
        crate::linalg::spec_dot3(crate::linalg::spec_cross3(v12, v1p), n),
        denom,
    );
    let u = crate::fx::spec_fx_div(
        crate::linalg::spec_dot3(crate::linalg::spec_cross3(v23, v2p), n),
        denom,
    );
    let v = crate::fx::spec_fx_div(
        crate::linalg::spec_dot3(crate::linalg::spec_cross3(v31, v3p), n),
        denom,
    );
    let normal = crate::linalg::spec_vec4_add(
        crate::linalg::spec_vec4_add(
            crate::linalg::spec_vec4_scale(vn1, u),
            crate::linalg::spec_vec4_scale(vn2, v),
        ),
        crate::linalg::spec_vec4_scale(vn3, w),
    );
    let cos = crate::linalg::spec_dot3(normal, crate::linalg::spec_vec4_neg(light));
    Pixel {
        color: crate::types::spec_color_to_u8(
            Color {
                r: crate::fx::spec_fx_mul(
                    crate::fx::spec_fx_from_int(color.color.r as int),
                    cos,
                ) as i64,
                g: crate::fx::spec_fx_mul(
                    crate::fx::spec_fx_from_int(color.color.g as int),
                    cos,
                ) as i64,
                b: crate::fx::spec_fx_mul(
                    crate::fx::spec_fx_from_int(color.color.b as int),
                    cos,
                ) as i64,
            },
        ),
        a: color.a,
    }
}

pub fn find_color_in_point(
    point: &Vec4,
    v1: &Vec4, v2: &Vec4, v3: &Vec4,
    vn1: &Vec4, vn2: &Vec4, vn3: &Vec4,
    direct_light_direction: &Vec4,
    color: &Pixel,
) -> (r: Pixel)
    ensures
        r == spec_find_color_in_point(
            *point, *v1, *v2, *v3, *vn1, *vn2, *vn3, *direct_light_direction, *color,
        ),
{
    let p1 = from_homogeneous(v1);
    let p2 = from_homogeneous(v2);
    let p3 = from_homogeneous(v3);
    let p = from_homogeneous(point);
    let v12 = p2.sub(p1);
    let v23 = p3.sub(p2);
    let v31 = p1.sub(p3);
    let v13 = p3.sub(p1);
    let n = v12.cross3(v13);
    let denom = n.dot3(n);
    let v1p = p.sub(p1);
    let v2p = p.sub(p2);
    let v3p = p.sub(p3);
    let w = fx_div(v12.cross3(v1p).dot3(n), denom);
    let u = fx_div(v23.cross3(v2p).dot3(n), denom);
    let v = fx_div(v31.cross3(v3p).dot3(n), denom);
    let normal = vn1.scale(u).add(vn2.scale(v)).add(vn3.scale(w));
    let cos = normal.dot3(direct_light_direction.neg());
    let scaled = Color {
        r: crate::fx::fx_mul(fx_from_int(color.color.r as i64), cos),
        g: crate::fx::fx_mul(fx_from_int(color.color.g as i64), cos),
        b: crate::fx::fx_mul(fx_from_int(color.color.b as i64), cos),
    };
    Pixel { color: scaled.to_u8(), a: color.a }
}

/// Outlines a fully visible face by drawing its three edges; a partly
/// visible face is left alone. Pixels keep their value or take the line
/// color.
pub fn draw_sides_of_face(
    pixels: &mut Vec<Pixel>,
    width: u32,
    height: u32,
    vertices: &Vec<Vec4>,
    face: &Face,
    is_partial: bool,
    line_color: &Pixel,
)
    requires
        old(pixels).len() == width as int * height as int,
        face.vertices_indexes.i0 < vertices.len(),
        face.vertices_indexes.i1 < vertices.len(),
        face.vertices_indexes.i2 < vertices.len(),
    ensures
        final(pixels).len() == old(pixels).len(),
        forall|i: int| 0 <= i < final(pixels).len()
            ==> final(pixels)@[i] == old(pixels)@[i] || final(pixels)@[i] == *line_color,
        is_partial ==> final(pixels)@ == old(pixels)@,
{
    if is_partial {
        return ;
    }
    let v1 = vertices[face.vertices_indexes.i0];
    let v2 = vertices[face.vertices_indexes.i1];
    let v3 = vertices[face.vertices_indexes.i2];
    let x1 = fx_round_i32(v1.x);
    let y1 = fx_round_i32(v1.y);
    let x2 = fx_round_i32(v2.x);
    let y2 = fx_round_i32(v2.y);
    let x3 = fx_round_i32(v3.x);
    let y3 = fx_round_i32(v3.y);
    draw_line(pixels, width, height, x1, y1, x2, y2, line_color);
    draw_line(pixels, width, height, x1, y1, x3, y3, line_color);
    draw_line(pixels, width, height, x2, y2, x3, y3, line_color);
}

/// What one single-pass fill call may leave at a pixel: everything as it
/// was, or a claim — possible only where the depth entry was the empty mark
/// (zero) or moved strictly nearer.
pub open spec fn phong_buffers_evolve(
    z0: Seq<i64>, p0: Seq<Pixel>, z1: Seq<i64>, p1: Seq<Pixel>,
) -> bool {
    &&& z1.len() == z0.len()
    &&& p1.len() == p0.len()
    &&& forall|i: int| 0 <= i < z0.len() && i < p0.len()
        ==> ((#[trigger] z1[i]) == z0[i] && p1[i] == p0[i]) || z0[i] == 0 || z1[i] < z0[i]
}

/// Instantiating the untouched region at one index.
proof fn lemma_untouched_at(
    z0: Seq<i64>, p0: Seq<Pixel>, z1: Seq<i64>, p1: Seq<Pixel>, from: int, k: int,
)
    requires
        buffers_untouched_from(z0, p0, z1, p1, from),
        from <= k < z0.len(),
        k < p0.len(),
    ensures
        z1[k] == z0[k],
        p1[k] == p0[k],
{
}

/// Nothing at or past `from` has been touched.
pub open spec fn buffers_untouched_from(
    z0: Seq<i64>, p0: Seq<Pixel>, z1: Seq<i64>, p1: Seq<Pixel>, from: int,
) -> bool {
    forall|i: int|
        #![trigger z1[i]]
        #![trigger p1[i]]
        (from <= i && i < z0.len() && i < p0.len()) ==> z1[i] == z0[i] && p1[i] == p0[i]
}

/// One scanline of the single-pass fill: each in-bounds pixel whose depth
/// entry is empty (zero) or farther than the interpolated depth is claimed,
/// depth-written and colored in place.
#[verifier::rlimit(60)]
fn phong_scan_row(
    width: i32,
    height: i32,
    i: i32,
    pixels: &mut Vec<Pixel>,
    z_buf: &mut Vec<i64>,
    wx1: i64,
    wx2: i64,
    wz1: i64,
    wz2: i64,
    v1: &Vec4, v2: &Vec4, v3: &Vec4,
    vn1: &Vec4, vn2: &Vec4, vn3: &Vec4,
    light: &Vec4,
    color: &Pixel,
    Ghost(gz0): Ghost<Seq<i64>>,
    Ghost(gp0): Ghost<Seq<Pixel>>,
)
    requires
        width >= 0,
        height >= 0,
        0 <= i < height,
        old(z_buf).len() == width as int * height as int,
        old(pixels).len() == old(z_buf).len(),
        gz0.len() == old(z_buf).len(),
        gp0.len() == old(pixels).len(),
        phong_buffers_evolve(gz0, gp0, old(z_buf)@, old(pixels)@),
        buffers_untouched_from(gz0, gp0, old(z_buf)@, old(pixels)@, i as int * width as int),
    ensures
        final(z_buf).len() == old(z_buf).len(),
        final(pixels).len() == old(pixels).len(),
        phong_buffers_evolve(gz0, gp0, final(z_buf)@, final(pixels)@),
        buffers_untouched_from(
            gz0, gp0, final(z_buf)@, final(pixels)@, (i as int + 1) * width as int,
        ),
{
    let ja: i64 = fx_round(wx1);
    let jb: i64 = fx_round(wx2);
    proof {
        crate::fx::lemma_fx_round_bound(wx1 as int);
        crate::fx::lemma_fx_round_bound(wx2 as int);
        crate::fx::lemma_mul_bounds(i as int + 1, width as int, 0x8000_0000, 0x8000_0000);
    }
    let dz_k: i64 = fx_div(fx_sub(wz2, wz1), fx_from_int(jb - ja + 1));
    let mut z_j: i64 = wz1;
    let mut j: i64 = ja;
    while j <= jb
        invariant
            width >= 0,
            height >= 0,
            0 <= i < height,
            z_buf.len() == width as int * height as int,
            pixels.len() == z_buf.len(),
            gz0.len() == z_buf.len(),
            gp0.len() == pixels.len(),
            jb <= 0x1_0000_0000_0000,
            phong_buffers_evolve(gz0, gp0, z_buf@, pixels@),
            buffers_untouched_from(
                gz0, gp0, z_buf@, pixels@,
                i as int * width as int + (
                    if j < 0 {
                        0
                    } else if j > width as int {
                        width as int
                    } else {
                        j as int
                    }
                ),
            ),
        decreases jb + 1 - j,
    {
        let ghost ztop = z_buf@;
        let ghost ptop = pixels@;
        if j >= 0 && j < width as i64 {
            proof {
                assert((i as int) * (width as int) + j < (width as int) * (height as int))
                    by (nonlinear_arith)
                    requires 0 <= i < height as int && 0 <= j < width as int;
                assert((i as int) * (width as int) >= 0) by (nonlinear_arith)
                    requires i >= 0 && width as int >= 0;
            }
            let index: usize = (i as usize) * (width as usize) + (j as usize);
            if z_buf[index] == 0 || z_j < z_buf[index] {
                z_buf.set(index, z_j);
                let point = Vec4 { x: fx_from_int(j), y: fx_from_int(i as i64), z: z_j, w: FX_ONE };
                let shaded = find_color_in_point(&point, v1, v2, v3, vn1, vn2, vn3, light, color);
                pixels.set(index, shaded);
            }
        }
        z_j = fx_add(z_j, dz_k);
        proof {
            let nb = i as int * width as int + (
                if j + 1 < 0 {
                    0
                } else if j + 1 > width as int {
                    width as int
                } else {
                    j as int + 1
                }
            );
            let ob = i as int * width as int + (
                if j < 0 {
                    0
                } else if j > width as int {
                    width as int
                } else {
                    j as int
                }
            );
            assert(ob <= nb);
            assert(buffers_untouched_from(gz0, gp0, ztop, ptop, ob));
            assert forall|k: int|
                nb <= k < gz0.len() && k < gp0.len() implies (#[trigger] z_buf@[k]) == gz0[k]
                && pixels@[k] == gp0[k] by {
                assert(ob <= k);
                lemma_untouched_at(gz0, gp0, ztop, ptop, ob, k);
                assert(j >= 0 && j < width as i64 ==> k != i as int * width as int + j);
            }
        }
        j = j + 1;
    }
    proof {
        assert((i as int + 1) * (width as int) == i as int * width as int + width as int)
            by (nonlinear_arith);
    }
}

/// The single-pass variant of the fill: the same flat-split scan conversion,
/// but each claimed pixel is shaded immediately with the diffuse model of
/// [`find_color_in_point`]; an empty depth entry is marked by zero here.
pub fn draw_face_phong(
    pixels: &mut Vec<Pixel>,
    z_buf: &mut Vec<i64>,
    width: i32,
    height: i32,
    vertices: &Vec<Vec4>,
    vertices_normals_obj_space: &Vec<Vec4>,
    face: &Face,
    direct_light_direction_obj_space: &Vec4,
    color: &Pixel,
)
    requires
        width >= 0,
        height >= 0,
        old(z_buf).len() == width as int * height as int,
        old(pixels).len() == old(z_buf).len(),
        face.vertices_indexes.i0 < vertices.len(),
        face.vertices_indexes.i1 < vertices.len(),
        face.vertices_indexes.i2 < vertices.len(),
        face.vertices_normals_indexes.i0 < vertices_normals_obj_space.len(),
        face.vertices_normals_indexes.i1 < vertices_normals_obj_space.len(),
        face.vertices_normals_indexes.i2 < vertices_normals_obj_space.len(),
    ensures
        phong_buffers_evolve(old(z_buf)@, old(pixels)@, final(z_buf)@, final(pixels)@),
{
    let mut v1: Vec4 = vertices[face.vertices_indexes.i0];
    let mut v2: Vec4 = vertices[face.vertices_indexes.i1];
    let mut v3: Vec4 = vertices[face.vertices_indexes.i2];
    let mut vn1: Vec4 = vertices_normals_obj_space[face.vertices_normals_indexes.i0];
    let mut vn2: Vec4 = vertices_normals_obj_space[face.vertices_normals_indexes.i1];
    let mut vn3: Vec4 = vertices_normals_obj_space[face.vertices_normals_indexes.i2];

    // sort on y, carrying each vertex's normal along
    if v2.y < v1.y {
        let t = v2;
        v2 = v1;
        v1 = t;
        let t = vn2;
        vn2 = vn1;
        vn1 = t;
    }
    if v3.y < v1.y {
        let t = v3;
        v3 = v1;
        v1 = t;
        let t = vn3;
        vn3 = vn1;
        vn1 = t;
    }
    if v3.y < v2.y {
        let t = v3;
        v3 = v2;
        v2 = t;
        let t = vn3;
        vn3 = vn2;
        vn2 = t;
    }

    let x1: i64 = fx_from_int(fx_round(v1.x));
    let y1: i64 = fx_from_int(fx_round(v1.y));
    let z1: i64 = v1.z;
    let x2: i64 = fx_from_int(fx_round(v2.x));
    let y2: i64 = fx_from_int(fx_round(v2.y));
    let z2: i64 = v2.z;
    let x3: i64 = fx_from_int(fx_round(v3.x));
    let y3: i64 = fx_from_int(fx_round(v3.y));
    let z3: i64 = v3.z;

    let mut dx13: i64 = if y1 != y3 { fx_div(fx_sub(x3, x1), fx_sub(y3, y1)) } else { 0 };
    let mut dx13b: i64 = dx13;
    let mut dx12: i64 = if y1 != y2 { fx_div(fx_sub(x2, x1), fx_sub(y2, y1)) } else { 0 };
    let mut dx23: i64 = if y2 != y3 { fx_div(fx_sub(x3, x2), fx_sub(y3, y2)) } else { 0 };

    let mut dz13: i64 = if y1 != y3 { fx_div(fx_sub(z3, z1), fx_sub(y3, y1)) } else { 0 };
    let mut dz13b: i64 = dz13;
    let mut dz12: i64 = if y1 != y2 { fx_div(fx_sub(z2, z1), fx_sub(y2, y1)) } else { 0 };
    let mut dz23: i64 = if y2 != y3 { fx_div(fx_sub(z3, z2), fx_sub(y3, y2)) } else { 0 };

    let mut wx1: i64 = x1;
    let mut wx2: i64 = x1;
    let mut wz1: i64 = z1;
    let mut wz2: i64 = z1;

    if dx13 > dx12 {
        let t = dx13;
        dx13 = dx12;
        dx12 = t;
        let t = dz13;
        dz13 = dz12;
        dz12 = t;
    }

    let y1i: i32 = fx_round_i32(v1.y);
    let y2i: i32 = fx_round_i32(v2.y);
    let y3i: i32 = fx_round_i32(v3.y);

    let ghost gz0 = z_buf@;
    let ghost gp0 = pixels@;

    let mut i: i32 = y1i;
    while i < y2i
        invariant
            width >= 0,
            height >= 0,
            z_buf.len() == width as int * height as int,
            pixels.len() == z_buf.len(),
            gz0.len() == z_buf.len(),
            gp0.len() == pixels.len(),
            i >= y1i,
            i <= y2i || i == y1i,
            phong_buffers_evolve(gz0, gp0, z_buf@, pixels@),
            buffers_untouched_from(
                gz0, gp0, z_buf@, pixels@,
                (if i < 0 {
                    0
                } else if i > height as int {
                    height as int
                } else {
                    i as int
                }) * width as int,
            ),
        decreases y2i - i,
    {
        if i >= 0 && i < height {
            phong_scan_row(
                width, height, i, pixels, z_buf,
                wx1, wx2, wz1, wz2,
                &v1, &v2, &v3, &vn1, &vn2, &vn3,
                direct_light_direction_obj_space, color,
                Ghost(gz0), Ghost(gp0),
            );
        }
        proof {
            lemma_clamped_row_monotone(i as int, height as int, width as int);
        }
        wx1 = fx_add(wx1, dx13);
        wx2 = fx_add(wx2, dx12);
        wz1 = fx_add(wz1, dz13);
        wz2 = fx_add(wz2, dz12);
        i = i + 1;
    }

    if y1i == y2i {
        if x1 < x2 {
            wx1 = x1;
            wx2 = x2;
            wz1 = z1;
            wz2 = z2;
        } else {
            wx1 = x2;
            wx2 = x1;
            wz1 = z2;
            wz2 = z1;
        }
    }

    if dx13b < dx23 {
        let t = dx13b;
        dx13b = dx23;
        dx23 = t;
        let t = dz13b;
        dz13b = dz23;
        dz23 = t;
    }

    let mut i: i32 = if y2i > y1i { y2i } else { y1i };
    let iend: i32 = if y3i > i { y3i } else { i };
    while i < iend
        invariant
            width >= 0,
            height >= 0,
            z_buf.len() == width as int * height as int,
            pixels.len() == z_buf.len(),
            gz0.len() == z_buf.len(),
            gp0.len() == pixels.len(),
            phong_buffers_evolve(gz0, gp0, z_buf@, pixels@),
            buffers_untouched_from(
                gz0, gp0, z_buf@, pixels@,
                (if i < 0 {
                    0
                } else if i > height as int {
                    height as int
                } else {
                    i as int
                }) * width as int,
            ),
        decreases iend - i,
    {
        if i >= 0 && i < height {
            phong_scan_row(
                width, height, i, pixels, z_buf,
                wx1, wx2, wz1, wz2,
                &v1, &v2, &v3, &vn1, &vn2, &vn3,
                direct_light_direction_obj_space, color,
                Ghost(gz0), Ghost(gp0),
            );
        }
        proof {
            lemma_clamped_row_monotone(i as int, height as int, width as int);
        }
        wx1 = fx_add(wx1, dx13b);
        wx2 = fx_add(wx2, dx23);
        wz1 = fx_add(wz1, dz13b);
        wz2 = fx_add(wz2, dz23);
        i = i + 1;
    }
}

/// Stepping one row forward never moves the untouched watermark backward.
proof fn lemma_clamped_row_monotone(i: int, h: int, w: int)
    requires
        w >= 0,
        h >= 0,
    ensures
        (if i < 0 {
            0
        } else if i > h {
            h
        } else {
            i
        }) * w <= (if i + 1 < 0 {
            0
        } else if i + 1 > h {
            h
        } else {
            i + 1
        }) * w,
        0 <= i < h ==> (i + 1) * w == i * w + w,
        0 <= i < h ==> (if i + 1 < 0 {
            0
        } else if i + 1 > h {
            h
        } else {
            i + 1
        }) * w == i * w + w,
{
    let a = if i < 0 { 0 } else if i > h { h } else { i };
    let b = if i + 1 < 0 { 0 } else if i + 1 > h { h } else { i + 1 };
    assert(a <= b);
    assert(a * w <= b * w) by (nonlinear_arith)
        requires a <= b && w >= 0;
    assert((i + 1) * w == i * w + w) by (nonlinear_arith);
}

} // verus!
