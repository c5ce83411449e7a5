//! The pipeline's stages one by one: textures, the mesh store, the camera's
//! parameter mapping, the geometry pass's culling and depth rules, and the
//! perspective-correct interpolation.

use softrender::camera::Camera;
use softrender::fx::FX_ONE;
use softrender::image::geometry_face;
use softrender::linalg::Vec4;
use softrender::object::Object;
use softrender::raster::{
    draw_face_phong, draw_line, draw_sides_of_face, find_color_in_point, get_index,
    is_faced_towards_viewer,
};
use softrender::shade::{calc_barycentric, lerp, lerp_scalar};
use softrender::texture::Texture;
use softrender::types::{Color, Face, Idx3, Pixel};
use softrender::world::World;

fn fl(x: f64) -> i64 {
    (x * 65536.0).round() as i64
}

fn px(r: u8, g: u8, b: u8) -> Pixel {
    Pixel { color: Color { r, g, b }, a: 255 }
}

#[test]
fn texture_fetch_is_nearest_with_flipped_rows() {
    let mut t: Texture<Pixel> = Texture::new();
    t.set_size(2, 2, px(0, 0, 0));
    // row 0 is the top of the image
    t.set_pixel(0, 0, px(10, 0, 0));
    t.set_pixel(1, 0, px(20, 0, 0));
    t.set_pixel(0, 1, px(30, 0, 0));
    t.set_pixel(1, 1, px(40, 0, 0));
    // v near 1 lands on the top row, v near 0 on the bottom row
    assert_eq!(t.get_pixel(fl(0.25), fl(0.75)).color.r, 10);
    assert_eq!(t.get_pixel(fl(0.75), fl(0.75)).color.r, 20);
    assert_eq!(t.get_pixel(fl(0.25), fl(0.25)).color.r, 30);
    assert_eq!(t.get_pixel(fl(0.75), fl(0.25)).color.r, 40);
    // coordinates outside the unit square are clamped inside it
    assert_eq!(t.get_pixel(fl(-3.0), fl(2.0)).color.r, 10);
    assert_eq!(t.get_pixel(fl(3.0), fl(-2.0)).color.r, 40);
}

#[test]
fn get_index_is_row_major() {
    assert_eq!(get_index(2, 3, 10), 23);
    assert_eq!(get_index(0, 0, 7), 0);
}

#[test]
fn draw_line_writes_the_color_inside_the_rectangle() {
    let mut pixels: Vec<u32> = vec![0; 16];
    draw_line(&mut pixels, 4, 4, 0, 1, 3, 1, &9u32);
    for x in 0..4usize {
        assert_eq!(pixels[4 + x], 9);
    }
    assert_eq!(pixels[0], 0);
    // a line far outside the rectangle leaves the buffer alone
    let before = pixels.clone();
    draw_line(&mut pixels, 4, 4, -100, -50, -90, -40, &7u32);
    assert_eq!(pixels, before);
}

#[test]
fn backface_sign_is_the_screen_cross_product() {
    let v1 = Vec4 { x: fl(10.0), y: fl(10.0), z: 0, w: FX_ONE };
    let v2 = Vec4 { x: fl(30.0), y: fl(10.0), z: 0, w: FX_ONE };
    let v3 = Vec4 { x: fl(20.0), y: fl(30.0), z: 0, w: FX_ONE };
    // (v2-v1) x (v3-v1) has positive z here, so this order faces away
    assert!(!is_faced_towards_viewer(&v1, &v2, &v3));
    assert!(is_faced_towards_viewer(&v1, &v3, &v2));
}

fn fresh_buffers(n: usize) -> (Vec<i64>, Vec<i32>, Vec<i32>) {
    (vec![FX_ONE; n], vec![-1; n], vec![-1; n])
}

#[test]
fn fully_out_of_view_triangles_write_nothing() {
    let (mut z, mut f, mut o) = fresh_buffers(64 * 64);
    let v1 = Vec4 { x: fl(10.0), y: fl(10.0), z: fl(0.5), w: FX_ONE };
    let v2 = Vec4 { x: fl(10.0), y: fl(30.0), z: fl(0.5), w: FX_ONE };
    let v3 = Vec4 { x: fl(30.0), y: fl(20.0), z: fl(0.5), w: FX_ONE };
    geometry_face(64, 64, &mut z, &mut f, &mut o, &v1, &v2, &v3, false, false, false, 0, 0);
    assert!(z.iter().all(|&d| d == FX_ONE));
    assert!(f.iter().all(|&i| i == -1));
    assert!(o.iter().all(|&i| i == -1));
}

#[test]
fn backfacing_triangles_are_never_rasterized() {
    let (mut z, mut f, mut o) = fresh_buffers(64 * 64);
    let v1 = Vec4 { x: fl(10.0), y: fl(10.0), z: fl(0.5), w: FX_ONE };
    let v2 = Vec4 { x: fl(30.0), y: fl(10.0), z: fl(0.5), w: FX_ONE };
    let v3 = Vec4 { x: fl(20.0), y: fl(30.0), z: fl(0.5), w: FX_ONE };
    assert!(!is_faced_towards_viewer(&v1, &v2, &v3));
    // in view and at a very near depth, yet still skipped
    geometry_face(64, 64, &mut z, &mut f, &mut o, &v1, &v2, &v3, true, true, true, 3, 1);
    assert!(z.iter().all(|&d| d == FX_ONE));
    assert!(f.iter().all(|&i| i == -1));
}

#[test]
fn depth_buffer_is_nearness_monotonic() {
    let (mut z, mut f, mut o) = fresh_buffers(64 * 64);
    let tri = |depth: f64| {
        (
            Vec4 { x: fl(10.0), y: fl(10.0), z: fl(depth), w: FX_ONE },
            Vec4 { x: fl(10.0), y: fl(40.0), z: fl(depth), w: FX_ONE },
            Vec4 { x: fl(40.0), y: fl(25.0), z: fl(depth), w: FX_ONE },
        )
    };
    let (a1, a2, a3) = tri(0.5);
    assert!(is_faced_towards_viewer(&a1, &a2, &a3));
    geometry_face(64, 64, &mut z, &mut f, &mut o, &a1, &a2, &a3, true, true, true, 0, 0);
    let probe = get_index(25, 20, 64);
    let first = z[probe];
    assert!(first < FX_ONE);
    assert_eq!(f[probe], 0);
    // a farther triangle over the same pixels changes nothing
    let snapshot = z.clone();
    let (b1, b2, b3) = tri(0.9);
    geometry_face(64, 64, &mut z, &mut f, &mut o, &b1, &b2, &b3, true, true, true, 1, 0);
    for i in 0..z.len() {
        assert!(z[i] <= snapshot[i]);
    }
    assert_eq!(z[probe], first);
    assert_eq!(f[probe], 0);
    // a nearer triangle claims the pixel
    let (c1, c2, c3) = tri(0.1);
    geometry_face(64, 64, &mut z, &mut f, &mut o, &c1, &c2, &c3, true, true, true, 2, 0);
    assert!(z[probe] < first);
    assert_eq!(f[probe], 2);
}

#[test]
fn interpolation_at_a_vertex_returns_the_exact_attribute() {
    // the weight's magnitude does not matter, nor the attribute's sign
    for &w in &[1i64, 7, 65536, 123_456_789] {
        for &a in &[fl(0.25), fl(-3.5), fl(123.0), 1i64] {
            assert_eq!(
                lerp_scalar(a, fl(9.0), fl(-2.0), w, 0, 0, fl(2.0), fl(3.0), fl(4.0)),
                a,
            );
            assert_eq!(
                lerp_scalar(fl(9.0), a, fl(-2.0), 0, w, 0, fl(2.0), fl(3.0), fl(4.0)),
                a,
            );
            assert_eq!(
                lerp_scalar(fl(9.0), fl(-2.0), a, 0, 0, w, fl(2.0), fl(3.0), fl(4.0)),
                a,
            );
        }
    }
}

#[test]
fn barycentric_weights_vanish_off_the_vertex() {
    let v1 = Vec4 { x: fl(10.0), y: fl(10.0), z: fl(0.5), w: FX_ONE };
    let v2 = Vec4 { x: fl(30.0), y: fl(10.0), z: fl(0.6), w: FX_ONE };
    let v3 = Vec4 { x: fl(20.0), y: fl(30.0), z: fl(0.7), w: FX_ONE };
    let b = calc_barycentric(&v1, &v1, &v2, &v3);
    assert!(b.x != 0);
    assert_eq!(b.y, 0);
    assert_eq!(b.z, 0);
    // interpolating any attribute at that corner returns the first value
    let a1 = Vec4 { x: fl(0.25), y: fl(0.75), z: 0, w: 0 };
    let a2 = Vec4 { x: fl(1.0), y: fl(0.0), z: 0, w: 0 };
    let a3 = Vec4 { x: fl(0.5), y: fl(0.5), z: 0, w: 0 };
    let r = lerp(&b, &a1, &a2, &a3, fl(2.0), fl(3.0), fl(4.0));
    assert_eq!(r.x, a1.x);
    assert_eq!(r.y, a1.y);
}

fn default_camera() -> Camera {
    Camera::new(
        51472,
        FX_ONE,
        6554,
        655360,
        Vec4 { x: fl(1.5), y: fl(1.5), z: fl(1.5), w: FX_ONE },
        Vec4 { x: -FX_ONE, y: -FX_ONE, z: -FX_ONE, w: 0 }.normalize3(),
        Vec4 { x: 0, y: FX_ONE, z: 0, w: 0 },
    )
}

#[test]
fn unknown_camera_params_leave_the_view_matrix_unchanged() {
    let mut touched = default_camera();
    let mut untouched = default_camera();
    touched.set_param(7, fl(10.0));
    touched.set_param(0, fl(-3.0));
    touched.set_param(99, fl(0.25));
    touched.tick();
    untouched.tick();
    assert_eq!(touched.look_at_matrix, untouched.look_at_matrix);
    assert_eq!(touched, untouched);
}

#[test]
fn known_camera_params_move_the_camera() {
    let mut moved = default_camera();
    let mut still = default_camera();
    moved.set_param(1, fl(0.5));
    moved.tick();
    still.tick();
    assert!(moved.position != still.position);
    assert!(moved.look_at_matrix != still.look_at_matrix);
}

#[test]
fn out_of_range_handles_are_ignored() {
    let mut w = World::new();
    let h = w.new_object();
    assert_eq!(h, 0);
    w.add_object_vertex(0, fl(1.0), fl(2.0), fl(3.0));
    assert_eq!(w.objects[0].vertices.len(), 1);
    // the handle equal to the object count names nothing
    w.add_object_vertex(1, fl(1.0), fl(2.0), fl(3.0));
    assert_eq!(w.objects[0].vertices.len(), 1);
    assert_eq!(w.objects.len(), 1);
    w.set_object_scale(5, fl(2.0));
    assert_eq!(w.objects[0].scale_value, FX_ONE);
}

#[test]
fn face_normals_are_unit_and_fixed_at_creation() {
    let mut obj = Object::new();
    obj.add_vertex(0, 0, 0);
    obj.add_vertex(fl(1.0), 0, 0);
    obj.add_vertex(0, fl(1.0), 0);
    obj.add_vertex_normal(0, 0, fl(1.0));
    obj.add_texture_vertex(0, 0, 0);
    let idx = obj.add_face(0, 0, 0, 1, 0, 0, 2, 0, 0);
    assert_eq!(idx, 0);
    let n = obj.faces[0].normal;
    assert_eq!(n.x, 0);
    assert_eq!(n.y, 0);
    assert_eq!(n.z, FX_ONE);
    assert_eq!(n.w, 0);
}

#[test]
fn color_setters_normalize_bytes() {
    let mut obj = Object::new();
    obj.set_color(255, 0, 128);
    assert_eq!(obj.model_color.r, FX_ONE);
    assert_eq!(obj.model_color.g, 0);
    assert_eq!(obj.model_color.b, 128 * 65536 / 255);
}

#[test]
fn color_to_u8_clamps() {
    let c = Color { r: fl(300.0), g: fl(-5.0), b: fl(127.5) };
    let u = c.to_u8();
    assert_eq!(u.r, 255);
    assert_eq!(u.g, 0);
    assert_eq!(u.b, 127);
}

#[test]
fn single_pass_fill_respects_the_empty_mark() {
    let mut pixels = vec![px(9, 9, 9); 64 * 64];
    let mut z = vec![0i64; 64 * 64];
    let vertices = vec![
        Vec4 { x: fl(10.0), y: fl(10.0), z: fl(0.5), w: FX_ONE },
        Vec4 { x: fl(10.0), y: fl(40.0), z: fl(0.5), w: FX_ONE },
        Vec4 { x: fl(40.0), y: fl(25.0), z: fl(0.5), w: FX_ONE },
    ];
    let normals = vec![Vec4 { x: 0, y: 0, z: -FX_ONE, w: 0 }; 3];
    let face = Face {
        vertices_indexes: Idx3 { i0: 0, i1: 1, i2: 2 },
        texture_vertices_indexes: Idx3 { i0: 0, i1: 0, i2: 0 },
        vertices_normals_indexes: Idx3 { i0: 0, i1: 1, i2: 2 },
        normal: Vec4 { x: 0, y: 0, z: -FX_ONE, w: 0 },
    };
    let light = Vec4 { x: 0, y: 0, z: FX_ONE, w: 0 };
    let color = px(200, 100, 50);
    draw_face_phong(&mut pixels, &mut z, 64, 64, &vertices, &normals, &face, &light, &color);
    let probe = get_index(25, 20, 64);
    // the empty mark (zero) lets the first fragment in; the normal faces
    // straight against the light, so the flat color comes through, one step
    // down per channel from the truncated unit weights
    assert_eq!(z[probe], fl(0.5));
    assert_eq!(pixels[probe].color, Color { r: 199, g: 99, b: 49 });
    // pixels away from the triangle keep their value
    assert_eq!(pixels[get_index(60, 60, 64)], px(9, 9, 9));
}

#[test]
fn point_shading_scales_the_flat_color_by_the_light() {
    let v1 = Vec4 { x: 0, y: 0, z: 0, w: FX_ONE };
    let v2 = Vec4 { x: fl(10.0), y: 0, z: 0, w: FX_ONE };
    let v3 = Vec4 { x: 0, y: fl(10.0), z: 0, w: FX_ONE };
    let n = Vec4 { x: 0, y: 0, z: -FX_ONE, w: 0 };
    let light = Vec4 { x: 0, y: 0, z: FX_ONE, w: 0 };
    let point = Vec4 { x: fl(2.0), y: fl(2.0), z: 0, w: FX_ONE };
    let shaded = find_color_in_point(&point, &v1, &v2, &v3, &n, &n, &n, &light, &px(200, 100, 50));
    // the truncated barycentric weights leave the alignment a hair under one
    assert_eq!(shaded.color, Color { r: 199, g: 99, b: 49 });
    // light from behind darkens everything to black
    let behind = Vec4 { x: 0, y: 0, z: -FX_ONE, w: 0 };
    let dark = find_color_in_point(&point, &v1, &v2, &v3, &n, &n, &n, &behind, &px(200, 100, 50));
    assert_eq!(dark.color, Color { r: 0, g: 0, b: 0 });
}

#[test]
fn face_outline_draws_only_the_line_color() {
    let mut pixels = vec![px(0, 0, 0); 16 * 16];
    let vertices = vec![
        Vec4 { x: fl(2.0), y: fl(2.0), z: 0, w: FX_ONE },
        Vec4 { x: fl(12.0), y: fl(2.0), z: 0, w: FX_ONE },
        Vec4 { x: fl(2.0), y: fl(12.0), z: 0, w: FX_ONE },
    ];
    let face = Face {
        vertices_indexes: Idx3 { i0: 0, i1: 1, i2: 2 },
        texture_vertices_indexes: Idx3 { i0: 0, i1: 0, i2: 0 },
        vertices_normals_indexes: Idx3 { i0: 0, i1: 0, i2: 0 },
        normal: Vec4 { x: 0, y: 0, z: FX_ONE, w: 0 },
    };
    let line = px(255, 0, 0);
    draw_sides_of_face(&mut pixels, 16, 16, &vertices, &face, false, &line);
    // a corner of the outline is drawn, the interior is not
    assert_eq!(pixels[get_index(2, 2, 16)], line);
    assert_eq!(pixels[get_index(5, 5, 16)], px(0, 0, 0));
    // a partial face draws nothing
    let mut untouched = vec![px(0, 0, 0); 16 * 16];
    draw_sides_of_face(&mut untouched, 16, 16, &vertices, &face, true, &line);
    assert!(untouched.iter().all(|p| *p == px(0, 0, 0)));
}
