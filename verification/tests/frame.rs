//! Whole-frame scenarios: the tonemap reference value, its determinism, the
//! normal-map decode, and an end-to-end unit cube render.

use softrender::bloom::{bloom, tonemap_pixel};
use softrender::fx::FX_ONE;
use softrender::image::Image;
use softrender::types::{Color, Pixel};
use softrender::world::World;

fn fl(x: f64) -> i64 {
    (x * 65536.0).round() as i64
}

fn px(r: u8, g: u8, b: u8) -> Pixel {
    Pixel { color: Color { r, g, b }, a: 255 }
}

#[test]
fn tonemap_of_flat_gray_matches_the_reference() {
    let expected = ((1.0 - (-128.0f64 / 255.0).exp()).powf(1.0 / 2.2) * 255.0) as u8;
    let out = tonemap_pixel(Color { r: 128, g: 128, b: 128 }, Color { r: 0, g: 0, b: 0 });
    assert_eq!(out.r, expected);
    assert_eq!(out.g, expected);
    assert_eq!(out.b, expected);
}

#[test]
fn bloom_on_gray_base_and_black_emission_is_reproducible() {
    let expected = ((1.0 - (-128.0f64 / 255.0).exp()).powf(1.0 / 2.2) * 255.0) as u8;
    let run = || {
        let mut pixels = vec![px(128, 128, 128); 64];
        let mut emission = vec![px(0, 0, 0); 64];
        let mut pingpong = vec![px(0, 0, 0); 64];
        bloom(&mut pixels, &mut emission, &mut pingpong, 8, 8);
        pixels
    };
    let first = run();
    for p in &first {
        assert_eq!(p.color.r, expected);
        assert_eq!(p.color.g, expected);
        assert_eq!(p.color.b, expected);
        assert_eq!(p.a, 255);
    }
    let second = run();
    assert_eq!(first, second);
}

#[test]
fn enabling_the_normal_map_decodes_the_texels() {
    let mut w = World::new();
    let h = w.new_object() as usize;
    w.set_object_texture_size(h, 2, 1, 1);
    w.objects[h].normal_texture_data.set_pixel(0, 0, px(255, 0, 128));
    w.set_object_use_texture(h, 2, true);
    let n = w.objects[h].normal_texture_normals.data[0];
    assert_eq!(n.x, FX_ONE);
    assert_eq!(n.y, -FX_ONE);
    assert_eq!(n.z, 256);
    assert_eq!(n.w, 0);
    assert!(w.objects[h].use_normal_texture);
}

fn add_unit_cube(im: &mut Image, handle: usize) {
    let c = fl(0.5);
    // vertex index: 4 for +x, 2 for +y, 1 for +z
    for &x in &[-c, c] {
        for &y in &[-c, c] {
            for &z in &[-c, c] {
                im.add_object_vertex(handle, x, y, z);
            }
        }
    }
    let one = FX_ONE;
    let normals: [(i64, i64, i64); 6] = [
        (one, 0, 0),
        (-one, 0, 0),
        (0, one, 0),
        (0, -one, 0),
        (0, 0, one),
        (0, 0, -one),
    ];
    for &(x, y, z) in &normals {
        im.add_object_vertex_normal(handle, x, y, z);
    }
    im.add_object_texture_vertex(handle, 0, 0, 0);
    // quads with outward winding, split into two triangles each
    let quads: [([usize; 4], usize); 6] = [
        ([4, 6, 7, 5], 0),  // +x
        ([0, 1, 3, 2], 1),  // -x
        ([2, 3, 7, 6], 2),  // +y
        ([0, 4, 5, 1], 3),  // -y
        ([1, 5, 7, 3], 4),  // +z
        ([0, 2, 6, 4], 5),  // -z
    ];
    for &([a, b, c2, d], n) in &quads {
        im.add_object_face(handle, a, 0, n, b, 0, n, c2, 0, n);
        im.add_object_face(handle, a, 0, n, c2, 0, n, d, 0, n);
    }
}

#[test]
fn unit_cube_renders_three_faces_over_the_background() {
    let mut im = Image::new(64, 64);
    let handle = im.new_object() as usize;
    add_unit_cube(&mut im, handle);
    im.set_object_color(handle, 255, 255, 255);
    im.compute();

    assert_eq!(im.world.objects[handle].faces.len(), 12);

    // exactly the three faces turned toward the camera were rasterized:
    // +x (faces 0 and 1), +y (4 and 5) and +z (8 and 9)
    let mut seen = [false; 12];
    for i in 0..im.face_index_buffer.len() {
        let f = im.face_index_buffer[i];
        if im.z_buf[i] != FX_ONE {
            assert!(0 <= f && f < 12);
            seen[f as usize] = true;
        }
    }
    assert_eq!(
        seen,
        [true, true, false, false, true, true, false, false, true, true, false, false],
    );

    // the cube's silhouette covers the screen center; the corners stay
    // background white
    let center = (32 * 64 + 32) as usize;
    assert!(im.z_buf[center] != FX_ONE);
    let center_color = im.pixels[center].color;
    assert!(center_color != (Color { r: 255, g: 255, b: 255 }));
    let corner = (1 * 64 + 1) as usize;
    assert_eq!(im.z_buf[corner], FX_ONE);
    assert_eq!(im.pixels[corner].color, Color { r: 255, g: 255, b: 255 });

    // every pixel is fully opaque, and no depth moved beyond the far plane
    for p in im.get_pixels() {
        assert_eq!(p.a, 255);
    }
    for &d in &im.z_buf {
        assert!(d <= FX_ONE);
    }
}

#[test]
fn computing_twice_gives_the_same_frame() {
    let build = || {
        let mut im = Image::new(32, 32);
        let handle = im.new_object() as usize;
        add_unit_cube(&mut im, handle);
        im.compute();
        im.get_pixels().clone()
    };
    let a = build();
    let b = build();
    assert_eq!(a, b);
}

#[test]
fn unknown_image_camera_params_change_nothing() {
    let mut im = Image::new(16, 16);
    let before = im.camera;
    im.set_camera_param(42, fl(5.0));
    assert_eq!(im.camera, before);
    im.set_light_param(1, fl(1.0));
    assert_eq!(im.camera, before);
}
