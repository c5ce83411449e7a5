//! The render context: the frame buffers, the scene, the camera and the
//! screen-mapping matrix, with the per-frame entry point `compute`.
//!
//! One call of `compute` produces one frame: the camera integrates its
//! motion, every mesh is transformed and visibility-flagged, the geometry
//! pass resolves depth and ownership per pixel, the shading pass colors
//! every pixel (or paints the background), and the bloom post-process runs
//! only if some pixel sampled an emission texture.

use vstd::prelude::*;
use vstd::pervasive::VecAdditionalExecFns;
use crate::bloom::bloom;
use crate::camera::{Camera, spec_camera_tick};
use crate::fx::{FX_ONE, fx_div, fx_from_int, fx_neg, spec_fx_div, spec_fx_neg};
use crate::linalg::{Mat4, Vec4, spec_mat_mul, spec_mat_vec_mul};
use crate::object::{
    Object, face_in_bounds, object_is_default, object_valid, spec_channel_unit,
    spec_decode_normal, spec_rotation_matrix, spec_scale_matrix, spec_translation_matrix,
    spec_new_face,
};
use crate::raster::{
    check_vertex_in_view_box, depth_buffers_evolve, draw_face_on_buffer, get_index,
    is_faced_towards_viewer, spec_in_view_box, spec_is_front_facing,
};
use crate::shade::{ShadeOut, shade_pixel, spec_shade_pixel};
use crate::types::{Color, Face, Pixel, black_color, white_color};
use crate::world::{
    World, face_indices_in_range, world_unchanged, world_updated_at, world_valid,
};

verus! {

/// The quarter turn used as the fixed vertical field of view.
pub const FX_QUARTER_PI: i64 = 51472;

/// The near plane (a tenth) and far plane (ten) of the fixed frustum.
pub const FX_Z_NEAR: i64 = 6554;

pub const FX_Z_FAR: i64 = 655360;

/// Half of a screen extent as a fixed-point scalar.
pub open spec fn spec_half_extent(n: int) -> int {
    spec_fx_div(crate::fx::spec_fx_from_int(n), crate::fx::spec_fx_from_int(2))
}

pub struct Image {
    pub width: u32,
    pub height: u32,
    pub pixels: Vec<Pixel>,
    pub emission_buf: Vec<Pixel>,
    pub pingpong_emission_buf: Vec<Pixel>,
    pub z_buf: Vec<i64>,
    pub face_index_buffer: Vec<i32>,
    pub object_index_buffer: Vec<i32>,
    pub world: World,
    pub camera: Camera,
    pub to_screen_matrix: Mat4,
}

/// Frame buffers cover the declared rectangle, the rectangle fits the
/// signed-coordinate range scan conversion works in, and the scene is
/// internally consistent.
pub open spec fn image_valid(im: Image) -> bool {
    &&& im.pixels.len() == im.width as int * im.height as int
    &&& im.emission_buf.len() == im.pixels.len()
    &&& im.pingpong_emission_buf.len() == im.pixels.len()
    &&& im.z_buf.len() == im.pixels.len()
    &&& im.face_index_buffer.len() == im.pixels.len()
    &&& im.object_index_buffer.len() == im.pixels.len()
    &&& im.width <= i32::MAX as u32
    &&& im.height <= i32::MAX as u32
    &&& forall|i: int| 0 <= i < im.pixels.len() ==> (#[trigger] im.pixels@[i]).a == 255
    &&& world_valid(im.world)
}

fn filled<T: Copy>(n: usize, value: T) -> (r: Vec<T>)
    ensures
        r.len() == n,
        forall|i: int| 0 <= i < n ==> r@[i] == value,
{
    let mut r: Vec<T> = Vec::new();
    while r.len() < n
        invariant
            r.len() <= n,
            forall|i: int| 0 <= i < r.len() ==> r@[i] == value,
        decreases n - r.len(),
    {
        r.push(value);
    }
    r
}

impl Image {
    /// A fresh context at the given image size: white pixels, black emission
    /// buffers, far-plane depth, empty index buffers, an empty scene, and
    /// the default camera.
    #[verifier::rlimit(60)]
    pub fn new(width: u32, height: u32) -> (r: Image)
        requires
            width as int * height as int <= usize::MAX as int,
            width <= i32::MAX as u32,
            height <= i32::MAX as u32,
        ensures
            image_valid(r),
            r.width == width,
            r.height == height,
            forall|i: int| 0 <= i < r.pixels.len() ==> r.pixels@[i] == (Pixel {
                color: (Color::<u8> { r: 255, g: 255, b: 255 }),
                a: 255,
            }),
            forall|i: int| 0 <= i < r.emission_buf.len() ==> r.emission_buf@[i] == (Pixel {
                color: (Color::<u8> { r: 0, g: 0, b: 0 }),
                a: 255,
            }),
            forall|i: int| 0 <= i < r.pingpong_emission_buf.len()
                ==> r.pingpong_emission_buf@[i] == (Pixel {
                    color: (Color::<u8> { r: 0, g: 0, b: 0 }),
                    a: 255,
                }),
            forall|i: int| 0 <= i < r.z_buf.len() ==> r.z_buf@[i] == FX_ONE,
            forall|i: int| 0 <= i < r.face_index_buffer.len()
                ==> r.face_index_buffer@[i] == -1,
            forall|i: int| 0 <= i < r.object_index_buffer.len()
                ==> r.object_index_buffer@[i] == -1,
            r.world.objects.len() == 0,
            r.world.direct_light_direction == crate::world::spec_default_light_direction(),
            r.world.direct_light_color == (Color::<i64> { r: FX_ONE, g: FX_ONE, b: FX_ONE }),
            r.world.background_light_color == (Color::<i64> {
                r: FX_ONE,
                g: FX_ONE,
                b: FX_ONE,
            }),
            r.camera.position == (Vec4 { x: 98304, y: 98304, z: 98304, w: FX_ONE }),
            r.camera.front == crate::linalg::spec_normalize3(
                Vec4 { x: -0x10000i64, y: -0x10000i64, z: -0x10000i64, w: 0 },
            ),
            r.camera.world_up == (Vec4 { x: 0, y: FX_ONE, z: 0, w: 0 }),
            r.camera.fov == FX_QUARTER_PI,
            r.camera.aspect as int == spec_fx_div(
                crate::fx::spec_fx_from_int(width as int),
                crate::fx::spec_fx_from_int(height as int),
            ),
            r.camera.look_at_matrix == crate::camera::spec_view_of(r.camera),
            r.camera.projection_matrix == crate::camera::spec_projection(
                FX_QUARTER_PI as int,
                r.camera.aspect as int,
                FX_Z_NEAR as int,
                FX_Z_FAR as int,
            ),
            r.camera.speed == (Vec4 { x: 0, y: 0, z: 0, w: 0 }),
            r.camera.rotation == (Vec4 { x: 0, y: 0, z: 0, w: 0 }),
            r.to_screen_matrix == (Mat4 {
                r0: Vec4 {
                    x: spec_half_extent(width as int) as i64,
                    y: 0,
                    z: 0,
                    w: spec_half_extent(width as int) as i64,
                },
                r1: Vec4 {
                    x: 0,
                    y: crate::fx::spec_fx_neg(spec_half_extent(height as int)) as i64,
                    z: 0,
                    w: spec_half_extent(height as int) as i64,
                },
                r2: Vec4 { x: 0, y: 0, z: FX_ONE, w: 0 },
                r3: Vec4 { x: 0, y: 0, z: 0, w: FX_ONE },
            }),
    {
        proof {
            crate::fx::lemma_mul_bounds(width as int, height as int, 0x8000_0000, 0x8000_0000);
        }
        let total: usize = (width as usize) * (height as usize);
        let pixels = filled(total, Pixel { color: white_color(), a: 255 });
        let emission_buf = filled(total, Pixel { color: black_color(), a: 255 });
        let pingpong_emission_buf = filled(total, Pixel { color: black_color(), a: 255 });
        let z_buf = filled(total, FX_ONE);
        let face_index_buffer = filled(total, -1i32);
        let object_index_buffer = filled(total, -1i32);

        let f_width = fx_from_int(width as i64);
        let f_height = fx_from_int(height as i64);
        let two = fx_from_int(2);
        let half_w = fx_div(f_width, two);
        let half_h = fx_div(f_height, two);
        let to_screen_matrix = Mat4 {
            r0: Vec4 { x: half_w, y: 0, z: 0, w: half_w },
            r1: Vec4 { x: 0, y: fx_neg(half_h), z: 0, w: half_h },
            r2: Vec4 { x: 0, y: 0, z: FX_ONE, w: 0 },
            r3: Vec4 { x: 0, y: 0, z: 0, w: FX_ONE },
        };

        let world = World::new();

        let position = Vec4 { x: 98304, y: 98304, z: 98304, w: FX_ONE };
        let front = Vec4 { x: -FX_ONE, y: -FX_ONE, z: -FX_ONE, w: 0 }.normalize3();
        let world_up = Vec4 { x: 0, y: FX_ONE, z: 0, w: 0 };
        let camera = Camera::new(
            FX_QUARTER_PI,
            fx_div(f_width, f_height),
            FX_Z_NEAR,
            FX_Z_FAR,
            position,
            front,
            world_up,
        );

        Image {
            width,
            height,
            pixels,
            emission_buf,
            pingpong_emission_buf,
            z_buf,
            face_index_buffer,
            object_index_buffer,
            world,
            camera,
            to_screen_matrix,
        }
    }

    pub fn new_object(&mut self) -> (handle: u32)
        requires
            image_valid(*old(self)),
            old(self).world.objects.len() < u32::MAX,
        ensures
            image_valid(*final(self)),
            *final(self) == (Image { world: final(self).world, ..*old(self) }),
            handle as int == old(self).world.objects.len(),
            final(self).world.objects.len() == old(self).world.objects.len() + 1,
            forall|i: int| 0 <= i < old(self).world.objects.len()
                ==> #[trigger] final(self).world.objects@[i] == old(self).world.objects@[i],
            object_is_default(final(self).world.objects@[handle as int]),
            final(self).world.direct_light_direction
                == old(self).world.direct_light_direction,
            final(self).world.direct_light_color == old(self).world.direct_light_color,
            final(self).world.background_light_color
                == old(self).world.background_light_color,
    {
        self.world.new_object()
    }

    /// The finished frame, row-major from the top-left, one RGBA pixel per
    /// entry; alpha is always full.
    pub fn get_pixels(&self) -> (r: &Vec<Pixel>)
        ensures
            r == &self.pixels,
            image_valid(*self) ==> r.len() == self.width as int * self.height as int,
            image_valid(*self) ==> forall|i: int| 0 <= i < r.len()
                ==> (#[trigger] r@[i]).a == 255,
    {
        &self.pixels
    }

    pub fn add_object_vertex(&mut self, object_handle: usize, x: i64, y: i64, z: i64)
        requires
            image_valid(*old(self)),
        ensures
            image_valid(*final(self)),
            *final(self) == (Image { world: final(self).world, ..*old(self) }),
            !old(self).world.spec_handle_exists(object_handle as int)
                ==> final(self).world == old(self).world,
            old(self).world.spec_handle_exists(object_handle as int) ==> {
                &&& world_updated_at(old(self).world, final(self).world, object_handle as int)
                &&& final(self).world.objects@[object_handle as int].vertices@
                    == old(self).world.objects@[object_handle as int].vertices@.push(
                        Vec4 { x, y, z, w: FX_ONE },
                    )
                &&& final(self).world.objects@[object_handle as int].vertices_viewvable@
                    == old(self).world.objects@[
                        object_handle as int
                    ].vertices_viewvable@.push(true)
                &&& final(self).world.objects@[object_handle as int] == (Object {
                    vertices: final(self).world.objects@[object_handle as int].vertices,
                    vertices_viewvable:
                        final(self).world.objects@[object_handle as int].vertices_viewvable,
                    ..old(self).world.objects@[object_handle as int]
                })
            },
    {
        self.world.add_object_vertex(object_handle, x, y, z);
    }

    pub fn add_object_vertex_normal(&mut self, object_handle: usize, x: i64, y: i64, z: i64)
        requires
            image_valid(*old(self)),
        ensures
            image_valid(*final(self)),
            *final(self) == (Image { world: final(self).world, ..*old(self) }),
            !old(self).world.spec_handle_exists(object_handle as int)
                ==> final(self).world == old(self).world,
            old(self).world.spec_handle_exists(object_handle as int) ==> {
                &&& world_updated_at(old(self).world, final(self).world, object_handle as int)
                &&& final(self).world.objects@[object_handle as int].vertices_normals@
                    == old(self).world.objects@[object_handle as int].vertices_normals@.push(
                        Vec4 { x, y, z, w: 0 },
                    )
                &&& final(self).world.objects@[object_handle as int] == (Object {
                    vertices_normals:
                        final(self).world.objects@[object_handle as int].vertices_normals,
                    ..old(self).world.objects@[object_handle as int]
                })
            },
    {
        self.world.add_object_vertex_normal(object_handle, x, y, z);
    }

    pub fn add_object_texture_vertex(&mut self, object_handle: usize, x: i64, y: i64, z: i64)
        requires
            image_valid(*old(self)),
        ensures
            image_valid(*final(self)),
            *final(self) == (Image { world: final(self).world, ..*old(self) }),
            !old(self).world.spec_handle_exists(object_handle as int)
                ==> final(self).world == old(self).world,
            old(self).world.spec_handle_exists(object_handle as int) ==> {
                &&& world_updated_at(old(self).world, final(self).world, object_handle as int)
                &&& final(self).world.objects@[object_handle as int].texture_vertices@
                    == old(self).world.objects@[object_handle as int].texture_vertices@.push(
                        Vec4 { x, y, z, w: 0 },
                    )
                &&& final(self).world.objects@[object_handle as int] == (Object {
                    texture_vertices:
                        final(self).world.objects@[object_handle as int].texture_vertices,
                    ..old(self).world.objects@[object_handle as int]
                })
            },
    {
        self.world.add_object_texture_vertex(object_handle, x, y, z);
    }

    /// Appends a face if the handle and all nine indices are in range;
    /// otherwise the scene is unchanged.
    pub fn add_object_face(
        &mut self,
        object_handle: usize,
        v0: usize, vt0: usize, vn0: usize,
        v1: usize, vt1: usize, vn1: usize,
        v2: usize, vt2: usize, vn2: usize,
    )
        requires
            image_valid(*old(self)),
        ensures
            image_valid(*final(self)),
            *final(self) == (Image { world: final(self).world, ..*old(self) }),
            !(old(self).world.spec_handle_exists(object_handle as int)
                && face_indices_in_range(
                    old(self).world.objects@[object_handle as int],
                    v0 as int, vt0 as int, vn0 as int,
                    v1 as int, vt1 as int, vn1 as int,
                    v2 as int, vt2 as int, vn2 as int,
                )) ==> world_unchanged(old(self).world, final(self).world),
            old(self).world.spec_handle_exists(object_handle as int)
                && face_indices_in_range(
                    old(self).world.objects@[object_handle as int],
                    v0 as int, vt0 as int, vn0 as int,
                    v1 as int, vt1 as int, vn1 as int,
                    v2 as int, vt2 as int, vn2 as int,
                ) ==> {
                &&& world_updated_at(old(self).world, final(self).world, object_handle as int)
                &&& final(self).world.objects@[object_handle as int].faces@
                    == old(self).world.objects@[object_handle as int].faces@.push(
                        spec_new_face(
                            old(self).world.objects@[object_handle as int],
                            v0 as int, vt0 as int, vn0 as int,
                            v1 as int, vt1 as int, vn1 as int,
                            v2 as int, vt2 as int, vn2 as int,
                        ),
                    )
                &&& final(self).world.objects@[object_handle as int] == (Object {
                    faces: final(self).world.objects@[object_handle as int].faces,
                    ..old(self).world.objects@[object_handle as int]
                })
            },
    {
        self.world.add_object_face(object_handle, v0, vt0, vn0, v1, vt1, vn1, v2, vt2, vn2);
    }

    pub fn set_object_rotation(
        &mut self,
        object_handle: usize,
        angle_x: i64,
        angle_y: i64,
        angle_z: i64,
    )
        requires
            image_valid(*old(self)),
        ensures
            image_valid(*final(self)),
            *final(self) == (Image { world: final(self).world, ..*old(self) }),
            !old(self).world.spec_handle_exists(object_handle as int)
                ==> final(self).world == old(self).world,
            old(self).world.spec_handle_exists(object_handle as int) ==> {
                &&& world_updated_at(old(self).world, final(self).world, object_handle as int)
                &&& final(self).world.objects@[object_handle as int] == (Object {
                    rotation_matrix: spec_rotation_matrix(
                        angle_x as int,
                        angle_y as int,
                        angle_z as int,
                    ),
                    ..old(self).world.objects@[object_handle as int]
                })
            },
    {
        self.world.set_object_rotation(object_handle, angle_x, angle_y, angle_z);
    }

    pub fn set_object_scale(&mut self, object_handle: usize, scale: i64)
        requires
            image_valid(*old(self)),
        ensures
            image_valid(*final(self)),
            *final(self) == (Image { world: final(self).world, ..*old(self) }),
            !old(self).world.spec_handle_exists(object_handle as int)
                ==> final(self).world == old(self).world,
            old(self).world.spec_handle_exists(object_handle as int) ==> {
                &&& world_updated_at(old(self).world, final(self).world, object_handle as int)
                &&& final(self).world.objects@[object_handle as int] == (Object {
                    scale_matrix: spec_scale_matrix(scale as int),
                    scale_value: scale,
                    ..old(self).world.objects@[object_handle as int]
                })
            },
    {
        self.world.set_object_scale(object_handle, scale);
    }

    pub fn set_object_translaiton(&mut self, object_handle: usize, x: i64, y: i64, z: i64)
        requires
            image_valid(*old(self)),
        ensures
            image_valid(*final(self)),
            *final(self) == (Image { world: final(self).world, ..*old(self) }),
            !old(self).world.spec_handle_exists(object_handle as int)
                ==> final(self).world == old(self).world,
            old(self).world.spec_handle_exists(object_handle as int) ==> {
                &&& world_updated_at(old(self).world, final(self).world, object_handle as int)
                &&& final(self).world.objects@[object_handle as int] == (Object {
                    translation_matrix: spec_translation_matrix(x as int, y as int, z as int),
                    translation: (Vec4 { x, y, z, w: 0 }),
                    ..old(self).world.objects@[object_handle as int]
                })
            },
    {
        self.world.set_object_translaiton(object_handle, x, y, z);
    }

    pub fn set_object_color(&mut self, object_handle: usize, r: u8, g: u8, b: u8)
        requires
            image_valid(*old(self)),
        ensures
            image_valid(*final(self)),
            *final(self) == (Image { world: final(self).world, ..*old(self) }),
            !old(self).world.spec_handle_exists(object_handle as int)
                ==> final(self).world == old(self).world,
            old(self).world.spec_handle_exists(object_handle as int) ==> {
                &&& world_updated_at(old(self).world, final(self).world, object_handle as int)
                &&& final(self).world.objects@[object_handle as int] == (Object {
                    model_color: (Color::<i64> {
                        r: spec_channel_unit(r as int) as i64,
                        g: spec_channel_unit(g as int) as i64,
                        b: spec_channel_unit(b as int) as i64,
                    }),
                    ..old(self).world.objects@[object_handle as int]
                })
            },
    {
        self.world.set_object_color(object_handle, r, g, b);
    }

    pub fn set_object_texture_size(
        &mut self,
        object_handle: usize,
        texture_index: usize,
        width: usize,
        height: usize,
    )
        requires
            image_valid(*old(self)),
            width as int * height as int <= usize::MAX as int,
        ensures
            image_valid(*final(self)),
            *final(self) == (Image { world: final(self).world, ..*old(self) }),
            !old(self).world.spec_handle_exists(object_handle as int)
                ==> final(self).world == old(self).world,
            old(self).world.spec_handle_exists(object_handle as int)
                ==> world_updated_at(old(self).world, final(self).world, object_handle as int),
            old(self).world.spec_handle_exists(object_handle as int) && texture_index == 1
                ==> {
                &&& final(self).world.objects@[object_handle as int] == (Object {
                    diffuse_texture:
                        final(self).world.objects@[object_handle as int].diffuse_texture,
                    ..old(self).world.objects@[object_handle as int]
                })
                &&& final(self).world.objects@[object_handle as int].diffuse_texture.width
                    == width
                &&& final(self).world.objects@[object_handle as int].diffuse_texture.height
                    == height
            },
            old(self).world.spec_handle_exists(object_handle as int) && texture_index == 2
                ==> {
                &&& final(self).world.objects@[object_handle as int] == (Object {
                    normal_texture_data:
                        final(self).world.objects@[object_handle as int].normal_texture_data,
                    normal_texture_normals:
                        final(self).world.objects@[
                            object_handle as int
                        ].normal_texture_normals,
                    ..old(self).world.objects@[object_handle as int]
                })
                &&& final(self).world.objects@[object_handle as int].normal_texture_data.width
                    == width
                &&& final(self).world.objects@[
                    object_handle as int
                ].normal_texture_data.height == height
            },
            old(self).world.spec_handle_exists(object_handle as int) && texture_index == 3
                ==> {
                &&& final(self).world.objects@[object_handle as int] == (Object {
                    specular_texture_data:
                        final(self).world.objects@[object_handle as int].specular_texture_data,
                    specular_texture_coeff:
                        final(self).world.objects@[
                            object_handle as int
                        ].specular_texture_coeff,
                    ..old(self).world.objects@[object_handle as int]
                })
                &&& final(self).world.objects@[
                    object_handle as int
                ].specular_texture_data.width == width
                &&& final(self).world.objects@[
                    object_handle as int
                ].specular_texture_data.height == height
            },
            old(self).world.spec_handle_exists(object_handle as int) && texture_index == 4
                ==> {
                &&& final(self).world.objects@[object_handle as int] == (Object {
                    emission_texture:
                        final(self).world.objects@[object_handle as int].emission_texture,
                    ..old(self).world.objects@[object_handle as int]
                })
                &&& final(self).world.objects@[object_handle as int].emission_texture.width
                    == width
                &&& final(self).world.objects@[object_handle as int].emission_texture.height
                    == height
            },
            old(self).world.spec_handle_exists(object_handle as int)
                && !(1 <= texture_index <= 4)
                ==> world_unchanged(old(self).world, final(self).world),
    {
        self.world.set_object_texture_size(object_handle, texture_index, width, height);
    }

    /// Toggles one texture slot; enabling the normal map also decodes it.
    pub fn set_object_use_texture(
        &mut self,
        object_handle: usize,
        texture_index: usize,
        value: bool,
    )
        requires
            image_valid(*old(self)),
        ensures
            image_valid(*final(self)),
            *final(self) == (Image { world: final(self).world, ..*old(self) }),
            !old(self).world.spec_handle_exists(object_handle as int)
                ==> final(self).world == old(self).world,
            old(self).world.spec_handle_exists(object_handle as int)
                ==> world_updated_at(old(self).world, final(self).world, object_handle as int),
            old(self).world.spec_handle_exists(object_handle as int) && texture_index == 1
                ==> final(self).world.objects@[object_handle as int] == (Object {
                    use_diffuse_texture: value,
                    ..old(self).world.objects@[object_handle as int]
                }),
            old(self).world.spec_handle_exists(object_handle as int) && texture_index == 3
                ==> final(self).world.objects@[object_handle as int] == (Object {
                    use_specular_texture: value,
                    ..old(self).world.objects@[object_handle as int]
                }),
            old(self).world.spec_handle_exists(object_handle as int) && texture_index == 4
                ==> final(self).world.objects@[object_handle as int] == (Object {
                    use_emission_texture: value,
                    ..old(self).world.objects@[object_handle as int]
                }),
            old(self).world.spec_handle_exists(object_handle as int) && texture_index == 2
                ==> {
                &&& final(self).world.objects@[object_handle as int] == (Object {
                    use_normal_texture: value,
                    normal_texture_normals:
                        final(self).world.objects@[
                            object_handle as int
                        ].normal_texture_normals,
                    ..old(self).world.objects@[object_handle as int]
                })
                &&& !value ==> final(self).world.objects@[
                    object_handle as int
                ].normal_texture_normals == old(self).world.objects@[
                    object_handle as int
                ].normal_texture_normals
                &&& value ==> forall|i: int| 0 <= i < final(self).world.objects@[
                    object_handle as int
                ].normal_texture_normals.data.len()
                    ==> final(self).world.objects@[
                        object_handle as int
                    ].normal_texture_normals.data@[i] == spec_decode_normal(
                        #[trigger] old(self).world.objects@[
                            object_handle as int
                        ].normal_texture_data.data@[i],
                    )
            },
            old(self).world.spec_handle_exists(object_handle as int)
                && !(1 <= texture_index <= 4)
                ==> world_unchanged(old(self).world, final(self).world),
    {
        self.world.set_object_use_texture(object_handle, texture_index, value);
    }

    /// The raw pixel grid of one object's texture slot; out-of-range handles
    /// and unknown slots have none.
    pub fn get_object_texture_pixels(
        &self,
        object_handle: usize,
        texture_index: usize,
    ) -> (r: Option<&Vec<Pixel>>)
        ensures
            !self.world.spec_handle_exists(object_handle as int) ==> r is None,
            self.world.spec_handle_exists(object_handle as int) && texture_index == 1
                ==> r == Some(&self.world.objects@[object_handle as int].diffuse_texture.data),
            self.world.spec_handle_exists(object_handle as int) && texture_index == 2
                ==> r == Some(
                    &self.world.objects@[object_handle as int].normal_texture_data.data,
                ),
            self.world.spec_handle_exists(object_handle as int) && texture_index == 3
                ==> r == Some(
                    &self.world.objects@[object_handle as int].specular_texture_data.data,
                ),
            self.world.spec_handle_exists(object_handle as int) && texture_index == 4
                ==> r == Some(
                    &self.world.objects@[object_handle as int].emission_texture.data,
                ),
            self.world.spec_handle_exists(object_handle as int) && !(1 <= texture_index <= 4)
                ==> r is None,
    {
        self.world.get_object_texture_pixels(object_handle, texture_index)
    }

    /// Forwards one control scalar to the camera: ids 1, 2, 3 write the
    /// velocity (the third negated), ids 11, 12, 13 the angular rates; an
    /// unrecognized id leaves the whole context untouched.
    pub fn set_camera_param(&mut self, param_id: u32, param_value: i64)
        requires
            image_valid(*old(self)),
        ensures
            image_valid(*final(self)),
            *final(self) == (Image { camera: final(self).camera, ..*old(self) }),
            param_id == 1 ==> final(self).camera == (Camera {
                speed: (Vec4 { x: param_value, ..old(self).camera.speed }),
                ..old(self).camera
            }),
            param_id == 2 ==> final(self).camera == (Camera {
                speed: (Vec4 { y: param_value, ..old(self).camera.speed }),
                ..old(self).camera
            }),
            param_id == 3 ==> final(self).camera == (Camera {
                speed: (Vec4 {
                    z: crate::fx::spec_fx_neg(param_value as int) as i64,
                    ..old(self).camera.speed
                }),
                ..old(self).camera
            }),
            param_id == 11 ==> final(self).camera == (Camera {
                rotation: (Vec4 { x: param_value, ..old(self).camera.rotation }),
                ..old(self).camera
            }),
            param_id == 12 ==> final(self).camera == (Camera {
                rotation: (Vec4 { y: param_value, ..old(self).camera.rotation }),
                ..old(self).camera
            }),
            param_id == 13 ==> final(self).camera == (Camera {
                rotation: (Vec4 { z: param_value, ..old(self).camera.rotation }),
                ..old(self).camera
            }),
            !(param_id == 1 || param_id == 2 || param_id == 3 || param_id == 11 || param_id
                == 12 || param_id == 13) ==> *final(self) == *old(self),
    {
        self.camera.set_param(param_id, param_value);
    }

    /// Reserved; no light parameter is currently mapped.
    pub fn set_light_param(&mut self, param_id: u32, param_value: i64)
        ensures
            *final(self) == *old(self),
    {
    }


    fn clear_image(&mut self)
        requires
            image_valid(*old(self)),
        ensures
            image_valid(*final(self)),
            *final(self) == (Image { z_buf: final(self).z_buf, ..*old(self) }),
            final(self).z_buf.len() == old(self).z_buf.len(),
            forall|i: int| 0 <= i < final(self).z_buf.len() ==> final(self).z_buf@[i] == FX_ONE,
    {
        let n = self.z_buf.len();
        let mut i: usize = 0;
        while i < n
            invariant
                self.z_buf.len() == n,
                i <= n,
                *self == (Image { z_buf: self.z_buf, ..*old(self) }),
                forall|j: int| 0 <= j < i ==> self.z_buf@[j] == FX_ONE,
            decreases n - i,
        {
            self.z_buf.set(i, FX_ONE);
            i = i + 1;
        }
    }
}


/// The object-independent frame matrix: screen mapping, projection, view.
pub open spec fn spec_frame_matrix(to_screen: Mat4, cam: Camera) -> Mat4 {
    spec_mat_mul(spec_mat_mul(to_screen, cam.projection_matrix), cam.look_at_matrix)
}

/// An object's world matrix: translation, scale, rotation.
pub open spec fn spec_object_to_world(o: Object) -> Mat4 {
    spec_mat_mul(spec_mat_mul(o.translation_matrix, o.scale_matrix), o.rotation_matrix)
}

/// The matrix carried against the world matrix, built from the stored
/// factors: the rotation transposed, the reciprocal scale, the negated
/// translation.
pub open spec fn spec_world_to_object(o: Object) -> Mat4 {
    let inv_s = spec_fx_div(FX_ONE as int, o.scale_value as int) as i64;
    let inv_scale = (Mat4 {
        r0: Vec4 { x: inv_s, y: 0, z: 0, w: 0 },
        r1: Vec4 { x: 0, y: inv_s, z: 0, w: 0 },
        r2: Vec4 { x: 0, y: 0, z: inv_s, w: 0 },
        r3: Vec4 { x: 0, y: 0, z: 0, w: FX_ONE },
    });
    let inv_trans = (Mat4 {
        r0: Vec4 { x: FX_ONE, y: 0, z: 0, w: spec_fx_neg(o.translation.x as int) as i64 },
        r1: Vec4 { x: 0, y: FX_ONE, z: 0, w: spec_fx_neg(o.translation.y as int) as i64 },
        r2: Vec4 { x: 0, y: 0, z: FX_ONE, w: spec_fx_neg(o.translation.z as int) as i64 },
        r3: Vec4 { x: 0, y: 0, z: 0, w: FX_ONE },
    });
    spec_mat_mul(spec_mat_mul(crate::linalg::spec_transpose(o.rotation_matrix), inv_scale), inv_trans)
}

/// The near and far corners of the view box, mapped to screen space.
pub open spec fn spec_view_box_lo(to_screen: Mat4) -> Vec4 {
    spec_mat_vec_mul(to_screen, Vec4 { x: -0x10000i64, y: 0x10000i64, z: 0, w: 0x10000i64 })
}

pub open spec fn spec_view_box_hi(to_screen: Mat4) -> Vec4 {
    spec_mat_vec_mul(to_screen, Vec4 { x: 0x10000i64, y: -0x10000i64, z: 0x10000i64, w: 0x10000i64 })
}

/// One mesh vertex carried to screen space, before the perspective divide.
pub open spec fn spec_clip_vertex(to_screen: Mat4, cam: Camera, o: Object, j: int) -> Vec4 {
    spec_mat_vec_mul(
        spec_mat_mul(spec_frame_matrix(to_screen, cam), spec_object_to_world(o)),
        o.vertices@[j],
    )
}

/// The same vertex after the perspective divide: what the rasterizer sees.
pub open spec fn spec_view_vertex(to_screen: Mat4, cam: Camera, o: Object, j: int) -> Vec4 {
    spec_perspective_divide(spec_clip_vertex(to_screen, cam, o, j))
}

/// The camera's position carried into one object's space.
pub open spec fn spec_camera_in_object(cam: Camera, o: Object) -> Vec4 {
    spec_mat_vec_mul(spec_world_to_object(o), cam.position)
}

/// The light's direction carried into one object's space.
pub open spec fn spec_light_in_object(w: World, o: Object) -> Vec4 {
    spec_mat_vec_mul(spec_world_to_object(o), w.direct_light_direction)
}

/// The scene comes out of a frame exactly as it went in, except that every
/// vertex's visibility flag has been recomputed.
pub open spec fn world_reflagged(w0: World, w1: World) -> bool {
    &&& w1.objects.len() == w0.objects.len()
    &&& forall|k: int| 0 <= k < w0.objects.len() ==> (#[trigger] w1.objects@[k]) == (Object {
        vertices_viewvable: w1.objects@[k].vertices_viewvable,
        ..w0.objects@[k]
    })
    &&& w1.direct_light_direction == w0.direct_light_direction
    &&& w1.direct_light_color == w0.direct_light_color
    &&& w1.background_light_color == w0.background_light_color
}

/// No object of the scene has an active emission slot, so a frame never runs
/// the bloom post-process.
pub open spec fn spec_no_emission_active(w: World) -> bool {
    forall|k: int| 0 <= k < w.objects.len() ==> !crate::shade::spec_slot_active(
        (#[trigger] w.objects@[k]).use_emission_texture,
        w.objects@[k].emission_texture,
    )
}

/// What the shading pass computes at one claimed pixel of a finished frame:
/// the lighting model of the face the index buffers name, evaluated at the
/// pixel's coordinates and stored depth with that object's screen-space
/// vertices, pre-divide depths, and object-space light and camera.
pub open spec fn spec_frame_shaded(im: Image, i: int) -> ShadeOut {
    let oi = im.object_index_buffer@[i] as int;
    let obj = im.world.objects@[oi];
    let face = obj.faces@[im.face_index_buffer@[i] as int];
    let i0 = face.vertices_indexes.i0 as int;
    let i1 = face.vertices_indexes.i1 as int;
    let i2 = face.vertices_indexes.i2 as int;
    crate::shade::spec_shade_pixel(
        obj,
        face,
        spec_view_vertex(im.to_screen_matrix, im.camera, obj, i0),
        spec_view_vertex(im.to_screen_matrix, im.camera, obj, i1),
        spec_view_vertex(im.to_screen_matrix, im.camera, obj, i2),
        spec_clip_vertex(im.to_screen_matrix, im.camera, obj, i0).z as int,
        spec_clip_vertex(im.to_screen_matrix, im.camera, obj, i1).z as int,
        spec_clip_vertex(im.to_screen_matrix, im.camera, obj, i2).z as int,
        Vec4 {
            x: crate::fx::spec_fx_from_int(i % im.width as int) as i64,
            y: crate::fx::spec_fx_from_int(i / im.width as int) as i64,
            z: im.z_buf@[i],
            w: FX_ONE,
        },
        spec_light_in_object(im.world, obj),
        spec_camera_in_object(im.camera, obj),
        im.world.background_light_color,
        im.world.direct_light_color,
    )
}

/// The perspective divide: every component over the homogeneous one.
pub open spec fn spec_perspective_divide(v: Vec4) -> Vec4 {
    Vec4 {
        x: spec_fx_div(v.x as int, v.w as int) as i64,
        y: spec_fx_div(v.y as int, v.w as int) as i64,
        z: spec_fx_div(v.z as int, v.w as int) as i64,
        w: spec_fx_div(v.w as int, v.w as int) as i64,
    }
}

fn perspective_divide(v: &Vec4) -> (r: Vec4)
    ensures
        r == spec_perspective_divide(*v),
{
    Vec4 {
        x: fx_div(v.x, v.w),
        y: fx_div(v.y, v.w),
        z: fx_div(v.z, v.w),
        w: fx_div(v.w, v.w),
    }
}

/// Depth and index entries a geometry pass may leave: a pixel is untouched
/// (still at the far sentinel, or claimed earlier) or names an existing face
/// of an existing object.
pub open spec fn spec_geom_indices_ok(
    z: Seq<i64>,
    f: Seq<i32>,
    o: Seq<i32>,
    objs: Seq<Object>,
) -> bool {
    forall|i: int| 0 <= i < z.len() ==> (#[trigger] z[i]) == FX_ONE || (
        0 <= o[i] < objs.len() && 0 <= f[i] < objs[o[i] as int].faces.len()
    )
}

/// One face of the geometry pass, with the culling rules in front of the
/// scan fill: a triangle whose three vertices are all out of view writes no
/// pixel, and one whose projected area has the back-facing sign writes no
/// pixel, whatever its depths; what is drawn obeys the depth-buffer
/// discipline.
pub fn geometry_face(
    width: i32,
    height: i32,
    z_buf: &mut Vec<i64>,
    face_index_buffer: &mut Vec<i32>,
    object_index_buffer: &mut Vec<i32>,
    v1: &Vec4,
    v2: &Vec4,
    v3: &Vec4,
    viewable0: bool,
    viewable1: bool,
    viewable2: bool,
    face_index: usize,
    object_index: usize,
)
    requires
        width >= 0,
        height >= 0,
        old(z_buf).len() == width as int * height as int,
        old(face_index_buffer).len() == old(z_buf).len(),
        old(object_index_buffer).len() == old(z_buf).len(),
        face_index <= i32::MAX as int,
        object_index <= i32::MAX as int,
    ensures
        depth_buffers_evolve(
            old(z_buf)@, old(face_index_buffer)@, old(object_index_buffer)@,
            final(z_buf)@, final(face_index_buffer)@, final(object_index_buffer)@,
            face_index as int, object_index as int,
        ),
        (!viewable0 && !viewable1 && !viewable2) ==> final(z_buf)@ == old(z_buf)@
            && final(face_index_buffer)@ == old(face_index_buffer)@
            && final(object_index_buffer)@ == old(object_index_buffer)@,
        !spec_is_front_facing(*v1, *v2, *v3) ==> final(z_buf)@ == old(z_buf)@
            && final(face_index_buffer)@ == old(face_index_buffer)@
            && final(object_index_buffer)@ == old(object_index_buffer)@,
        (viewable0 || viewable1 || viewable2) && spec_is_front_facing(*v1, *v2, *v3)
            ==> (final(z_buf)@, final(face_index_buffer)@, final(object_index_buffer)@)
                == crate::raster::spec_draw_face(
                old(z_buf)@, old(face_index_buffer)@, old(object_index_buffer)@,
                width as int, height as int,
                *v1, *v2, *v3,
                face_index as int, object_index as int,
            ),
{
    if !viewable0 && !viewable1 && !viewable2 {
        return ;
    }
    if !is_faced_towards_viewer(v1, v2, v3) {
        return ;
    }
    draw_face_on_buffer(
        width,
        height,
        z_buf,
        face_index_buffer,
        face_index,
        object_index_buffer,
        object_index,
        v1,
        v2,
        v3,
    );
}

/// Transforms one mesh into screen space: each vertex is carried through the
/// combined matrix, its pre-divide depth is kept, the perspective divide is
/// applied, and its visibility flag is recomputed from the view box.
fn transform_object(obj: &mut Object, final_matrix: &Mat4, box1: &Vec4, box2: &Vec4) -> (r: (
    Vec<Vec4>,
    Vec<i64>,
))
    requires
        object_valid(*old(obj)),
    ensures
        object_valid(*final(obj)),
        *final(obj) == (Object {
            vertices_viewvable: final(obj).vertices_viewvable,
            ..*old(obj)
        }),
        final(obj).vertices_viewvable.len() == old(obj).vertices.len(),
        r.0.len() == old(obj).vertices.len(),
        r.1.len() == old(obj).vertices.len(),
        forall|j: int| 0 <= j < r.0.len() ==> (#[trigger] r.0@[j]) == spec_perspective_divide(
            spec_mat_vec_mul(*final_matrix, old(obj).vertices@[j]),
        ),
        forall|j: int| 0 <= j < r.1.len() ==> (#[trigger] r.1@[j]) == spec_mat_vec_mul(
            *final_matrix,
            old(obj).vertices@[j],
        ).z,
        forall|j: int| 0 <= j < r.0.len()
            ==> (#[trigger] final(obj).vertices_viewvable@[j]) == spec_in_view_box(
                r.0@[j], *box1, *box2,
            ),
{
    let n = obj.vertices.len();
    let mut vv: Vec<Vec4> = Vec::new();
    let mut lz: Vec<i64> = Vec::new();
    let mut j: usize = 0;
    while j < n
        invariant
            object_valid(*old(obj)),
            object_valid(*obj),
            n == old(obj).vertices.len(),
            *obj == (Object { vertices_viewvable: obj.vertices_viewvable, ..*old(obj) }),
            obj.vertices_viewvable.len() == n,
            j <= n,
            vv.len() == j,
            lz.len() == j,
            forall|k: int| 0 <= k < j ==> (#[trigger] vv@[k]) == spec_perspective_divide(
                spec_mat_vec_mul(*final_matrix, old(obj).vertices@[k]),
            ),
            forall|k: int| 0 <= k < j ==> (#[trigger] lz@[k]) == spec_mat_vec_mul(
                *final_matrix,
                old(obj).vertices@[k],
            ).z,
            forall|k: int| 0 <= k < j
                ==> (#[trigger] obj.vertices_viewvable@[k]) == spec_in_view_box(
                    vv@[k], *box1, *box2,
                ),
            forall|k: int| j <= k < n
                ==> (#[trigger] obj.vertices_viewvable@[k])
                    == old(obj).vertices_viewvable@[k],
        decreases n - j,
    {
        let tv = final_matrix.transform(obj.vertices[j]);
        lz.push(tv.z);
        let pd = perspective_divide(&tv);
        vv.push(pd);
        let flag = check_vertex_in_view_box(&pd, box1, box2);
        self_set_viewable(obj, j, flag);
        j = j + 1;
    }
    (vv, lz)
}

/// Writes one visibility flag.
fn self_set_viewable(obj: &mut Object, j: usize, flag: bool)
    requires
        object_valid(*old(obj)),
        j < old(obj).vertices_viewvable.len(),
    ensures
        object_valid(*final(obj)),
        *final(obj) == (Object {
            vertices_viewvable: final(obj).vertices_viewvable,
            ..*old(obj)
        }),
        final(obj).vertices_viewvable@ == old(obj).vertices_viewvable@.update(
            j as int,
            flag,
        ),
{
    obj.vertices_viewvable.set(j, flag);
}

impl Image {
    /// Computes one full frame in place: camera motion, the per-object
    /// transform pipeline, the geometry pass, the shading pass over every
    /// pixel, and the bloom post-process when some pixel used an emission
    /// texture. The scene keeps everything but its recomputed visibility
    /// flags.
    #[verifier::rlimit(100)]
    #[verifier::spinoff_prover]
    pub fn compute(&mut self)
        requires
            image_valid(*old(self)),
        ensures
            image_valid(*final(self)),
            final(self).width == old(self).width,
            final(self).height == old(self).height,
            final(self).to_screen_matrix == old(self).to_screen_matrix,
            final(self).camera == spec_camera_tick(old(self).camera),
            final(self).pixels.len() == old(self).pixels.len(),
            forall|i: int| 0 <= i < final(self).pixels.len()
                ==> (#[trigger] final(self).pixels@[i]).a == old(self).pixels@[i].a,
            world_reflagged(old(self).world, final(self).world),
            forall|k: int, j: int| 0 <= k < final(self).world.objects.len()
                && 0 <= j < final(self).world.objects@[k].vertices.len()
                ==> (#[trigger] final(self).world.objects@[k].vertices_viewvable@[j])
                    == spec_in_view_box(
                    spec_view_vertex(
                        final(self).to_screen_matrix,
                        final(self).camera,
                        final(self).world.objects@[k],
                        j,
                    ),
                    spec_view_box_lo(final(self).to_screen_matrix),
                    spec_view_box_hi(final(self).to_screen_matrix),
                ),
            forall|i: int| 0 <= i < final(self).z_buf.len()
                ==> (#[trigger] final(self).z_buf@[i]) <= FX_ONE,
            spec_geom_indices_ok(
                final(self).z_buf@,
                final(self).face_index_buffer@,
                final(self).object_index_buffer@,
                final(self).world.objects@,
            ),
    {
        self.clear_image();
        self.camera.tick();

        let look_at = self.camera.look_at_matrix;
        let projection = self.camera.projection_matrix;
        let to_screen = self.to_screen_matrix;
        let object_independent_matrix = to_screen.matmul(projection).matmul(look_at);
        let view_box_1 = to_screen.transform(Vec4 { x: -FX_ONE, y: FX_ONE, z: 0, w: FX_ONE });
        let view_box_2 = to_screen.transform(
            Vec4 { x: FX_ONE, y: -FX_ONE, z: FX_ONE, w: FX_ONE },
        );

        let nobj = self.world.objects.len();
        let mut view_vertices: Vec<Vec<Vec4>> = Vec::new();
        let mut vertices_linear_z: Vec<Vec<i64>> = Vec::new();
        let mut cameras_in_object_space: Vec<Vec4> = Vec::new();
        let mut lights_in_object_space: Vec<Vec4> = Vec::new();

        let ghost s1 = *self;

        let mut oi: usize = 0;
        while oi < nobj
            invariant
                image_valid(*self),
                nobj == self.world.objects.len(),
                oi <= nobj,
                *self == (Image { world: self.world, ..s1 }),
                self.world.objects.len() == s1.world.objects.len(),
                self.world.direct_light_direction == s1.world.direct_light_direction,
                self.world.direct_light_color == s1.world.direct_light_color,
                self.world.background_light_color == s1.world.background_light_color,
                object_independent_matrix == spec_frame_matrix(
                    self.to_screen_matrix,
                    self.camera,
                ),
                view_box_1 == spec_view_box_lo(self.to_screen_matrix),
                view_box_2 == spec_view_box_hi(self.to_screen_matrix),
                forall|k: int| 0 <= k < nobj ==> (#[trigger] self.world.objects@[k]) == (Object {
                    vertices_viewvable: self.world.objects@[k].vertices_viewvable,
                    ..s1.world.objects@[k]
                }),
                view_vertices.len() == oi,
                vertices_linear_z.len() == oi,
                cameras_in_object_space.len() == oi,
                lights_in_object_space.len() == oi,
                forall|k: int| 0 <= k < oi ==> (#[trigger] view_vertices@[k]).len()
                    == self.world.objects@[k].vertices.len(),
                forall|k: int| 0 <= k < oi ==> (#[trigger] vertices_linear_z@[k]).len()
                    == self.world.objects@[k].vertices.len(),
                forall|k: int, j: int| 0 <= k < oi
                    && 0 <= j < self.world.objects@[k].vertices.len()
                    ==> (#[trigger] self.world.objects@[k].vertices_viewvable@[j])
                        == spec_in_view_box(
                        spec_view_vertex(
                            self.to_screen_matrix, self.camera, self.world.objects@[k], j,
                        ),
                        spec_view_box_lo(self.to_screen_matrix),
                        spec_view_box_hi(self.to_screen_matrix),
                    ),
            decreases nobj - oi,
        {
            let mut obj = Object::new();
            self.world.objects.set_and_swap(oi, &mut obj);
            let to_world = obj.translation_matrix.matmul(obj.scale_matrix).matmul(
                obj.rotation_matrix,
            );
            let inv_rot = obj.rotation_matrix.transpose();
            let inv_s = fx_div(FX_ONE, obj.scale_value);
            let inv_scale = Mat4 {
                r0: Vec4 { x: inv_s, y: 0, z: 0, w: 0 },
                r1: Vec4 { x: 0, y: inv_s, z: 0, w: 0 },
                r2: Vec4 { x: 0, y: 0, z: inv_s, w: 0 },
                r3: Vec4 { x: 0, y: 0, z: 0, w: FX_ONE },
            };
            let inv_trans = Mat4 {
                r0: Vec4 { x: FX_ONE, y: 0, z: 0, w: fx_neg(obj.translation.x) },
                r1: Vec4 { x: 0, y: FX_ONE, z: 0, w: fx_neg(obj.translation.y) },
                r2: Vec4 { x: 0, y: 0, z: FX_ONE, w: fx_neg(obj.translation.z) },
                r3: Vec4 { x: 0, y: 0, z: 0, w: FX_ONE },
            };
            let world_to_object = inv_rot.matmul(inv_scale).matmul(inv_trans);
            let final_matrix = object_independent_matrix.matmul(to_world);
            proof {
                assert(to_world == spec_object_to_world(obj));
                assert(final_matrix == spec_mat_mul(
                    spec_frame_matrix(self.to_screen_matrix, self.camera),
                    spec_object_to_world(obj),
                ));
            }
            let (vv, lz) = transform_object(&mut obj, &final_matrix, &view_box_1, &view_box_2);
            cameras_in_object_space.push(world_to_object.transform(self.camera.position));
            lights_in_object_space.push(
                world_to_object.transform(self.world.direct_light_direction),
            );
            self.world.objects.set_and_swap(oi, &mut obj);
            view_vertices.push(vv);
            vertices_linear_z.push(lz);
            oi = oi + 1;
        }

        let width_i32: i32 = self.width as i32;
        let height_i32: i32 = self.height as i32;

        let ghost s2 = *self;

        let mut oi: usize = 0;
        while oi < nobj
            invariant
                image_valid(*self),
                nobj == self.world.objects.len(),
                oi <= nobj,
                width_i32 == self.width as i32,
                height_i32 == self.height as i32,
                *self == (Image {
                    z_buf: self.z_buf,
                    face_index_buffer: self.face_index_buffer,
                    object_index_buffer: self.object_index_buffer,
                    ..s2
                }),
                self.z_buf.len() == s2.z_buf.len(),
                self.face_index_buffer.len() == s2.face_index_buffer.len(),
                self.object_index_buffer.len() == s2.object_index_buffer.len(),
                forall|i: int| 0 <= i < self.z_buf.len()
                    ==> (#[trigger] self.z_buf@[i]) <= FX_ONE,
                spec_geom_indices_ok(
                    self.z_buf@,
                    self.face_index_buffer@,
                    self.object_index_buffer@,
                    self.world.objects@,
                ),
                view_vertices.len() == nobj,
                vertices_linear_z.len() == nobj,
                forall|k: int| 0 <= k < nobj ==> (#[trigger] view_vertices@[k]).len()
                    == self.world.objects@[k].vertices.len(),
                forall|k: int| 0 <= k < nobj ==> (#[trigger] vertices_linear_z@[k]).len()
                    == self.world.objects@[k].vertices.len(),
            decreases nobj - oi,
        {
            let nf = self.world.objects[oi].faces.len();
            let mut fi: usize = 0;
            while fi < nf
                invariant
                    image_valid(*self),
                    nobj == self.world.objects.len(),
                    oi < nobj,
                    nf == self.world.objects@[oi as int].faces.len(),
                    fi <= nf,
                    width_i32 == self.width as i32,
                    height_i32 == self.height as i32,
                    *self == (Image {
                        z_buf: self.z_buf,
                        face_index_buffer: self.face_index_buffer,
                        object_index_buffer: self.object_index_buffer,
                        ..s2
                    }),
                    self.z_buf.len() == s2.z_buf.len(),
                    self.face_index_buffer.len() == s2.face_index_buffer.len(),
                    self.object_index_buffer.len() == s2.object_index_buffer.len(),
                    forall|i: int| 0 <= i < self.z_buf.len()
                        ==> (#[trigger] self.z_buf@[i]) <= FX_ONE,
                    spec_geom_indices_ok(
                        self.z_buf@,
                        self.face_index_buffer@,
                        self.object_index_buffer@,
                        self.world.objects@,
                    ),
                    view_vertices.len() == nobj,
                    vertices_linear_z.len() == nobj,
                    forall|k: int| 0 <= k < nobj ==> (#[trigger] view_vertices@[k]).len()
                        == self.world.objects@[k].vertices.len(),
                    forall|k: int| 0 <= k < nobj ==> (#[trigger] vertices_linear_z@[k]).len()
                        == self.world.objects@[k].vertices.len(),
                decreases nf - fi,
            {
                let face: Face = self.world.objects[oi].faces[fi];
                proof {
                    assert(face_in_bounds(self.world.objects@[oi as int], face));
                }
                let i0 = face.vertices_indexes.i0;
                let i1 = face.vertices_indexes.i1;
                let i2 = face.vertices_indexes.i2;
                let w0 = self.world.objects[oi].vertices_viewvable[i0];
                let w1 = self.world.objects[oi].vertices_viewvable[i1];
                let w2 = self.world.objects[oi].vertices_viewvable[i2];
                let v1: Vec4 = view_vertices[oi][i0];
                let v2: Vec4 = view_vertices[oi][i1];
                let v3: Vec4 = view_vertices[oi][i2];
                if oi <= i32::MAX as usize && fi <= i32::MAX as usize {
                    let ghost zb = self.z_buf@;
                    let ghost fb = self.face_index_buffer@;
                    let ghost ob = self.object_index_buffer@;
                    geometry_face(
                        width_i32,
                        height_i32,
                        &mut self.z_buf,
                        &mut self.face_index_buffer,
                        &mut self.object_index_buffer,
                        &v1,
                        &v2,
                        &v3,
                        w0,
                        w1,
                        w2,
                        fi,
                        oi,
                    );
                    proof {
                        assert forall|i: int|
                            0 <= i < self.z_buf@.len() implies (#[trigger] self.z_buf@[i])
                            == FX_ONE || (0 <= self.object_index_buffer@[i]
                            < self.world.objects@.len() && 0 <= self.face_index_buffer@[i]
                            < self.world.objects@[self.object_index_buffer@[i] as int].faces.len()) by {
                            assert(zb[i] == FX_ONE || (0 <= ob[i] < self.world.objects@.len()
                                && 0 <= fb[i]
                                < self.world.objects@[ob[i] as int].faces.len()));
                        }
                    }
                }
                fi = fi + 1;
            }
            oi = oi + 1;
        }

        let ghost s3 = *self;
        let mut emission_used: bool = false;
        let mut y: u32 = 0;
        while y < self.height
            invariant
                image_valid(*self),
                nobj == self.world.objects.len(),
                y <= self.height,
                *self == (Image {
                    pixels: self.pixels,
                    emission_buf: self.emission_buf,
                    ..s3
                }),
                self.pixels.len() == s3.pixels.len(),
                self.emission_buf.len() == s3.emission_buf.len(),
                self.pixels.len() == self.width as int * self.height as int,
                forall|i: int| 0 <= i < self.z_buf.len()
                    ==> (#[trigger] self.z_buf@[i]) <= FX_ONE,
                spec_geom_indices_ok(
                    self.z_buf@,
                    self.face_index_buffer@,
                    self.object_index_buffer@,
                    self.world.objects@,
                ),
                view_vertices.len() == nobj,
                vertices_linear_z.len() == nobj,
                cameras_in_object_space.len() == nobj,
                lights_in_object_space.len() == nobj,
                forall|k: int| 0 <= k < nobj ==> (#[trigger] view_vertices@[k]).len()
                    == self.world.objects@[k].vertices.len(),
                forall|k: int| 0 <= k < nobj ==> (#[trigger] vertices_linear_z@[k]).len()
                    == self.world.objects@[k].vertices.len(),
                spec_no_emission_active(self.world) ==> !emission_used,
                forall|i: int| 0 <= i < self.pixels.len()
                    ==> (#[trigger] self.pixels@[i]).a == s3.pixels@[i].a,
            decreases self.height - y,
        {
            let mut x: u32 = 0;
            while x < self.width
                invariant
                    image_valid(*self),
                    nobj == self.world.objects.len(),
                    y < self.height,
                    x <= self.width,
                    *self == (Image {
                        pixels: self.pixels,
                        emission_buf: self.emission_buf,
                        ..s3
                    }),
                    self.pixels.len() == s3.pixels.len(),
                    self.emission_buf.len() == s3.emission_buf.len(),
                    self.pixels.len() == self.width as int * self.height as int,
                    forall|i: int| 0 <= i < self.z_buf.len()
                        ==> (#[trigger] self.z_buf@[i]) <= FX_ONE,
                    spec_geom_indices_ok(
                        self.z_buf@,
                        self.face_index_buffer@,
                        self.object_index_buffer@,
                        self.world.objects@,
                    ),
                    view_vertices.len() == nobj,
                    vertices_linear_z.len() == nobj,
                    cameras_in_object_space.len() == nobj,
                    lights_in_object_space.len() == nobj,
                    forall|k: int| 0 <= k < nobj ==> (#[trigger] view_vertices@[k]).len()
                        == self.world.objects@[k].vertices.len(),
                    forall|k: int| 0 <= k < nobj ==> (#[trigger] vertices_linear_z@[k]).len()
                        == self.world.objects@[k].vertices.len(),
                    spec_no_emission_active(self.world) ==> !emission_used,
                    forall|i: int| 0 <= i < self.pixels.len()
                        ==> (#[trigger] self.pixels@[i]).a == s3.pixels@[i].a,
                decreases self.width - x,
            {
                proof {
                    assert((y as int) * (self.width as int) + (x as int)
                        < (self.width as int) * (self.height as int)) by (nonlinear_arith)
                        requires
                            y < self.height,
                            x < self.width,
                    ;
                    assert((y as int) * (self.width as int) >= 0) by (nonlinear_arith)
                        requires y >= 0 && self.width >= 0;
                }
                let pixel_index: usize = get_index(y, x, self.width);
                if self.z_buf[pixel_index] == FX_ONE {
                    let a = self.pixels[pixel_index].a;
                    self.pixels.set(pixel_index, Pixel { color: white_color(), a });
                    let ea = self.emission_buf[pixel_index].a;
                    self.emission_buf.set(pixel_index, Pixel { color: black_color(), a: ea });
                } else {
                    let ob_i32 = self.object_index_buffer[pixel_index];
                    let fb_i32 = self.face_index_buffer[pixel_index];
                    let obj_idx: usize = ob_i32 as usize;
                    let face_idx: usize = fb_i32 as usize;
                    let face: Face = self.world.objects[obj_idx].faces[face_idx];
                    proof {
                        assert(face_in_bounds(self.world.objects@[obj_idx as int], face));
                    }
                    let i0 = face.vertices_indexes.i0;
                    let i1 = face.vertices_indexes.i1;
                    let i2 = face.vertices_indexes.i2;
                    let v1: Vec4 = view_vertices[obj_idx][i0];
                    let v2: Vec4 = view_vertices[obj_idx][i1];
                    let v3: Vec4 = view_vertices[obj_idx][i2];
                    let z1: i64 = vertices_linear_z[obj_idx][i0];
                    let z2: i64 = vertices_linear_z[obj_idx][i1];
                    let z3: i64 = vertices_linear_z[obj_idx][i2];
                    let point = Vec4 {
                        x: fx_from_int(x as i64),
                        y: fx_from_int(y as i64),
                        z: self.z_buf[pixel_index],
                        w: FX_ONE,
                    };
                    let light: Vec4 = lights_in_object_space[obj_idx];
                    let cam: Vec4 = cameras_in_object_space[obj_idx];
                    let out: ShadeOut = shade_pixel(
                        &self.world.objects[obj_idx],
                        &face,
                        &v1,
                        &v2,
                        &v3,
                        z1,
                        z2,
                        z3,
                        &point,
                        &light,
                        &cam,
                        &self.world.background_light_color,
                        &self.world.direct_light_color,
                    );
                    proof {
                        if spec_no_emission_active(self.world) {
                            assert(!crate::shade::spec_slot_active(
                                self.world.objects@[obj_idx as int].use_emission_texture,
                                self.world.objects@[obj_idx as int].emission_texture,
                            ));
                        }
                    }
                    let a = self.pixels[pixel_index].a;
                    self.pixels.set(pixel_index, Pixel { color: out.color, a });
                    let ea = self.emission_buf[pixel_index].a;
                    self.emission_buf.set(
                        pixel_index,
                        Pixel { color: out.emission, a: ea },
                    );
                    if out.emission_used {
                        emission_used = true;
                    }
                }
                x = x + 1;
            }
            y = y + 1;
        }

        if emission_used {
            let width = self.width;
            let height = self.height;
            bloom(
                &mut self.pixels,
                &mut self.emission_buf,
                &mut self.pingpong_emission_buf,
                width,
                height,
            );
        }
    }
}

} // verus!
