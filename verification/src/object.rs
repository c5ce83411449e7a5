//! A mesh with its material and per-object transform: append-only vertex,
//! normal, UV and face arrays, four optional texture slots, and the three
//! factors of the world matrix.

use vstd::prelude::*;
use crate::fx::{
    FX_ONE, fx_div, fx_from_int, fx_mul, fx_neg, fx_sub,
    spec_fx_div, spec_fx_from_int, spec_fx_mul, spec_fx_neg, spec_fx_sub,
};
use crate::fxmath::{fx_cos, fx_sin, spec_fx_cos, spec_fx_sin};
use crate::linalg::{Mat4, Vec4, spec_cross3, spec_mat_mul, spec_normalize3, spec_vec4_sub};
use crate::texture::{Texture, texture_valid};
use crate::types::{Color, Face, Idx3, Pixel};

verus! {

pub struct Object {
    pub vertices: Vec<Vec4>,
    pub vertices_normals: Vec<Vec4>,
    pub texture_vertices: Vec<Vec4>,
    pub vertices_viewvable: Vec<bool>,
    pub faces: Vec<Face>,
    pub model_color: Color<i64>,
    pub diffuse_texture: Texture<Pixel>,
    pub normal_texture_data: Texture<Pixel>,
    pub normal_texture_normals: Texture<Vec4>,
    pub specular_texture_data: Texture<Pixel>,
    pub specular_texture_coeff: Texture<Color<i64>>,
    pub emission_texture: Texture<Pixel>,
    pub use_diffuse_texture: bool,
    pub use_normal_texture: bool,
    pub use_specular_texture: bool,
    pub use_emission_texture: bool,
    pub ambient: Color<i64>,
    pub diffuse_intensity: Color<i64>,
    pub specular: Color<i64>,
    pub specular_intensity: Color<i64>,
    /// Whole-number specular exponent; the gloss term is raised to it.
    pub shininess: u32,
    pub rotation_matrix: Mat4,
    pub scale_matrix: Mat4,
    pub translation_matrix: Mat4,
    /// The scalar behind `scale_matrix`, kept to invert the world transform.
    pub scale_value: i64,
    /// The offset behind `translation_matrix`, kept to invert the world
    /// transform.
    pub translation: Vec4,
}

/// A face's indices all point into the object's attribute arrays.
pub open spec fn face_in_bounds(o: Object, f: Face) -> bool {
    &&& f.vertices_indexes.i0 < o.vertices.len()
    &&& f.vertices_indexes.i1 < o.vertices.len()
    &&& f.vertices_indexes.i2 < o.vertices.len()
    &&& f.texture_vertices_indexes.i0 < o.texture_vertices.len()
    &&& f.texture_vertices_indexes.i1 < o.texture_vertices.len()
    &&& f.texture_vertices_indexes.i2 < o.texture_vertices.len()
    &&& f.vertices_normals_indexes.i0 < o.vertices_normals.len()
    &&& f.vertices_normals_indexes.i1 < o.vertices_normals.len()
    &&& f.vertices_normals_indexes.i2 < o.vertices_normals.len()
}

/// Internal consistency of a mesh: the visibility flags shadow the vertex
/// array, every stored face is in bounds, and every texture grid matches its
/// declared size (the decoded grids matching their sources).
pub open spec fn object_valid(o: Object) -> bool {
    &&& o.vertices_viewvable.len() == o.vertices.len()
    &&& forall|i: int| 0 <= i < o.faces.len() ==> face_in_bounds(o, #[trigger] o.faces@[i])
    &&& texture_valid(o.diffuse_texture)
    &&& texture_valid(o.normal_texture_data)
    &&& texture_valid(o.normal_texture_normals)
    &&& texture_valid(o.specular_texture_data)
    &&& texture_valid(o.specular_texture_coeff)
    &&& texture_valid(o.emission_texture)
    &&& o.normal_texture_normals.width == o.normal_texture_data.width
    &&& o.normal_texture_normals.height == o.normal_texture_data.height
    &&& o.specular_texture_coeff.width == o.specular_texture_data.width
    &&& o.specular_texture_coeff.height == o.specular_texture_data.height
}

/// A byte channel as a fixed-point fraction of full brightness.
pub open spec fn spec_channel_unit(c: int) -> int {
    spec_fx_div(spec_fx_from_int(c), spec_fx_from_int(255))
}

/// A sampled normal-map texel decoded from [0, 255] to a [-1, 1] direction.
pub open spec fn spec_decode_normal(p: Pixel) -> Vec4 {
    Vec4 {
        x: spec_fx_sub(
            spec_fx_mul(spec_channel_unit(p.color.r as int), 2 * FX_ONE as int),
            FX_ONE as int,
        ) as i64,
        y: spec_fx_sub(
            spec_fx_mul(spec_channel_unit(p.color.g as int), 2 * FX_ONE as int),
            FX_ONE as int,
        ) as i64,
        z: spec_fx_sub(
            spec_fx_mul(spec_channel_unit(p.color.b as int), 2 * FX_ONE as int),
            FX_ONE as int,
        ) as i64,
        w: 0,
    }
}

/// A sampled specular texel decoded to per-channel coefficients in [0, 1].
pub open spec fn spec_decode_specular(p: Pixel) -> Color<i64> {
    Color {
        r: spec_channel_unit(p.color.r as int) as i64,
        g: spec_channel_unit(p.color.g as int) as i64,
        b: spec_channel_unit(p.color.b as int) as i64,
    }
}

/// The rotation matrix for Euler angles, composed as Rx * Ry * Rz.
pub open spec fn spec_rotation_matrix(ax: int, ay: int, az: int) -> Mat4 {
    let sinx = spec_fx_sin(ax) as i64;
    let cosx = spec_fx_cos(ax) as i64;
    let siny = spec_fx_sin(ay) as i64;
    let cosy = spec_fx_cos(ay) as i64;
    let sinz = spec_fx_sin(az) as i64;
    let cosz = spec_fx_cos(az) as i64;
    let rx = (Mat4 {
        r0: Vec4 { x: FX_ONE, y: 0, z: 0, w: 0 },
        r1: Vec4 { x: 0, y: cosx, z: spec_fx_neg(sinx as int) as i64, w: 0 },
        r2: Vec4 { x: 0, y: sinx, z: cosx, w: 0 },
        r3: Vec4 { x: 0, y: 0, z: 0, w: FX_ONE },
    });
    let ry = (Mat4 {
        r0: Vec4 { x: cosy, y: 0, z: siny, w: 0 },
        r1: Vec4 { x: 0, y: FX_ONE, z: 0, w: 0 },
        r2: Vec4 { x: spec_fx_neg(siny as int) as i64, y: 0, z: cosy, w: 0 },
        r3: Vec4 { x: 0, y: 0, z: 0, w: FX_ONE },
    });
    let rz = (Mat4 {
        r0: Vec4 { x: cosz, y: spec_fx_neg(sinz as int) as i64, z: 0, w: 0 },
        r1: Vec4 { x: sinz, y: cosz, z: 0, w: 0 },
        r2: Vec4 { x: 0, y: 0, z: FX_ONE, w: 0 },
        r3: Vec4 { x: 0, y: 0, z: 0, w: FX_ONE },
    });
    spec_mat_mul(spec_mat_mul(rx, ry), rz)
}

/// The uniform scale matrix.
pub open spec fn spec_scale_matrix(s: int) -> Mat4 {
    Mat4 {
        r0: Vec4 { x: s as i64, y: 0, z: 0, w: 0 },
        r1: Vec4 { x: 0, y: s as i64, z: 0, w: 0 },
        r2: Vec4 { x: 0, y: 0, z: s as i64, w: 0 },
        r3: Vec4 { x: 0, y: 0, z: 0, w: FX_ONE },
    }
}

/// The translation matrix.
pub open spec fn spec_translation_matrix(x: int, y: int, z: int) -> Mat4 {
    Mat4 {
        r0: Vec4 { x: FX_ONE, y: 0, z: 0, w: x as i64 },
        r1: Vec4 { x: 0, y: FX_ONE, z: 0, w: y as i64 },
        r2: Vec4 { x: 0, y: 0, z: FX_ONE, w: z as i64 },
        r3: Vec4 { x: 0, y: 0, z: 0, w: FX_ONE },
    }
}

/// The state a freshly constructed object is in: empty mesh arrays, the
/// documented default material (white flat color, a tenth ambient and
/// specular intensity, eight tenths diffuse intensity, unit specular color,
/// shininess one), disabled empty textures, and identity transforms.
pub open spec fn object_is_default(o: Object) -> bool {
    &&& o.vertices.len() == 0
    &&& o.vertices_normals.len() == 0
    &&& o.texture_vertices.len() == 0
    &&& o.vertices_viewvable.len() == 0
    &&& o.faces.len() == 0
    &&& o.model_color == (Color::<i64> { r: FX_ONE, g: FX_ONE, b: FX_ONE })
    &&& o.diffuse_texture.width == 0 && o.diffuse_texture.height == 0
        && o.diffuse_texture.data.len() == 0
    &&& o.normal_texture_data.width == 0 && o.normal_texture_data.height == 0
        && o.normal_texture_data.data.len() == 0
    &&& o.normal_texture_normals.width == 0 && o.normal_texture_normals.height == 0
        && o.normal_texture_normals.data.len() == 0
    &&& o.specular_texture_data.width == 0 && o.specular_texture_data.height == 0
        && o.specular_texture_data.data.len() == 0
    &&& o.specular_texture_coeff.width == 0 && o.specular_texture_coeff.height == 0
        && o.specular_texture_coeff.data.len() == 0
    &&& o.emission_texture.width == 0 && o.emission_texture.height == 0
        && o.emission_texture.data.len() == 0
    &&& !o.use_diffuse_texture
    &&& !o.use_normal_texture
    &&& !o.use_specular_texture
    &&& !o.use_emission_texture
    &&& o.ambient == (Color::<i64> { r: 6553, g: 6553, b: 6553 })
    &&& o.diffuse_intensity == (Color::<i64> { r: 52428, g: 52428, b: 52428 })
    &&& o.specular == (Color::<i64> { r: FX_ONE, g: FX_ONE, b: FX_ONE })
    &&& o.specular_intensity == (Color::<i64> { r: 6553, g: 6553, b: 6553 })
    &&& o.shininess == 1
    &&& o.rotation_matrix == crate::linalg::spec_mat_identity()
    &&& o.scale_matrix == crate::linalg::spec_mat_identity()
    &&& o.translation_matrix == crate::linalg::spec_mat_identity()
    &&& o.scale_value == FX_ONE
    &&& o.translation == (Vec4 { x: 0, y: 0, z: 0, w: 0 })
}

/// The face stored for nine indices: the indices themselves plus the
/// normalized cross product of the first two edges.
pub open spec fn spec_new_face(
    o: Object,
    v0: int, vt0: int, vn0: int,
    v1: int, vt1: int, vn1: int,
    v2: int, vt2: int, vn2: int,
) -> Face {
    Face {
        vertices_indexes: Idx3 { i0: v0 as usize, i1: v1 as usize, i2: v2 as usize },
        texture_vertices_indexes: Idx3 { i0: vt0 as usize, i1: vt1 as usize, i2: vt2 as usize },
        vertices_normals_indexes: Idx3 { i0: vn0 as usize, i1: vn1 as usize, i2: vn2 as usize },
        normal: spec_normalize3(
            spec_cross3(
                spec_vec4_sub(o.vertices@[v1], o.vertices@[v0]),
                spec_vec4_sub(o.vertices@[v2], o.vertices@[v0]),
            ),
        ),
    }
}

impl Object {
    pub fn new() -> (r: Object)
        ensures
            object_is_default(r),
            object_valid(r),
    {
        Object {
            vertices: Vec::new(),
            vertices_normals: Vec::new(),
            texture_vertices: Vec::new(),
            vertices_viewvable: Vec::new(),
            faces: Vec::new(),
            model_color: Color { r: FX_ONE, g: FX_ONE, b: FX_ONE },
            diffuse_texture: Texture::new(),
            normal_texture_data: Texture::new(),
            normal_texture_normals: Texture::new(),
            specular_texture_data: Texture::new(),
            specular_texture_coeff: Texture::new(),
            emission_texture: Texture::new(),
            use_diffuse_texture: false,
            use_normal_texture: false,
            use_specular_texture: false,
            use_emission_texture: false,
            ambient: Color { r: 6553, g: 6553, b: 6553 },
            diffuse_intensity: Color { r: 52428, g: 52428, b: 52428 },
            specular: Color { r: FX_ONE, g: FX_ONE, b: FX_ONE },
            specular_intensity: Color { r: 6553, g: 6553, b: 6553 },
            shininess: 1,
            rotation_matrix: Mat4::identity(),
            scale_matrix: Mat4::identity(),
            translation_matrix: Mat4::identity(),
            scale_value: FX_ONE,
            translation: Vec4 { x: 0, y: 0, z: 0, w: 0 },
        }
    }

    /// Appends a position (a point, `w` one) and its visibility flag.
    pub fn add_vertex(&mut self, x: i64, y: i64, z: i64)
        requires
            object_valid(*old(self)),
        ensures
            object_valid(*final(self)),
            final(self).vertices@ == old(self).vertices@.push(
                Vec4 { x, y, z, w: FX_ONE },
            ),
            final(self).vertices_viewvable@ == old(self).vertices_viewvable@.push(true),
            *final(self) == (Object {
                vertices: final(self).vertices,
                vertices_viewvable: final(self).vertices_viewvable,
                ..*old(self)
            }),
    {
        self.vertices.push(Vec4 { x, y, z, w: FX_ONE });
        self.vertices_viewvable.push(true);
        proof {
            assert(forall|i: int| 0 <= i < self.faces.len()
                ==> face_in_bounds(*old(self), #[trigger] self.faces@[i]));
        }
    }

    /// Appends a vertex normal (a direction, `w` zero).
    pub fn add_vertex_normal(&mut self, x: i64, y: i64, z: i64)
        requires
            object_valid(*old(self)),
        ensures
            object_valid(*final(self)),
            final(self).vertices_normals@ == old(self).vertices_normals@.push(
                Vec4 { x, y, z, w: 0 },
            ),
            *final(self) == (Object {
                vertices_normals: final(self).vertices_normals,
                ..*old(self)
            }),
    {
        self.vertices_normals.push(Vec4 { x, y, z, w: 0 });
        proof {
            assert(forall|i: int| 0 <= i < self.faces.len()
                ==> face_in_bounds(*old(self), #[trigger] self.faces@[i]));
        }
    }

    /// Appends a UV coordinate.
    pub fn add_texture_vertex(&mut self, x: i64, y: i64, z: i64)
        requires
            object_valid(*old(self)),
        ensures
            object_valid(*final(self)),
            final(self).texture_vertices@ == old(self).texture_vertices@.push(
                Vec4 { x, y, z, w: 0 },
            ),
            *final(self) == (Object {
                texture_vertices: final(self).texture_vertices,
                ..*old(self)
            }),
    {
        self.texture_vertices.push(Vec4 { x, y, z, w: 0 });
        proof {
            assert(forall|i: int| 0 <= i < self.faces.len()
                ==> face_in_bounds(*old(self), #[trigger] self.faces@[i]));
        }
    }

    /// Appends a face and fixes its unit normal from the first two edges;
    /// returns the face's index.
    pub fn add_face(
        &mut self,
        v0: usize, vt0: usize, vn0: usize,
        v1: usize, vt1: usize, vn1: usize,
        v2: usize, vt2: usize, vn2: usize,
    ) -> (idx: usize)
        requires
            object_valid(*old(self)),
            v0 < old(self).vertices.len(),
            v1 < old(self).vertices.len(),
            v2 < old(self).vertices.len(),
            vt0 < old(self).texture_vertices.len(),
            vt1 < old(self).texture_vertices.len(),
            vt2 < old(self).texture_vertices.len(),
            vn0 < old(self).vertices_normals.len(),
            vn1 < old(self).vertices_normals.len(),
            vn2 < old(self).vertices_normals.len(),
        ensures
            object_valid(*final(self)),
            idx == old(self).faces.len(),
            final(self).faces@ == old(self).faces@.push(
                spec_new_face(
                    *old(self),
                    v0 as int, vt0 as int, vn0 as int,
                    v1 as int, vt1 as int, vn1 as int,
                    v2 as int, vt2 as int, vn2 as int,
                ),
            ),
            *final(self) == (Object { faces: final(self).faces, ..*old(self) }),
    {
        let a = self.vertices[v1].sub(self.vertices[v0]);
        let b = self.vertices[v2].sub(self.vertices[v0]);
        let face = Face {
            vertices_indexes: Idx3 { i0: v0, i1: v1, i2: v2 },
            texture_vertices_indexes: Idx3 { i0: vt0, i1: vt1, i2: vt2 },
            vertices_normals_indexes: Idx3 { i0: vn0, i1: vn1, i2: vn2 },
            normal: a.cross3(b).normalize3(),
        };
        let idx = self.faces.len();
        self.faces.push(face);
        proof {
            assert(forall|i: int| 0 <= i < old(self).faces.len()
                ==> face_in_bounds(*old(self), #[trigger] old(self).faces@[i]));
            assert(forall|i: int| 0 <= i < self.faces.len()
                ==> face_in_bounds(*self, #[trigger] self.faces@[i]));
        }
        idx
    }

    /// Replaces the rotation matrix from Euler angles in fixed-point radians.
    pub fn set_rotation(&mut self, angle_x: i64, angle_y: i64, angle_z: i64)
        requires
            object_valid(*old(self)),
        ensures
            object_valid(*final(self)),
            final(self).rotation_matrix == spec_rotation_matrix(
                angle_x as int,
                angle_y as int,
                angle_z as int,
            ),
            *final(self) == (Object {
                rotation_matrix: final(self).rotation_matrix,
                ..*old(self)
            }),
    {
        let sinx = fx_sin(angle_x);
        let cosx = fx_cos(angle_x);
        let siny = fx_sin(angle_y);
        let cosy = fx_cos(angle_y);
        let sinz = fx_sin(angle_z);
        let cosz = fx_cos(angle_z);
        let rx = Mat4 {
            r0: Vec4 { x: FX_ONE, y: 0, z: 0, w: 0 },
            r1: Vec4 { x: 0, y: cosx, z: fx_neg(sinx), w: 0 },
            r2: Vec4 { x: 0, y: sinx, z: cosx, w: 0 },
            r3: Vec4 { x: 0, y: 0, z: 0, w: FX_ONE },
        };
        let ry = Mat4 {
            r0: Vec4 { x: cosy, y: 0, z: siny, w: 0 },
            r1: Vec4 { x: 0, y: FX_ONE, z: 0, w: 0 },
            r2: Vec4 { x: fx_neg(siny), y: 0, z: cosy, w: 0 },
            r3: Vec4 { x: 0, y: 0, z: 0, w: FX_ONE },
        };
        let rz = Mat4 {
            r0: Vec4 { x: cosz, y: fx_neg(sinz), z: 0, w: 0 },
            r1: Vec4 { x: sinz, y: cosz, z: 0, w: 0 },
            r2: Vec4 { x: 0, y: 0, z: FX_ONE, w: 0 },
            r3: Vec4 { x: 0, y: 0, z: 0, w: FX_ONE },
        };
        self.rotation_matrix = rx.matmul(ry).matmul(rz);
    }

    /// Replaces the scale matrix (and the remembered scalar).
    pub fn set_scale(&mut self, scale: i64)
        requires
            object_valid(*old(self)),
        ensures
            object_valid(*final(self)),
            final(self).scale_matrix == spec_scale_matrix(scale as int),
            final(self).scale_value == scale,
            *final(self) == (Object {
                scale_matrix: final(self).scale_matrix,
                scale_value: scale,
                ..*old(self)
            }),
    {
        self.scale_matrix = Mat4 {
            r0: Vec4 { x: scale, y: 0, z: 0, w: 0 },
            r1: Vec4 { x: 0, y: scale, z: 0, w: 0 },
            r2: Vec4 { x: 0, y: 0, z: scale, w: 0 },
            r3: Vec4 { x: 0, y: 0, z: 0, w: FX_ONE },
        };
        self.scale_value = scale;
    }

    /// Replaces the translation matrix (and the remembered offset).
    pub fn set_translaiton(&mut self, x: i64, y: i64, z: i64)
        requires
            object_valid(*old(self)),
        ensures
            object_valid(*final(self)),
            final(self).translation_matrix == spec_translation_matrix(
                x as int,
                y as int,
                z as int,
            ),
            final(self).translation == (Vec4 { x, y, z, w: 0 }),
            *final(self) == (Object {
                translation_matrix: final(self).translation_matrix,
                translation: final(self).translation,
                ..*old(self)
            }),
    {
        self.translation_matrix = Mat4 {
            r0: Vec4 { x: FX_ONE, y: 0, z: 0, w: x },
            r1: Vec4 { x: 0, y: FX_ONE, z: 0, w: y },
            r2: Vec4 { x: 0, y: 0, z: FX_ONE, w: z },
            r3: Vec4 { x: 0, y: 0, z: 0, w: FX_ONE },
        };
        self.translation = Vec4 { x, y, z, w: 0 };
    }

    /// Sets the flat color from byte channels, normalized to [0, 1].
    pub fn set_color(&mut self, r: u8, g: u8, b: u8)
        requires
            object_valid(*old(self)),
        ensures
            object_valid(*final(self)),
            final(self).model_color == (Color::<i64> {
                r: spec_channel_unit(r as int) as i64,
                g: spec_channel_unit(g as int) as i64,
                b: spec_channel_unit(b as int) as i64,
            }),
            *final(self) == (Object { model_color: final(self).model_color, ..*old(self) }),
    {
        let full = fx_from_int(255);
        self.model_color = Color {
            r: fx_div(fx_from_int(r as i64), full),
            g: fx_div(fx_from_int(g as i64), full),
            b: fx_div(fx_from_int(b as i64), full),
        };
    }

    pub fn set_ambient(&mut self, r: i64, g: i64, b: i64)
        requires
            object_valid(*old(self)),
        ensures
            object_valid(*final(self)),
            final(self).ambient == (Color::<i64> { r, g, b }),
            *final(self) == (Object { ambient: final(self).ambient, ..*old(self) }),
    {
        self.ambient = Color { r, g, b };
    }

    pub fn set_diffuse(&mut self, r: i64, g: i64, b: i64)
        requires
            object_valid(*old(self)),
        ensures
            object_valid(*final(self)),
            final(self).diffuse_intensity == (Color::<i64> { r, g, b }),
            *final(self) == (Object {
                diffuse_intensity: final(self).diffuse_intensity,
                ..*old(self)
            }),
    {
        self.diffuse_intensity = Color { r, g, b };
    }

    pub fn set_specular(&mut self, r: i64, g: i64, b: i64)
        requires
            object_valid(*old(self)),
        ensures
            object_valid(*final(self)),
            final(self).specular == (Color::<i64> { r, g, b }),
            *final(self) == (Object { specular: final(self).specular, ..*old(self) }),
    {
        self.specular = Color { r, g, b };
    }

    /// Declares one texture slot's size: 1 diffuse, 2 normal (with its
    /// decoded grid), 3 specular (with its coefficient grid), 4 emission;
    /// other ids are ignored.
    pub fn set_texture_size(&mut self, texture_index: usize, width: usize, height: usize)
        requires
            object_valid(*old(self)),
            width as int * height as int <= usize::MAX as int,
        ensures
            object_valid(*final(self)),
            texture_index == 1 ==> *final(self) == (Object {
                diffuse_texture: final(self).diffuse_texture,
                ..*old(self)
            }) && final(self).diffuse_texture.width == width
                && final(self).diffuse_texture.height == height,
            texture_index == 2 ==> *final(self) == (Object {
                normal_texture_data: final(self).normal_texture_data,
                normal_texture_normals: final(self).normal_texture_normals,
                ..*old(self)
            }) && final(self).normal_texture_data.width == width
                && final(self).normal_texture_data.height == height
                && final(self).normal_texture_normals.width == width
                && final(self).normal_texture_normals.height == height,
            texture_index == 3 ==> *final(self) == (Object {
                specular_texture_data: final(self).specular_texture_data,
                specular_texture_coeff: final(self).specular_texture_coeff,
                ..*old(self)
            }) && final(self).specular_texture_data.width == width
                && final(self).specular_texture_data.height == height,
            texture_index == 4 ==> *final(self) == (Object {
                emission_texture: final(self).emission_texture,
                ..*old(self)
            }) && final(self).emission_texture.width == width
                && final(self).emission_texture.height == height,
            !(1 <= texture_index <= 4) ==> *final(self) == *old(self),
    {
        let white = Pixel { color: crate::types::white_color(), a: 0 };
        if texture_index == 1 {
            self.diffuse_texture.set_size(width, height, white);
        } else if texture_index == 2 {
            self.normal_texture_data.set_size(width, height, white);
            self.normal_texture_normals.set_size(
                width,
                height,
                Vec4 { x: FX_ONE, y: FX_ONE, z: FX_ONE, w: FX_ONE },
            );
        } else if texture_index == 3 {
            self.specular_texture_data.set_size(width, height, white);
            self.specular_texture_coeff.set_size(
                width,
                height,
                Color { r: FX_ONE, g: FX_ONE, b: FX_ONE },
            );
        } else if texture_index == 4 {
            self.emission_texture.set_size(width, height, white);
        }
    }

    /// The raw pixel grid of an uploadable texture slot; unknown slots have
    /// none.
    pub fn get_texture_pixels(&self, texture_index: usize) -> (r: Option<&Vec<Pixel>>)
        ensures
            texture_index == 1 ==> r == Some(&self.diffuse_texture.data),
            texture_index == 2 ==> r == Some(&self.normal_texture_data.data),
            texture_index == 3 ==> r == Some(&self.specular_texture_data.data),
            texture_index == 4 ==> r == Some(&self.emission_texture.data),
            !(1 <= texture_index <= 4) ==> r is None,
    {
        if texture_index == 1 {
            Some(self.diffuse_texture.get_data_pointer())
        } else if texture_index == 2 {
            Some(self.normal_texture_data.get_data_pointer())
        } else if texture_index == 3 {
            Some(self.specular_texture_data.get_data_pointer())
        } else if texture_index == 4 {
            Some(self.emission_texture.get_data_pointer())
        } else {
            None
        }
    }

    /// Decodes every uploaded normal-map texel into a signed direction.
    pub fn normalize_normal_texture(&mut self)
        requires
            object_valid(*old(self)),
        ensures
            object_valid(*final(self)),
            final(self).normal_texture_normals.data.len()
                == old(self).normal_texture_normals.data.len(),
            forall|i: int| 0 <= i < final(self).normal_texture_normals.data.len()
                ==> final(self).normal_texture_normals.data@[i]
                    == spec_decode_normal(#[trigger] old(self).normal_texture_data.data@[i]),
            *final(self) == (Object {
                normal_texture_normals: final(self).normal_texture_normals,
                ..*old(self)
            }),
            final(self).normal_texture_normals.width
                == old(self).normal_texture_normals.width,
            final(self).normal_texture_normals.height
                == old(self).normal_texture_normals.height,
    {
        let n = self.normal_texture_data.data.len();
        let mut i: usize = 0;
        while i < n
            invariant
                object_valid(*old(self)),
                n == old(self).normal_texture_data.data.len(),
                i <= n,
                *self == (Object {
                    normal_texture_normals: self.normal_texture_normals,
                    ..*old(self)
                }),
                self.normal_texture_normals.width == old(self).normal_texture_normals.width,
                self.normal_texture_normals.height == old(self).normal_texture_normals.height,
                self.normal_texture_normals.data.len()
                    == old(self).normal_texture_normals.data.len(),
                forall|j: int| 0 <= j < i ==> self.normal_texture_normals.data@[j]
                    == spec_decode_normal(#[trigger] old(self).normal_texture_data.data@[j]),
            decreases n - i,
        {
            let p: Pixel = self.normal_texture_data.data[i];
            let full = fx_from_int(255);
            let two = 2 * FX_ONE;
            let decoded = Vec4 {
                x: fx_sub(fx_mul(fx_div(fx_from_int(p.color.r as i64), full), two), FX_ONE),
                y: fx_sub(fx_mul(fx_div(fx_from_int(p.color.g as i64), full), two), FX_ONE),
                z: fx_sub(fx_mul(fx_div(fx_from_int(p.color.b as i64), full), two), FX_ONE),
                w: 0,
            };
            self.normal_texture_normals.data.set(i, decoded);
            i = i + 1;
        }
    }

    /// Decodes every uploaded specular texel into per-channel coefficients.
    pub fn normalize_specular_texture(&mut self)
        requires
            object_valid(*old(self)),
        ensures
            object_valid(*final(self)),
            final(self).specular_texture_coeff.data.len()
                == old(self).specular_texture_coeff.data.len(),
            forall|i: int| 0 <= i < final(self).specular_texture_coeff.data.len()
                ==> final(self).specular_texture_coeff.data@[i]
                    == spec_decode_specular(#[trigger] old(self).specular_texture_data.data@[i]),
            *final(self) == (Object {
                specular_texture_coeff: final(self).specular_texture_coeff,
                ..*old(self)
            }),
            final(self).specular_texture_coeff.width
                == old(self).specular_texture_coeff.width,
            final(self).specular_texture_coeff.height
                == old(self).specular_texture_coeff.height,
    {
        let n = self.specular_texture_data.data.len();
        let mut i: usize = 0;
        while i < n
            invariant
                object_valid(*old(self)),
                n == old(self).specular_texture_data.data.len(),
                i <= n,
                *self == (Object {
                    specular_texture_coeff: self.specular_texture_coeff,
                    ..*old(self)
                }),
                self.specular_texture_coeff.width == old(self).specular_texture_coeff.width,
                self.specular_texture_coeff.height == old(self).specular_texture_coeff.height,
                self.specular_texture_coeff.data.len()
                    == old(self).specular_texture_coeff.data.len(),
                forall|j: int| 0 <= j < i ==> self.specular_texture_coeff.data@[j]
                    == spec_decode_specular(#[trigger] old(self).specular_texture_data.data@[j]),
            decreases n - i,
        {
            let p: Pixel = self.specular_texture_data.data[i];
            let full = fx_from_int(255);
            let decoded = Color {
                r: fx_div(fx_from_int(p.color.r as i64), full),
                g: fx_div(fx_from_int(p.color.g as i64), full),
                b: fx_div(fx_from_int(p.color.b as i64), full),
            };
            self.specular_texture_coeff.data.set(i, decoded);
            i = i + 1;
        }
    }
}

} // verus!
