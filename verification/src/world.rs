//! The scene: an ordered collection of objects, one directional light and a
//! background color, behind handle-checked mutators.
//!
//! A mutator with an out-of-range handle changes nothing; one with a valid
//! handle changes exactly that object, as the object's own contract says.

use vstd::prelude::*;
use vstd::pervasive::VecAdditionalExecFns;
use crate::fx::FX_ONE;
use crate::linalg::{Vec4, spec_normalize3};
use crate::object::{
    Object, object_is_default, object_valid, spec_channel_unit, spec_decode_normal,
    spec_new_face, spec_rotation_matrix, spec_scale_matrix, spec_translation_matrix,
};
use crate::types::{Color, Pixel};

verus! {

pub struct World {
    pub objects: Vec<Object>,
    pub direct_light_direction: Vec4,
    pub direct_light_color: Color<i64>,
    pub background_light_color: Color<i64>,
}

/// Every object of the scene is internally consistent.
pub open spec fn world_valid(w: World) -> bool {
    forall|i: int| 0 <= i < w.objects.len() ==> object_valid(#[trigger] w.objects@[i])
}

/// A scene is unchanged up to the contents of its object store.
pub open spec fn world_unchanged(w0: World, w1: World) -> bool {
    &&& w1.objects@ == w0.objects@
    &&& w1.direct_light_direction == w0.direct_light_direction
    &&& w1.direct_light_color == w0.direct_light_color
    &&& w1.background_light_color == w0.background_light_color
}

/// The parts of a scene one mutation leaves alone: every other object, and
/// the light and background settings.
pub open spec fn world_updated_at(w0: World, w1: World, h: int) -> bool {
    &&& w1.objects.len() == w0.objects.len()
    &&& forall|i: int| 0 <= i < w0.objects.len() && i != h
        ==> #[trigger] w1.objects@[i] == w0.objects@[i]
    &&& w1.direct_light_direction == w0.direct_light_direction
    &&& w1.direct_light_color == w0.direct_light_color
    &&& w1.background_light_color == w0.background_light_color
}

/// The default directional light: the unit diagonal pointing down and away.
pub open spec fn spec_default_light_direction() -> Vec4 {
    spec_normalize3(Vec4 { x: -0x10000i64, y: -0x10000i64, z: -0x10000i64, w: 0 })
}

impl World {
    pub fn new() -> (r: World)
        ensures
            r.objects.len() == 0,
            r.direct_light_direction == spec_default_light_direction(),
            r.direct_light_color == (Color::<i64> { r: FX_ONE, g: FX_ONE, b: FX_ONE }),
            r.background_light_color == (Color::<i64> { r: FX_ONE, g: FX_ONE, b: FX_ONE }),
            world_valid(r),
    {
        World {
            objects: Vec::new(),
            direct_light_direction: Vec4 {
                x: -FX_ONE,
                y: -FX_ONE,
                z: -FX_ONE,
                w: 0,
            }.normalize3(),
            direct_light_color: Color { r: FX_ONE, g: FX_ONE, b: FX_ONE },
            background_light_color: Color { r: FX_ONE, g: FX_ONE, b: FX_ONE },
        }
    }

    /// A handle names an object that exists.
    pub open spec fn spec_handle_exists(&self, object_handle: int) -> bool {
        object_handle < self.objects.len()
    }

    fn is_handle_exist(&self, object_handle: usize) -> (r: bool)
        ensures
            r == self.spec_handle_exists(object_handle as int),
    {
        object_handle < self.objects.len()
    }

    /// Appends a fresh object and returns its handle.
    pub fn new_object(&mut self) -> (handle: u32)
        requires
            world_valid(*old(self)),
            old(self).objects.len() < u32::MAX,
        ensures
            world_valid(*final(self)),
            final(self).objects.len() == old(self).objects.len() + 1,
            handle as int == old(self).objects.len(),
            forall|i: int| 0 <= i < old(self).objects.len()
                ==> #[trigger] final(self).objects@[i] == old(self).objects@[i],
            object_is_default(final(self).objects@[handle as int]),
            object_valid(final(self).objects@[handle as int]),
            final(self).direct_light_direction == old(self).direct_light_direction,
            final(self).direct_light_color == old(self).direct_light_color,
            final(self).background_light_color == old(self).background_light_color,
    {
        let obj = Object::new();
        self.objects.push(obj);
        (self.objects.len() - 1) as u32
    }

    pub fn add_object_vertex(&mut self, object_handle: usize, x: i64, y: i64, z: i64)
        requires
            world_valid(*old(self)),
        ensures
            world_valid(*final(self)),
            !old(self).spec_handle_exists(object_handle as int)
                ==> *final(self) == *old(self),
            old(self).spec_handle_exists(object_handle as int) ==> {
                &&& world_updated_at(*old(self), *final(self), object_handle as int)
                &&& final(self).objects@[object_handle as int].vertices@
                    == old(self).objects@[object_handle as int].vertices@.push(
                        Vec4 { x, y, z, w: FX_ONE },
                    )
                &&& final(self).objects@[object_handle as int].vertices_viewvable@
                    == old(self).objects@[object_handle as int].vertices_viewvable@.push(true)
                &&& final(self).objects@[object_handle as int] == (Object {
                    vertices: final(self).objects@[object_handle as int].vertices,
                    vertices_viewvable:
                        final(self).objects@[object_handle as int].vertices_viewvable,
                    ..old(self).objects@[object_handle as int]
                })
            },
    {
        if !self.is_handle_exist(object_handle) {
            return ;
        }
        let mut obj = Object::new();
        self.objects.set_and_swap(object_handle, &mut obj);
        obj.add_vertex(x, y, z);
        self.objects.set_and_swap(object_handle, &mut obj);
    }

    pub fn add_object_vertex_normal(&mut self, object_handle: usize, x: i64, y: i64, z: i64)
        requires
            world_valid(*old(self)),
        ensures
            world_valid(*final(self)),
            !old(self).spec_handle_exists(object_handle as int)
                ==> *final(self) == *old(self),
            old(self).spec_handle_exists(object_handle as int) ==> {
                &&& world_updated_at(*old(self), *final(self), object_handle as int)
                &&& final(self).objects@[object_handle as int].vertices_normals@
                    == old(self).objects@[object_handle as int].vertices_normals@.push(
                        Vec4 { x, y, z, w: 0 },
                    )
                &&& final(self).objects@[object_handle as int] == (Object {
                    vertices_normals:
                        final(self).objects@[object_handle as int].vertices_normals,
                    ..old(self).objects@[object_handle as int]
                })
            },
    {
        if !self.is_handle_exist(object_handle) {
            return ;
        }
        let mut obj = Object::new();
        self.objects.set_and_swap(object_handle, &mut obj);
        obj.add_vertex_normal(x, y, z);
        self.objects.set_and_swap(object_handle, &mut obj);
    }

    pub fn add_object_texture_vertex(&mut self, object_handle: usize, x: i64, y: i64, z: i64)
        requires
            world_valid(*old(self)),
        ensures
            world_valid(*final(self)),
            !old(self).spec_handle_exists(object_handle as int)
                ==> *final(self) == *old(self),
            old(self).spec_handle_exists(object_handle as int) ==> {
                &&& world_updated_at(*old(self), *final(self), object_handle as int)
                &&& final(self).objects@[object_handle as int].texture_vertices@
                    == old(self).objects@[object_handle as int].texture_vertices@.push(
                        Vec4 { x, y, z, w: 0 },
                    )
                &&& final(self).objects@[object_handle as int] == (Object {
                    texture_vertices:
                        final(self).objects@[object_handle as int].texture_vertices,
                    ..old(self).objects@[object_handle as int]
                })
            },
    {
        if !self.is_handle_exist(object_handle) {
            return ;
        }
        let mut obj = Object::new();
        self.objects.set_and_swap(object_handle, &mut obj);
        obj.add_texture_vertex(x, y, z);
        self.objects.set_and_swap(object_handle, &mut obj);
    }

    /// Appends a face if the handle and all nine indices are in range;
    /// otherwise the scene is unchanged.
    pub fn add_object_face(
        &mut self,
        object_handle: usize,
        v0: usize, vt0: usize, vn0: usize,
        v1: usize, vt1: usize, vn1: usize,
        v2: usize, vt2: usize, vn2: usize,
    )
        requires
            world_valid(*old(self)),
        ensures
            world_valid(*final(self)),
            !(old(self).spec_handle_exists(object_handle as int)
                && face_indices_in_range(
                    old(self).objects@[object_handle as int],
                    v0 as int, vt0 as int, vn0 as int,
                    v1 as int, vt1 as int, vn1 as int,
                    v2 as int, vt2 as int, vn2 as int,
                )) ==> world_unchanged(*old(self), *final(self)),
            old(self).spec_handle_exists(object_handle as int)
                && face_indices_in_range(
                    old(self).objects@[object_handle as int],
                    v0 as int, vt0 as int, vn0 as int,
                    v1 as int, vt1 as int, vn1 as int,
                    v2 as int, vt2 as int, vn2 as int,
                ) ==> {
                &&& world_updated_at(*old(self), *final(self), object_handle as int)
                &&& final(self).objects@[object_handle as int].faces@
                    == old(self).objects@[object_handle as int].faces@.push(
                        spec_new_face(
                            old(self).objects@[object_handle as int],
                            v0 as int, vt0 as int, vn0 as int,
                            v1 as int, vt1 as int, vn1 as int,
                            v2 as int, vt2 as int, vn2 as int,
                        ),
                    )
                &&& final(self).objects@[object_handle as int] == (Object {
                    faces: final(self).objects@[object_handle as int].faces,
                    ..old(self).objects@[object_handle as int]
                })
            },
    {
        if !self.is_handle_exist(object_handle) {
            return ;
        }
        let mut obj = Object::new();
        self.objects.set_and_swap(object_handle, &mut obj);
        let nv = obj.vertices.len();
        let nt = obj.texture_vertices.len();
        let nn = obj.vertices_normals.len();
        if v0 < nv && v1 < nv && v2 < nv && vt0 < nt && vt1 < nt && vt2 < nt && vn0 < nn && vn1
            < nn && vn2 < nn {
            obj.add_face(v0, vt0, vn0, v1, vt1, vn1, v2, vt2, vn2);
        }
        self.objects.set_and_swap(object_handle, &mut obj);
        proof {
            if !face_indices_in_range(
                old(self).objects@[object_handle as int],
                v0 as int, vt0 as int, vn0 as int,
                v1 as int, vt1 as int, vn1 as int,
                v2 as int, vt2 as int, vn2 as int,
            ) {
                assert(self.objects@ =~= old(self).objects@);
            }
        }
    }

    pub fn set_object_rotation(
        &mut self,
        object_handle: usize,
        angle_x: i64,
        angle_y: i64,
        angle_z: i64,
    )
        requires
            world_valid(*old(self)),
        ensures
            world_valid(*final(self)),
            !old(self).spec_handle_exists(object_handle as int)
                ==> *final(self) == *old(self),
            old(self).spec_handle_exists(object_handle as int) ==> {
                &&& world_updated_at(*old(self), *final(self), object_handle as int)
                &&& final(self).objects@[object_handle as int] == (Object {
                    rotation_matrix: spec_rotation_matrix(
                        angle_x as int,
                        angle_y as int,
                        angle_z as int,
                    ),
                    ..old(self).objects@[object_handle as int]
                })
            },
    {
        if !self.is_handle_exist(object_handle) {
            return ;
        }
        let mut obj = Object::new();
        self.objects.set_and_swap(object_handle, &mut obj);
        obj.set_rotation(angle_x, angle_y, angle_z);
        self.objects.set_and_swap(object_handle, &mut obj);
    }

    pub fn set_object_scale(&mut self, object_handle: usize, scale: i64)
        requires
            world_valid(*old(self)),
        ensures
            world_valid(*final(self)),
            !old(self).spec_handle_exists(object_handle as int)
                ==> *final(self) == *old(self),
            old(self).spec_handle_exists(object_handle as int) ==> {
                &&& world_updated_at(*old(self), *final(self), object_handle as int)
                &&& final(self).objects@[object_handle as int] == (Object {
                    scale_matrix: spec_scale_matrix(scale as int),
                    scale_value: scale,
                    ..old(self).objects@[object_handle as int]
                })
            },
    {
        if !self.is_handle_exist(object_handle) {
            return ;
        }
        let mut obj = Object::new();
        self.objects.set_and_swap(object_handle, &mut obj);
        obj.set_scale(scale);
        self.objects.set_and_swap(object_handle, &mut obj);
    }

    pub fn set_object_translaiton(&mut self, object_handle: usize, x: i64, y: i64, z: i64)
        requires
            world_valid(*old(self)),
        ensures
            world_valid(*final(self)),
            !old(self).spec_handle_exists(object_handle as int)
                ==> *final(self) == *old(self),
            old(self).spec_handle_exists(object_handle as int) ==> {
                &&& world_updated_at(*old(self), *final(self), object_handle as int)
                &&& final(self).objects@[object_handle as int] == (Object {
                    translation_matrix: spec_translation_matrix(x as int, y as int, z as int),
                    translation: (Vec4 { x, y, z, w: 0 }),
                    ..old(self).objects@[object_handle as int]
                })
            },
    {
        if !self.is_handle_exist(object_handle) {
            return ;
        }
        let mut obj = Object::new();
        self.objects.set_and_swap(object_handle, &mut obj);
        obj.set_translaiton(x, y, z);
        self.objects.set_and_swap(object_handle, &mut obj);
    }

    pub fn set_object_color(&mut self, object_handle: usize, r: u8, g: u8, b: u8)
        requires
            world_valid(*old(self)),
        ensures
            world_valid(*final(self)),
            !old(self).spec_handle_exists(object_handle as int)
                ==> *final(self) == *old(self),
            old(self).spec_handle_exists(object_handle as int) ==> {
                &&& world_updated_at(*old(self), *final(self), object_handle as int)
                &&& final(self).objects@[object_handle as int] == (Object {
                    model_color: (Color::<i64> {
                        r: spec_channel_unit(r as int) as i64,
                        g: spec_channel_unit(g as int) as i64,
                        b: spec_channel_unit(b as int) as i64,
                    }),
                    ..old(self).objects@[object_handle as int]
                })
            },
    {
        if !self.is_handle_exist(object_handle) {
            return ;
        }
        let mut obj = Object::new();
        self.objects.set_and_swap(object_handle, &mut obj);
        obj.set_color(r, g, b);
        self.objects.set_and_swap(object_handle, &mut obj);
    }

    pub fn set_object_texture_size(
        &mut self,
        object_handle: usize,
        texture_index: usize,
        width: usize,
        height: usize,
    )
        requires
            world_valid(*old(self)),
            width as int * height as int <= usize::MAX as int,
        ensures
            world_valid(*final(self)),
            !old(self).spec_handle_exists(object_handle as int)
                ==> *final(self) == *old(self),
            old(self).spec_handle_exists(object_handle as int)
                ==> world_updated_at(*old(self), *final(self), object_handle as int),
            old(self).spec_handle_exists(object_handle as int) && texture_index == 1 ==> {
                &&& final(self).objects@[object_handle as int] == (Object {
                    diffuse_texture: final(self).objects@[object_handle as int].diffuse_texture,
                    ..old(self).objects@[object_handle as int]
                })
                &&& final(self).objects@[object_handle as int].diffuse_texture.width == width
                &&& final(self).objects@[object_handle as int].diffuse_texture.height == height
            },
            old(self).spec_handle_exists(object_handle as int) && texture_index == 2 ==> {
                &&& final(self).objects@[object_handle as int] == (Object {
                    normal_texture_data:
                        final(self).objects@[object_handle as int].normal_texture_data,
                    normal_texture_normals:
                        final(self).objects@[object_handle as int].normal_texture_normals,
                    ..old(self).objects@[object_handle as int]
                })
                &&& final(self).objects@[object_handle as int].normal_texture_data.width == width
                &&& final(self).objects@[object_handle as int].normal_texture_data.height
                    == height
                &&& final(self).objects@[object_handle as int].normal_texture_normals.width
                    == width
                &&& final(self).objects@[object_handle as int].normal_texture_normals.height
                    == height
            },
            old(self).spec_handle_exists(object_handle as int) && texture_index == 3 ==> {
                &&& final(self).objects@[object_handle as int] == (Object {
                    specular_texture_data:
                        final(self).objects@[object_handle as int].specular_texture_data,
                    specular_texture_coeff:
                        final(self).objects@[object_handle as int].specular_texture_coeff,
                    ..old(self).objects@[object_handle as int]
                })
                &&& final(self).objects@[object_handle as int].specular_texture_data.width
                    == width
                &&& final(self).objects@[object_handle as int].specular_texture_data.height
                    == height
            },
            old(self).spec_handle_exists(object_handle as int) && texture_index == 4 ==> {
                &&& final(self).objects@[object_handle as int] == (Object {
                    emission_texture: final(self).objects@[object_handle as int].emission_texture,
                    ..old(self).objects@[object_handle as int]
                })
                &&& final(self).objects@[object_handle as int].emission_texture.width == width
                &&& final(self).objects@[object_handle as int].emission_texture.height == height
            },
            old(self).spec_handle_exists(object_handle as int) && !(1 <= texture_index <= 4)
                ==> world_unchanged(*old(self), *final(self)),
    {
        if !self.is_handle_exist(object_handle) {
            return ;
        }
        let mut obj = Object::new();
        self.objects.set_and_swap(object_handle, &mut obj);
        obj.set_texture_size(texture_index, width, height);
        self.objects.set_and_swap(object_handle, &mut obj);
        proof {
            if !(1 <= texture_index <= 4) {
                assert(self.objects@ =~= old(self).objects@);
            }
        }
    }

    /// Toggles one texture slot; enabling the normal map also decodes it.
    pub fn set_object_use_texture(&mut self, object_handle: usize, texture_index: usize, value: bool)
        requires
            world_valid(*old(self)),
        ensures
            world_valid(*final(self)),
            !old(self).spec_handle_exists(object_handle as int)
                ==> *final(self) == *old(self),
            old(self).spec_handle_exists(object_handle as int)
                ==> world_updated_at(*old(self), *final(self), object_handle as int),
            old(self).spec_handle_exists(object_handle as int) && texture_index == 1 ==> {
                final(self).objects@[object_handle as int] == (Object {
                    use_diffuse_texture: value,
                    ..old(self).objects@[object_handle as int]
                })
            },
            old(self).spec_handle_exists(object_handle as int) && texture_index == 3 ==> {
                final(self).objects@[object_handle as int] == (Object {
                    use_specular_texture: value,
                    ..old(self).objects@[object_handle as int]
                })
            },
            old(self).spec_handle_exists(object_handle as int) && texture_index == 4 ==> {
                final(self).objects@[object_handle as int] == (Object {
                    use_emission_texture: value,
                    ..old(self).objects@[object_handle as int]
                })
            },
            old(self).spec_handle_exists(object_handle as int) && texture_index == 2 ==> {
                &&& final(self).objects@[object_handle as int].use_normal_texture == value
                &&& final(self).objects@[object_handle as int] == (Object {
                    use_normal_texture: value,
                    normal_texture_normals:
                        final(self).objects@[object_handle as int].normal_texture_normals,
                    ..old(self).objects@[object_handle as int]
                })
                &&& !value ==> final(self).objects@[object_handle as int].normal_texture_normals
                    == old(self).objects@[object_handle as int].normal_texture_normals
                &&& value ==> {
                    &&& final(self).objects@[object_handle as int].normal_texture_normals.width
                        == old(self).objects@[object_handle as int].normal_texture_normals.width
                    &&& final(self).objects@[object_handle as int].normal_texture_normals.height
                        == old(self).objects@[
                            object_handle as int
                        ].normal_texture_normals.height
                    &&& final(self).objects@[
                        object_handle as int
                    ].normal_texture_normals.data.len() == old(self).objects@[
                        object_handle as int
                    ].normal_texture_normals.data.len()
                    &&& forall|i: int| 0 <= i < final(self).objects@[
                        object_handle as int
                    ].normal_texture_normals.data.len()
                        ==> final(self).objects@[
                            object_handle as int
                        ].normal_texture_normals.data@[i] == spec_decode_normal(
                            #[trigger] old(self).objects@[
                                object_handle as int
                            ].normal_texture_data.data@[i],
                        )
                }
            },
            old(self).spec_handle_exists(object_handle as int) && !(1 <= texture_index <= 4)
                ==> world_unchanged(*old(self), *final(self)),
    {
        if !self.is_handle_exist(object_handle) {
            return ;
        }
        let mut obj = Object::new();
        self.objects.set_and_swap(object_handle, &mut obj);
        if texture_index == 1 {
            obj.use_diffuse_texture = value;
        } else if texture_index == 2 {
            obj.use_normal_texture = value;
            if value {
                obj.normalize_normal_texture();
            }
        } else if texture_index == 3 {
            obj.use_specular_texture = value;
        } else if texture_index == 4 {
            obj.use_emission_texture = value;
        }
        self.objects.set_and_swap(object_handle, &mut obj);
        proof {
            if !(1 <= texture_index <= 4) {
                assert(self.objects@ =~= old(self).objects@);
            }
        }
    }

    /// The raw pixel grid of one object's texture slot; out-of-range handles
    /// and unknown slots have none.
    pub fn get_object_texture_pixels(
        &self,
        object_handle: usize,
        texture_index: usize,
    ) -> (r: Option<&Vec<Pixel>>)
        ensures
            !self.spec_handle_exists(object_handle as int) ==> r is None,
            self.spec_handle_exists(object_handle as int) && texture_index == 1
                ==> r == Some(&self.objects@[object_handle as int].diffuse_texture.data),
            self.spec_handle_exists(object_handle as int) && texture_index == 2
                ==> r == Some(&self.objects@[object_handle as int].normal_texture_data.data),
            self.spec_handle_exists(object_handle as int) && texture_index == 3
                ==> r == Some(&self.objects@[object_handle as int].specular_texture_data.data),
            self.spec_handle_exists(object_handle as int) && texture_index == 4
                ==> r == Some(&self.objects@[object_handle as int].emission_texture.data),
            self.spec_handle_exists(object_handle as int) && !(1 <= texture_index <= 4)
                ==> r is None,
    {
        if !self.is_handle_exist(object_handle) {
            return None;
        }
        let obj = &self.objects[object_handle];
        obj.get_texture_pixels(texture_index)
    }
}

/// All nine indices of a prospective face point into the object's arrays.
pub open spec fn face_indices_in_range(
    o: Object,
    v0: int, vt0: int, vn0: int,
    v1: int, vt1: int, vn1: int,
    v2: int, vt2: int, vn2: int,
) -> bool {
    &&& v0 < o.vertices.len() && v1 < o.vertices.len() && v2 < o.vertices.len()
    &&& vt0 < o.texture_vertices.len() && vt1 < o.texture_vertices.len()
        && vt2 < o.texture_vertices.len()
    &&& vn0 < o.vertices_normals.len() && vn1 < o.vertices_normals.len()
        && vn2 < o.vertices_normals.len()
}

} // verus!
