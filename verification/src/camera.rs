//! The camera: position, facing and up directions, integrated velocity and
//! angular-rate state, the derived look-at matrix and the fixed projection
//! matrix.
//!
//! `tick` is a pure function of the camera state, pinned exactly by
//! [`spec_camera_tick`]; `set_param` writes exactly one scalar for a known id
//! and leaves the state untouched for any other id.

use vstd::prelude::*;
use crate::fx::{FX_ONE, fx_div, fx_mul, fx_neg, fx_sub, spec_fx_div, spec_fx_mul, spec_fx_neg, spec_fx_sub};
use crate::fxmath::{fx_cos, fx_div_int, fx_sin, spec_fx_cos, spec_fx_sin};
use crate::fx::spec_div_trunc;
use crate::linalg::{
    Mat4, Vec4, spec_cross3, spec_mat_mul, spec_mat_vec_mul, spec_normalize3, spec_vec4_add,
    spec_vec4_neg, spec_vec4_sub,
};

verus! {

#[derive(Clone, Copy, PartialEq, Eq, Structural, Debug)]
pub struct Camera {
    pub fov: i64,
    pub aspect: i64,
    pub position: Vec4,
    pub world_up: Vec4,
    pub front: Vec4,
    pub look_at_matrix: Mat4,
    pub projection_matrix: Mat4,
    pub speed: Vec4,
    /// Pitch, yaw and scroll rates in the x, y and z components.
    pub rotation: Vec4,
}

/// The right/up/direction basis as rows, composed with a translation to the
/// camera: the look-at view matrix.
pub open spec fn spec_look_at(position: Vec4, target: Vec4, world_up: Vec4) -> Mat4 {
    let direction = spec_normalize3(spec_vec4_sub(position, target));
    let right = spec_normalize3(spec_cross3(world_up, direction));
    let up = spec_cross3(direction, right);
    let rud = (Mat4 {
        r0: Vec4 { x: right.x, y: right.y, z: right.z, w: 0 },
        r1: Vec4 { x: up.x, y: up.y, z: up.z, w: 0 },
        r2: Vec4 { x: direction.x, y: direction.y, z: direction.z, w: 0 },
        r3: Vec4 { x: 0, y: 0, z: 0, w: FX_ONE },
    });
    let translation = (Mat4 {
        r0: Vec4 { x: FX_ONE, y: 0, z: 0, w: spec_fx_neg(position.x as int) as i64 },
        r1: Vec4 { x: 0, y: FX_ONE, z: 0, w: spec_fx_neg(position.y as int) as i64 },
        r2: Vec4 { x: 0, y: 0, z: FX_ONE, w: spec_fx_neg(position.z as int) as i64 },
        r3: Vec4 { x: 0, y: 0, z: 0, w: FX_ONE },
    });
    spec_mat_mul(rud, translation)
}

/// The same basis as columns, used to carry camera-local motion and turning
/// into world space.
pub open spec fn spec_rud_columns(front: Vec4, world_up: Vec4) -> Mat4 {
    let direction = spec_vec4_neg(front);
    let right = spec_normalize3(spec_cross3(world_up, direction));
    let up = spec_cross3(direction, right);
    Mat4 {
        r0: Vec4 { x: right.x, y: up.x, z: direction.x, w: 0 },
        r1: Vec4 { x: right.y, y: up.y, z: direction.y, w: 0 },
        r2: Vec4 { x: right.z, y: up.z, z: direction.z, w: 0 },
        r3: Vec4 { x: 0, y: 0, z: 0, w: FX_ONE },
    }
}

/// The view matrix a camera state derives: looking from the position along
/// the front direction.
pub open spec fn spec_view_of(c: Camera) -> Mat4 {
    spec_look_at(c.position, spec_vec4_add(c.position, c.front), c.world_up)
}

/// Moving by a camera-local offset: the offset is carried through the basis
/// and added to the position, and the view matrix is rebuilt.
pub open spec fn spec_camera_move(c: Camera, on: Vec4) -> Camera {
    let carried = spec_mat_vec_mul(
        spec_rud_columns(c.front, c.world_up),
        Vec4 { x: on.x, y: on.y, z: on.z, w: 0 },
    );
    let moved = (Camera {
        position: spec_vec4_add(c.position, Vec4 { x: carried.x, y: carried.y, z: carried.z, w: 0 }),
        ..c
    });
    Camera { look_at_matrix: spec_view_of(moved), ..moved }
}

/// Turning by pitch/yaw rates: a spherical direction is built in the camera's
/// local basis, carried into world space as the new front, and the view
/// matrix is rebuilt.
pub open spec fn spec_camera_rotate(c: Camera, pitch: int, yaw: int) -> Camera {
    let desired = spec_normalize3(
        Vec4 {
            x: spec_fx_sin(yaw) as i64,
            y: spec_fx_neg(spec_fx_sin(pitch)) as i64,
            z: spec_fx_mul(spec_fx_cos(yaw), spec_fx_neg(spec_fx_cos(pitch))) as i64,
            w: 0,
        },
    );
    let carried = spec_mat_vec_mul(spec_rud_columns(c.front, c.world_up), desired);
    let turned = (Camera { front: Vec4 { x: carried.x, y: carried.y, z: carried.z, w: 0 }, ..c });
    Camera { look_at_matrix: spec_view_of(turned), ..turned }
}

/// One motion step: turn by the angular rates, then move by the velocity.
pub open spec fn spec_camera_tick(c: Camera) -> Camera {
    let turned = spec_camera_rotate(c, c.rotation.x as int, c.rotation.y as int);
    spec_camera_move(turned, turned.speed)
}

/// The symmetric perspective projection for a vertical field of view, aspect
/// ratio and near/far planes.
pub open spec fn spec_projection(fov: int, aspect: int, z_near: int, z_far: int) -> Mat4 {
    let half = spec_div_trunc(fov, 2);
    let t = spec_fx_div(spec_fx_sin(half), spec_fx_cos(half));
    let nf = spec_fx_sub(z_near, z_far);
    Mat4 {
        r0: Vec4 {
            x: spec_fx_div(FX_ONE as int, spec_fx_mul(aspect, t)) as i64,
            y: 0,
            z: 0,
            w: 0,
        },
        r1: Vec4 { x: 0, y: spec_fx_div(FX_ONE as int, t) as i64, z: 0, w: 0 },
        r2: Vec4 {
            x: 0,
            y: 0,
            z: spec_fx_div(z_far, nf) as i64,
            w: spec_fx_div(spec_fx_mul(z_near, z_far), nf) as i64,
        },
        r3: Vec4 { x: 0, y: 0, z: spec_fx_neg(FX_ONE as int) as i64, w: 0 },
    }
}

impl Camera {
    fn compute_look_at(position: Vec4, target: Vec4, world_up: Vec4) -> (r: Mat4)
        ensures
            r == spec_look_at(position, target, world_up),
    {
        let direction = position.sub(target).normalize3();
        let right = world_up.cross3(direction).normalize3();
        let up = direction.cross3(right);
        let rud = Mat4 {
            r0: Vec4 { x: right.x, y: right.y, z: right.z, w: 0 },
            r1: Vec4 { x: up.x, y: up.y, z: up.z, w: 0 },
            r2: Vec4 { x: direction.x, y: direction.y, z: direction.z, w: 0 },
            r3: Vec4 { x: 0, y: 0, z: 0, w: FX_ONE },
        };
        let translation = Mat4 {
            r0: Vec4 { x: FX_ONE, y: 0, z: 0, w: fx_neg(position.x) },
            r1: Vec4 { x: 0, y: FX_ONE, z: 0, w: fx_neg(position.y) },
            r2: Vec4 { x: 0, y: 0, z: FX_ONE, w: fx_neg(position.z) },
            r3: Vec4 { x: 0, y: 0, z: 0, w: FX_ONE },
        };
        rud.matmul(translation)
    }

    fn compute_projection_matrix(fov: i64, aspect_ration: i64, z_near: i64, z_far: i64) -> (r:
        Mat4)
        ensures
            r == spec_projection(fov as int, aspect_ration as int, z_near as int, z_far as int),
    {
        let half = fx_div_int(fov, 2);
        let t = fx_div(fx_sin(half), fx_cos(half));
        let nf = fx_sub(z_near, z_far);
        Mat4 {
            r0: Vec4 { x: fx_div(FX_ONE, fx_mul(aspect_ration, t)), y: 0, z: 0, w: 0 },
            r1: Vec4 { x: 0, y: fx_div(FX_ONE, t), z: 0, w: 0 },
            r2: Vec4 {
                x: 0,
                y: 0,
                z: fx_div(z_far, nf),
                w: fx_div(fx_mul(z_near, z_far), nf),
            },
            r3: Vec4 { x: 0, y: 0, z: fx_neg(FX_ONE), w: 0 },
        }
    }

    fn rud_columns(&self) -> (r: Mat4)
        ensures
            r == spec_rud_columns(self.front, self.world_up),
    {
        let direction = self.front.neg();
        let right = self.world_up.cross3(direction).normalize3();
        let up = direction.cross3(right);
        Mat4 {
            r0: Vec4 { x: right.x, y: up.x, z: direction.x, w: 0 },
            r1: Vec4 { x: right.y, y: up.y, z: direction.y, w: 0 },
            r2: Vec4 { x: right.z, y: up.z, z: direction.z, w: 0 },
            r3: Vec4 { x: 0, y: 0, z: 0, w: FX_ONE },
        }
    }

    fn update_look_at(&mut self)
        ensures
            *final(self) == (Camera { look_at_matrix: spec_view_of(*old(self)), ..*old(self) }),
    {
        self.look_at_matrix = Camera::compute_look_at(
            self.position,
            self.position.add(self.front),
            self.world_up,
        );
    }

    fn move_on(&mut self, on: Vec4)
        ensures
            *final(self) == spec_camera_move(*old(self), on),
    {
        let rud = self.rud_columns();
        let carried = rud.transform(Vec4 { x: on.x, y: on.y, z: on.z, w: 0 });
        self.position = self.position.add(Vec4 { x: carried.x, y: carried.y, z: carried.z, w: 0 });
        self.update_look_at();
    }

    fn rotate_on(&mut self, pitch: i64, yaw: i64)
        ensures
            *final(self) == spec_camera_rotate(*old(self), pitch as int, yaw as int),
    {
        let rud = self.rud_columns();
        let desired = Vec4 {
            x: fx_sin(yaw),
            y: fx_neg(fx_sin(pitch)),
            z: fx_mul(fx_cos(yaw), fx_neg(fx_cos(pitch))),
            w: 0,
        }.normalize3();
        let carried = rud.transform(desired);
        self.front = Vec4 { x: carried.x, y: carried.y, z: carried.z, w: 0 };
        self.update_look_at();
    }

    /// Writes one scalar of the velocity (ids 1, 2, 3; the third negated) or
    /// of the angular rates (ids 11, 12, 13); any other id changes nothing.
    pub fn set_param(&mut self, action_id: u32, action_value: i64)
        ensures
            action_id == 1 ==> *final(self) == (Camera {
                speed: (Vec4 { x: action_value, ..old(self).speed }),
                ..*old(self)
            }),
            action_id == 2 ==> *final(self) == (Camera {
                speed: (Vec4 { y: action_value, ..old(self).speed }),
                ..*old(self)
            }),
            action_id == 3 ==> *final(self) == (Camera {
                speed: (Vec4 { z: spec_fx_neg(action_value as int) as i64, ..old(self).speed }),
                ..*old(self)
            }),
            action_id == 11 ==> *final(self) == (Camera {
                rotation: (Vec4 { x: action_value, ..old(self).rotation }),
                ..*old(self)
            }),
            action_id == 12 ==> *final(self) == (Camera {
                rotation: (Vec4 { y: action_value, ..old(self).rotation }),
                ..*old(self)
            }),
            action_id == 13 ==> *final(self) == (Camera {
                rotation: (Vec4 { z: action_value, ..old(self).rotation }),
                ..*old(self)
            }),
            !(action_id == 1 || action_id == 2 || action_id == 3 || action_id == 11
                || action_id == 12 || action_id == 13) ==> *final(self) == *old(self),
    {
        if action_id == 1 {
            self.speed.x = action_value;
        } else if action_id == 2 {
            self.speed.y = action_value;
        } else if action_id == 3 {
            self.speed.z = fx_neg(action_value);
        } else if action_id == 11 {
            self.rotation.x = action_value;
        } else if action_id == 12 {
            self.rotation.y = action_value;
        } else if action_id == 13 {
            self.rotation.z = action_value;
        }
    }

    /// Integrates one frame of motion: turn by the angular rates, then move
    /// by the velocity; the view matrix is rebuilt along the way.
    pub fn tick(&mut self)
        ensures
            *final(self) == spec_camera_tick(*old(self)),
    {
        let pitch = self.rotation.x;
        let yaw = self.rotation.y;
        self.rotate_on(pitch, yaw);
        let speed = self.speed;
        self.move_on(speed);
    }

    pub fn new(
        fov: i64,
        aspect: i64,
        z_near: i64,
        z_far: i64,
        position: Vec4,
        front: Vec4,
        world_up: Vec4,
    ) -> (r: Camera)
        ensures
            r.fov == fov,
            r.aspect == aspect,
            r.position == position,
            r.world_up == world_up,
            r.front == front,
            r.look_at_matrix == spec_look_at(
                position,
                spec_vec4_add(position, front),
                world_up,
            ),
            r.projection_matrix == spec_projection(
                fov as int,
                aspect as int,
                z_near as int,
                z_far as int,
            ),
            r.speed == (Vec4 { x: 0, y: 0, z: 0, w: 0 }),
            r.rotation == (Vec4 { x: 0, y: 0, z: 0, w: 0 }),
    {
        Camera {
            fov,
            aspect,
            position,
            world_up,
            front,
            look_at_matrix: Camera::compute_look_at(position, position.add(front), world_up),
            projection_matrix: Camera::compute_projection_matrix(fov, aspect, z_near, z_far),
            speed: Vec4 { x: 0, y: 0, z: 0, w: 0 },
            rotation: Vec4 { x: 0, y: 0, z: 0, w: 0 },
        }
    }
}

} // verus!
