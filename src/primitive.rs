use vstd::prelude::*;
use crate::arith::{floor_div, floor_mod};
use crate::camera::{Vec3, POSITION_LIMIT};

verus! {

/// The scale that leaves a mesh at its size, in millionths.
pub const SCALE_ONE: i128 = 1_000_000;

/// A full turn in millionths of a radian, rounded down.
pub const TAU_MICRO: i128 = 6_283_185;

/// Largest magnitude of a frame's time step, in milliseconds (2^64).
pub const MAX_DELTA_MS: i128 = 0x1_0000_0000_0000_0000;

/// The shared mesh that a primitive draws.
#[derive(Clone, Copy, Debug, PartialEq, Eq, Structural)]
pub enum Shape {
    Quad,
    Cube,
}

/// A transform bound to a shared mesh and a shared material, the material
/// named by its index in the scene's material list.
#[derive(Clone, Copy, Debug, PartialEq, Eq, Structural)]
pub struct Primitive {
    /// World position, in millionths of a world unit.
    pub position: Vec3,
    /// Euler angles about x, y and z, in millionths of a radian.
    pub rotation: Vec3,
    /// Scale along each axis, in millionths.
    pub scale: Vec3,
    pub shape: Shape,
    pub material: usize,
}

pub open spec fn within_position_limit(v: Vec3) -> bool {
    &&& -POSITION_LIMIT <= v.x <= POSITION_LIMIT
    &&& -POSITION_LIMIT <= v.y <= POSITION_LIMIT
    &&& -POSITION_LIMIT <= v.z <= POSITION_LIMIT
}

/// The spin of the sample scene: the angle advances by a tenth of the
/// entity's x position (in radians per second) and wraps into `[0, 2pi)`.
pub open spec fn spun(angle: int, delta_ms: int, x: int) -> int {
    (angle + (delta_ms * x) / 10_000) % (TAU_MICRO as int)
}

impl Primitive {
    pub open spec fn wf(&self) -> bool {
        &&& within_position_limit(self.position)
        &&& within_position_limit(self.rotation)
        &&& within_position_limit(self.scale)
    }

    /// This primitive after one frame of `delta_ms` milliseconds: the x and
    /// y angles are zero and the z angle spins.
    pub open spec fn animated(&self, delta_ms: int) -> Primitive {
        Primitive {
            rotation: Vec3 {
                x: 0,
                y: 0,
                z: spun(self.rotation.z as int, delta_ms, self.position.x as int) as i128,
            },
            ..*self
        }
    }

    /// A unit quad at the origin, unrotated, drawn with `material`.
    pub fn new_quad(material: usize) -> (p: Primitive)
        ensures
            p.wf(),
            p.shape == Shape::Quad,
            p.material == material,
            p.position == (Vec3 { x: 0, y: 0, z: 0 }),
            p.rotation == (Vec3 { x: 0, y: 0, z: 0 }),
            p.scale == (Vec3 { x: SCALE_ONE, y: SCALE_ONE, z: SCALE_ONE }),
    {
        Primitive {
            position: Vec3 { x: 0, y: 0, z: 0 },
            rotation: Vec3 { x: 0, y: 0, z: 0 },
            scale: Vec3 { x: SCALE_ONE, y: SCALE_ONE, z: SCALE_ONE },
            shape: Shape::Quad,
            material,
        }
    }

    /// A unit cube at the origin, unrotated, drawn with `material`.
    pub fn new_cube(material: usize) -> (p: Primitive)
        ensures
            p.wf(),
            p.shape == Shape::Cube,
            p.material == material,
            p.position == (Vec3 { x: 0, y: 0, z: 0 }),
            p.rotation == (Vec3 { x: 0, y: 0, z: 0 }),
            p.scale == (Vec3 { x: SCALE_ONE, y: SCALE_ONE, z: SCALE_ONE }),
    {
        Primitive {
            position: Vec3 { x: 0, y: 0, z: 0 },
            rotation: Vec3 { x: 0, y: 0, z: 0 },
            scale: Vec3 { x: SCALE_ONE, y: SCALE_ONE, z: SCALE_ONE },
            shape: Shape::Cube,
            material,
        }
    }

    /// Advances the sample animation by one frame.
    pub fn animate(&mut self, delta_ms: i128)
        requires
            old(self).wf(),
            -MAX_DELTA_MS <= delta_ms <= MAX_DELTA_MS,
        ensures
            final(self).wf(),
            *final(self) == old(self).animated(delta_ms as int),
            0 <= final(self).rotation.z < TAU_MICRO,
    {
        proof {
            assert(-MAX_DELTA_MS * POSITION_LIMIT <= delta_ms * self.position.x <= MAX_DELTA_MS * POSITION_LIMIT) by (nonlinear_arith)
                requires
                    -MAX_DELTA_MS <= delta_ms <= MAX_DELTA_MS,
                    -POSITION_LIMIT <= self.position.x <= POSITION_LIMIT,
            ;
        }
        let step: i128 = floor_div(delta_ms * self.position.x, 10_000);
        let angle = floor_mod(self.rotation.z + step, TAU_MICRO);
        self.rotation = Vec3 { x: 0, y: 0, z: angle };
    }

    /// Whether the model matrix, translation times rotation times scale, can
    /// be inverted: a rotation always can, so only a zero scale on some axis
    /// makes it singular.
    pub fn has_invertible_transform(&self) -> (r: bool)
        ensures
            r == (self.scale.x != 0 && self.scale.y != 0 && self.scale.z != 0),
    {
        self.scale.x != 0 && self.scale.y != 0 && self.scale.z != 0
    }
}

} // verus!
