//! Placement of an entity: position, rotation and scale.
use vstd::prelude::*;
use crate::geometry::{in_limit, Vec2};

verus! {

/// Largest rotation magnitude, in thousandths of a radian.
pub const MAX_ROTATION: i64 = 1_000_000_000_000;

/// Position in thousandths of a unit, rotation in thousandths of a radian,
/// scale in thousandths.
#[derive(Clone, Copy, Debug, PartialEq, Eq, Structural)]
pub struct Transform {
    pub position: Vec2,
    pub rotation: i64,
    pub scale: Vec2,
}

impl Transform {
    /// Unrotated and unscaled at `position`.
    pub fn new(position: Vec2) -> (t: Transform)
        ensures
            t == (Transform { position, rotation: 0, scale: Vec2 { x: 1000, y: 1000 } }),
    {
        Transform { position, rotation: 0, scale: Vec2::new(1000, 1000) }
    }

    pub fn with_rotation(self, rotation: i64) -> (t: Transform)
        ensures
            t == (Transform { rotation, ..self }),
    {
        Transform { rotation, ..self }
    }

    pub fn with_scale(self, scale: Vec2) -> (t: Transform)
        ensures
            t == (Transform { scale, ..self }),
    {
        Transform { scale, ..self }
    }

    /// Moves the position by `delta`.
    pub fn translate(&mut self, delta: Vec2)
        requires
            old(self).position.in_limit(),
            delta.in_limit(),
        ensures
            final(self).position.x == old(self).position.x + delta.x,
            final(self).position.y == old(self).position.y + delta.y,
            final(self).rotation == old(self).rotation,
            final(self).scale == old(self).scale,
    {
        self.position = Vec2::new(self.position.x + delta.x, self.position.y + delta.y);
    }

    /// Turns by `delta`.
    pub fn rotate(&mut self, delta: i64)
        requires
            -MAX_ROTATION <= old(self).rotation <= MAX_ROTATION,
            -MAX_ROTATION <= delta <= MAX_ROTATION,
        ensures
            *final(self) == (Transform { rotation: (old(self).rotation + delta) as i64, ..*old(self) }),
    {
        self.rotation = self.rotation + delta;
    }
}

impl Default for Transform {
    /// At the origin, unrotated and unscaled.
    fn default() -> (t: Transform)
        ensures
            t == (Transform { position: Vec2::zero_spec(), rotation: 0, scale: Vec2 { x: 1000, y: 1000 } }),
    {
        Transform::new(Vec2::zero())
    }
}

} // verus!
