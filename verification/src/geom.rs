//! Plane geometry of the model: 2-D integer vectors, bounding circles and
//! axis-aligned boxes, and the closest-point computation the wall resolver
//! rests on.

use vstd::prelude::*;
use crate::math::clamp_spec;
use crate::math::clamp_i64;
use crate::params::COORD_LIMIT;

verus! {

/// A 2-D vector with integer components (the simulation ignores z).
#[derive(Clone, Copy, PartialEq, Eq, Structural, Debug)]
pub struct Vec2 {
    pub x: i64,
    pub y: i64,
}

impl Vec2 {
    /// Both components in `[-limit, limit]`.
    pub open spec fn within(self, limit: int) -> bool {
        &&& -limit <= self.x <= limit
        &&& -limit <= self.y <= limit
    }

    pub fn check_within(&self, limit: i64) -> (b: bool)
        requires
            limit >= 0,
        ensures
            b == self.within(limit as int),
    {
        -limit <= self.x && self.x <= limit && -limit <= self.y && self.y <= limit
    }

    /// Squared Euclidean length.
    pub open spec fn norm_sq(self) -> int {
        self.x * self.x + self.y * self.y
    }
}

/// A particle's collision footprint.
#[derive(Clone, Copy, PartialEq, Eq, Structural, Debug)]
pub struct BoundingCircle {
    pub center: Vec2,
    pub radius: i64,
}

/// An axis-aligned box given by its centre and half-extents.
#[derive(Clone, Copy, PartialEq, Eq, Structural, Debug)]
pub struct Aabb {
    pub center: Vec2,
    pub half: Vec2,
}

impl Aabb {
    /// Nonnegative extents, and coordinates small enough that the corner
    /// arithmetic below stays exact.
    pub open spec fn wf(self) -> bool {
        &&& self.center.within(COORD_LIMIT as int)
        &&& 0 <= self.half.x <= COORD_LIMIT
        &&& 0 <= self.half.y <= COORD_LIMIT
    }

    /// The point of the box nearest to `p`: each coordinate of `p` clamped
    /// to the box's extent on that axis.
    pub open spec fn closest_point_spec(self, p: Vec2) -> (int, int) {
        (
            clamp_spec(p.x as int, self.center.x - self.half.x, self.center.x + self.half.x),
            clamp_spec(p.y as int, self.center.y - self.half.y, self.center.y + self.half.y),
        )
    }

    pub fn closest_point(&self, p: Vec2) -> (q: Vec2)
        requires
            self.wf(),
        ensures
            (q.x as int, q.y as int) == self.closest_point_spec(p),
    {
        Vec2 {
            x: clamp_i64(p.x, self.center.x - self.half.x, self.center.x + self.half.x),
            y: clamp_i64(p.y, self.center.y - self.half.y, self.center.y + self.half.y),
        }
    }
}

} // verus!
