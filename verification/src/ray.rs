//! Rays: an origin point and a direction vector.
use crate::matrix::{mat4_mul_tup_s, Matrix4};
use crate::tuple::{tup_add_s, tup_scale_s, Tuple};
use vstd::prelude::*;

verus! {

/// A ray in whatever space its coordinates are taken.
#[derive(Debug, Clone, Copy, PartialEq, Eq, Structural)]
pub struct Ray {
    pub origin: Tuple,
    pub direction: Tuple,
}

/// The point at parameter `t` along a ray: `origin + direction * t`.
pub open spec fn ray_position_s(r: Ray, t: i64) -> Tuple {
    tup_add_s(r.origin, tup_scale_s(r.direction, t))
}

/// A ray carried through a transform: both origin and direction are mapped.
pub open spec fn ray_transform_s(r: Ray, m: Matrix4) -> Ray {
    Ray { origin: mat4_mul_tup_s(m, r.origin), direction: mat4_mul_tup_s(m, r.direction) }
}

impl Ray {
    /// A ray from an origin and a direction.
    pub fn new(origin: Tuple, direction: Tuple) -> (r: Ray)
        ensures
            r == (Ray { origin, direction }),
    {
        Ray { origin, direction }
    }

    /// The point at parameter `t` along this ray.
    pub fn position(&self, t: i64) -> (r: Tuple)
        ensures
            r == ray_position_s(*self, t),
    {
        self.origin.add(&self.direction.scale(t))
    }

    /// A new ray with origin and direction carried through `matrix`.
    pub fn transform(&self, matrix: &Matrix4) -> (r: Ray)
        ensures
            r == ray_transform_s(*self, *matrix),
    {
        Ray {
            origin: matrix.mul_tuple(&self.origin),
            direction: matrix.mul_tuple(&self.direction),
        }
    }
}

} // verus!
