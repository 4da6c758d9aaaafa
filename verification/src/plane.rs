//! The plane `y = 0` in object space.
use crate::fx::{fx_abs, fx_abs_s, fx_div, fx_div_s, fx_neg, fx_neg_s, EPSILON, FX_ONE};
use crate::material::{default_material_s, Material};
use crate::matrix::{identity_s, Matrix4};
use crate::ray::Ray;
use crate::tuple::Tuple;
use vstd::prelude::*;

verus! {

/// The object-space plane `y = 0` with its placement transform and
/// material.
#[derive(Debug, Clone, Copy, PartialEq, Eq, Structural)]
pub struct Plane {
    pub transform: Matrix4,
    pub material: Material,
}

/// The ray parameter where a ray in object space crosses the plane `y = 0`:
/// nothing when the direction is parallel to the plane (its `y` within
/// `EPSILON` of zero), else the single parameter `-origin.y / direction.y`.
pub open spec fn plane_local_ts_s(local_ray: Ray) -> Seq<i64> {
    if fx_abs_s(local_ray.direction.y) < EPSILON {
        Seq::empty()
    } else {
        seq![fx_div_s(fx_neg_s(local_ray.origin.y), local_ray.direction.y)]
    }
}

/// The object-space normal of the plane: the unit `y` vector everywhere.
pub open spec fn plane_local_normal_s(local_point: Tuple) -> Tuple {
    Tuple { x: 0, y: FX_ONE, z: 0, w: 0 }
}

impl Plane {
    /// A plane with the identity transform and the default material.
    pub fn new() -> (r: Plane)
        ensures
            r.transform == identity_s(),
            r.material == default_material_s(),
    {
        Plane { transform: Matrix4::identity(), material: Material::new() }
    }

    /// The ray parameters where `local_ray`, already in object space,
    /// crosses this plane.
    pub fn local_intersect(&self, local_ray: Ray) -> (r: Vec<i64>)
        ensures
            r@ == plane_local_ts_s(local_ray),
    {
        let mut out: Vec<i64> = Vec::new();
        if fx_abs(local_ray.direction.y) < EPSILON {
            proof {
                assert(out@ =~= plane_local_ts_s(local_ray));
            }
            return out;
        }
        out.push(fx_div(fx_neg(local_ray.origin.y), local_ray.direction.y));
        proof {
            assert(out@ =~= plane_local_ts_s(local_ray));
        }
        out
    }

    /// The object-space normal at any object-space point.
    pub fn local_normal_at(&self, local_point: Tuple) -> (r: Tuple)
        ensures
            r == plane_local_normal_s(local_point),
    {
        Tuple::new_vector(0, FX_ONE, 0)
    }
}

} // verus!
