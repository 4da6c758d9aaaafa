//! The unit sphere, centered at the object-space origin.
use crate::fx::{
    fx_add, fx_add_s, fx_div, fx_div_s, fx_mul, fx_mul_s, fx_neg, fx_neg_s, fx_sqrt, fx_sqrt_s,
    fx_sub, fx_sub_s, FX_FOUR, FX_ONE, FX_TWO,
};
use crate::material::{default_material_s, Material};
use crate::matrix::{identity_s, Matrix4};
use crate::ray::Ray;
use crate::tuple::{dot_s, tup_sub_s, Tuple};
use vstd::prelude::*;

verus! {

/// A unit sphere with its placement transform and material.
#[derive(Debug, Clone, Copy, PartialEq, Eq, Structural)]
pub struct Sphere {
    pub transform: Matrix4,
    pub material: Material,
}

/// The ray parameters where a ray in object space crosses the unit sphere:
/// the two quadratic roots, or nothing when the discriminant is negative.
/// A tangent ray yields the same root twice.
pub open spec fn sphere_local_ts_s(local_ray: Ray) -> Seq<i64> {
    let sphere_to_ray = tup_sub_s(
        local_ray.origin,
        Tuple { x: 0, y: 0, z: 0, w: FX_ONE },
    );
    let a = dot_s(local_ray.direction, local_ray.direction);
    let b = fx_mul_s(FX_TWO, dot_s(local_ray.direction, sphere_to_ray));
    let c = fx_sub_s(dot_s(sphere_to_ray, sphere_to_ray), FX_ONE);
    let discriminant = fx_sub_s(fx_mul_s(b, b), fx_mul_s(fx_mul_s(FX_FOUR, a), c));
    if discriminant < 0 {
        Seq::empty()
    } else {
        let sq = fx_sqrt_s(discriminant);
        let denom = fx_mul_s(FX_TWO, a);
        seq![
            fx_div_s(fx_sub_s(fx_neg_s(b), sq), denom),
            fx_div_s(fx_add_s(fx_neg_s(b), sq), denom),
        ]
    }
}

/// The object-space normal at an object-space point of the unit sphere: the
/// point taken as a vector from the origin.
pub open spec fn sphere_local_normal_s(local_point: Tuple) -> Tuple {
    tup_sub_s(local_point, Tuple { x: 0, y: 0, z: 0, w: FX_ONE })
}

impl Sphere {
    /// A unit sphere with the identity transform and the default material.
    pub fn new() -> (r: Sphere)
        ensures
            r.transform == identity_s(),
            r.material == default_material_s(),
    {
        Sphere { transform: Matrix4::identity(), material: Material::new() }
    }

    /// The ray parameters where `local_ray`, already in object space,
    /// crosses this sphere.
    pub fn local_intersect(&self, local_ray: Ray) -> (r: Vec<i64>)
        ensures
            r@ == sphere_local_ts_s(local_ray),
    {
        let sphere_to_ray = local_ray.origin.sub(&Tuple::new_point(0, 0, 0));
        let a = local_ray.direction.dot(&local_ray.direction);
        let b = fx_mul(FX_TWO, local_ray.direction.dot(&sphere_to_ray));
        let c = fx_sub(sphere_to_ray.dot(&sphere_to_ray), FX_ONE);
        let discriminant = fx_sub(fx_mul(b, b), fx_mul(fx_mul(FX_FOUR, a), c));
        let mut out: Vec<i64> = Vec::new();
        if discriminant < 0 {
            proof {
                assert(out@ =~= sphere_local_ts_s(local_ray));
            }
            return out;
        }
        let sq = fx_sqrt(discriminant);
        let denom = fx_mul(FX_TWO, a);
        out.push(fx_div(fx_sub(fx_neg(b), sq), denom));
        out.push(fx_div(fx_add(fx_neg(b), sq), denom));
        proof {
            assert(out@ =~= sphere_local_ts_s(local_ray));
        }
        out
    }

    /// The object-space normal at an object-space point.
    pub fn local_normal_at(&self, local_point: Tuple) -> (r: Tuple)
        ensures
            r == sphere_local_normal_s(local_point),
    {
        local_point.sub(&Tuple::new_point(0, 0, 0))
    }
}

} // verus!
