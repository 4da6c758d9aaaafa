//! The scene: a flat collection of shapes and at most one light, with the
//! transform-aware intersection wrappers, shading and shadow tests.
//!
//! Shapes are addressed by their index in the scene's collection, so the
//! records that intersections carry stay meaningful even between
//! equal-valued shapes.
use crate::color::{black_s, Color};
use crate::fx::EPSILON;
use crate::intersections::{
    hit_s, lemma_sort_by_t_members, sort_by_t_s, Intersection, Intersections,
};
use crate::light::PointLight;
use crate::material::{default_material_s, lighting_s, Material};
use crate::matrix::{
    det4_s, identity_s, inverse4_s, mat4_mul_tup_s, scaling_s, transpose4_s, Matrix4,
};
use crate::plane::{plane_local_normal_s, plane_local_ts_s, Plane};
use crate::ray::{ray_position_s, ray_transform_s, Ray};
use crate::sphere::{sphere_local_normal_s, sphere_local_ts_s, Sphere};
use crate::tuple::{
    dot_s, magnitude_s, normalize_s, tup_add_s, tup_neg_s, tup_scale_s, tup_sub_s, Tuple,
};
use vstd::prelude::*;

verus! {

/// A shape of the scene: one of the closed set of primitives, dispatched by
/// pattern match.
#[derive(Debug, Clone, Copy, PartialEq, Eq, Structural)]
pub enum WorldShape {
    Sphere(Sphere),
    Plane(Plane),
}

/// The placement transform of a shape.
pub open spec fn shape_transform_s(s: WorldShape) -> Matrix4 {
    match s {
        WorldShape::Sphere(sphere) => sphere.transform,
        WorldShape::Plane(plane) => plane.transform,
    }
}

/// The material of a shape.
pub open spec fn shape_material_s(s: WorldShape) -> Material {
    match s {
        WorldShape::Sphere(sphere) => sphere.material,
        WorldShape::Plane(plane) => plane.material,
    }
}

/// The object-space intersection parameters of a shape.
pub open spec fn shape_local_ts_s(s: WorldShape, local_ray: Ray) -> Seq<i64> {
    match s {
        WorldShape::Sphere(_) => sphere_local_ts_s(local_ray),
        WorldShape::Plane(_) => plane_local_ts_s(local_ray),
    }
}

/// The object-space normal of a shape at an object-space point.
pub open spec fn shape_local_normal_s(s: WorldShape, local_point: Tuple) -> Tuple {
    match s {
        WorldShape::Sphere(_) => sphere_local_normal_s(local_point),
        WorldShape::Plane(_) => plane_local_normal_s(local_point),
    }
}

/// The world-space intersection parameters of a shape: the ray carried into
/// object space by the inverse placement transform, then intersected there.
#[verifier::opaque]
pub open spec fn shape_ts_s(s: WorldShape, ray: Ray) -> Seq<i64>
    recommends
        det4_s(shape_transform_s(s)) != 0,
{
    shape_local_ts_s(s, ray_transform_s(ray, inverse4_s(shape_transform_s(s))))
}

/// The world-space surface normal of a shape at a world-space point: the
/// point carried into object space, the object-space normal carried back by
/// the transposed inverse with its `w` forced to zero, normalized.
#[verifier::opaque]
pub open spec fn shape_normal_s(s: WorldShape, point: Tuple) -> Tuple
    recommends
        det4_s(shape_transform_s(s)) != 0,
{
    let inv = inverse4_s(shape_transform_s(s));
    let local_point = mat4_mul_tup_s(inv, point);
    let local_normal = shape_local_normal_s(s, local_point);
    let wn = mat4_mul_tup_s(transpose4_s(inv), local_normal);
    normalize_s(Tuple { x: wn.x, y: wn.y, z: wn.z, w: 0 })
}

impl WorldShape {
    /// The placement transform.
    pub fn transform(&self) -> (r: Matrix4)
        ensures
            r == shape_transform_s(*self),
    {
        match self {
            WorldShape::Sphere(sphere) => sphere.transform,
            WorldShape::Plane(plane) => plane.transform,
        }
    }

    /// The material.
    pub fn material(&self) -> (r: Material)
        ensures
            r == shape_material_s(*self),
    {
        match self {
            WorldShape::Sphere(sphere) => sphere.material,
            WorldShape::Plane(plane) => plane.material,
        }
    }

    /// The object-space intersection parameters.
    pub fn local_intersect(&self, local_ray: Ray) -> (r: Vec<i64>)
        ensures
            r@ == shape_local_ts_s(*self, local_ray),
    {
        match self {
            WorldShape::Sphere(sphere) => sphere.local_intersect(local_ray),
            WorldShape::Plane(plane) => plane.local_intersect(local_ray),
        }
    }

    /// The object-space normal at an object-space point.
    pub fn local_normal_at(&self, local_point: Tuple) -> (r: Tuple)
        ensures
            r == shape_local_normal_s(*self, local_point),
    {
        match self {
            WorldShape::Sphere(sphere) => sphere.local_normal_at(local_point),
            WorldShape::Plane(plane) => plane.local_normal_at(local_point),
        }
    }

    /// The world-space intersection parameters; the placement transform must
    /// be invertible.
    pub fn intersect(&self, ray: Ray) -> (r: Vec<i64>)
        requires
            det4_s(shape_transform_s(*self)) != 0,
        ensures
            r@ == shape_ts_s(*self, ray),
    {
        proof {
            reveal(shape_ts_s);
        }
        let local_ray = ray.transform(&self.transform().inverse());
        self.local_intersect(local_ray)
    }

    /// The world-space surface normal at a world-space point; the placement
    /// transform must be invertible.
    pub fn normal_at(&self, point: Tuple) -> (r: Tuple)
        requires
            det4_s(shape_transform_s(*self)) != 0,
        ensures
            r == shape_normal_s(*self, point),
    {
        proof {
            reveal(shape_normal_s);
        }
        let inv = self.transform().inverse();
        let local_point = inv.mul_tuple(&point);
        let local_normal = self.local_normal_at(local_point);
        let wn = inv.transpose().mul_tuple(&local_normal);
        let world_normal = Tuple { x: wn.x, y: wn.y, z: wn.z, w: 0 };
        world_normal.normalize()
    }
}

impl From<Sphere> for WorldShape {
    /// A sphere taken into the scene's shape type.
    fn from(sphere: Sphere) -> (r: WorldShape) {
        WorldShape::Sphere(sphere)
    }
}

impl vstd::std_specs::convert::FromSpecImpl<Sphere> for WorldShape {
    open spec fn obeys_from_spec() -> bool {
        true
    }

    open spec fn from_spec(sphere: Sphere) -> WorldShape {
        WorldShape::Sphere(sphere)
    }
}

impl From<Plane> for WorldShape {
    /// A plane taken into the scene's shape type.
    fn from(plane: Plane) -> (r: WorldShape) {
        WorldShape::Plane(plane)
    }
}

impl vstd::std_specs::convert::FromSpecImpl<Plane> for WorldShape {
    open spec fn obeys_from_spec() -> bool {
        true
    }

    open spec fn from_spec(plane: Plane) -> WorldShape {
        WorldShape::Plane(plane)
    }
}

/// The state precomputed for shading one hit.
#[derive(Debug, Clone, Copy, PartialEq, Eq, Structural)]
pub struct Computations {
    pub t: i64,
    pub object: usize,
    pub point: Tuple,
    pub eyev: Tuple,
    pub normalv: Tuple,
    pub inside: bool,
    pub over_point: Tuple,
}

/// The precomputed hit state: the world-space hit point, the eye vector,
/// the normal flipped toward the eye (recording whether it had to flip),
/// and the hit point nudged along the normal by `EPSILON` to keep a shaded
/// surface from shadowing itself.
pub open spec fn comps_s(objects: Seq<WorldShape>, i: Intersection, r: Ray) -> Computations
    recommends
        i.object < objects.len(),
        det4_s(shape_transform_s(objects[i.object as int])) != 0,
{
    let point = ray_position_s(r, i.t);
    let eyev = tup_neg_s(r.direction);
    let raw_normal = shape_normal_s(objects[i.object as int], point);
    let inside = dot_s(raw_normal, eyev) < 0;
    let normalv = if inside {
        tup_neg_s(raw_normal)
    } else {
        raw_normal
    };
    let over_point = tup_add_s(point, tup_scale_s(normalv, EPSILON));
    Computations { t: i.t, object: i.object, point, eyev, normalv, inside, over_point }
}

impl Intersection {
    /// The precomputed state for shading this intersection of `r`, looked
    /// up in the scene that its handle refers to.
    pub fn prepare_computations(&self, r: Ray, world: &World) -> (c: Computations)
        requires
            self.object < world.objects@.len(),
            det4_s(shape_transform_s(world.objects@[self.object as int])) != 0,
        ensures
            c == comps_s(world.objects@, *self, r),
    {
        let point = r.position(self.t);
        let eyev = r.direction.neg();
        let shape = &world.objects[self.object];
        let raw_normal = shape.normal_at(point);
        let inside = raw_normal.dot(&eyev) < 0;
        let normalv = if inside {
            raw_normal.neg()
        } else {
            raw_normal
        };
        let over_point = point.add(&normalv.scale(EPSILON));
        Computations {
            t: self.t,
            object: self.object,
            point,
            eyev,
            normalv,
            inside,
            over_point,
        }
    }
}

/// The intersections that `ray` makes with each of the first `n` shapes, in
/// shape order, each tagged with its shape's handle.
pub open spec fn world_xs_upto_s(objects: Seq<WorldShape>, ray: Ray, n: int) -> Seq<Intersection>
    recommends
        n <= objects.len(),
    decreases n,
{
    if n <= 0 {
        Seq::empty()
    } else {
        world_xs_upto_s(objects, ray, n - 1) + tag_ts_s(
            shape_ts_s(objects[n - 1], ray),
            (n - 1) as usize,
        )
    }
}

/// A sequence of parameters tagged with one shape handle.
pub open spec fn tag_ts_s(ts: Seq<i64>, o: usize) -> Seq<Intersection> {
    ts.map(|k: int, t: i64| Intersection { t, object: o })
}

/// Every intersection of `ray` with every shape of the scene, in shape
/// order, untagged by nearness.
pub open spec fn world_xs_s(objects: Seq<WorldShape>, ray: Ray) -> Seq<Intersection> {
    world_xs_upto_s(objects, ray, objects.len() as int)
}

/// Whether every shape of the scene has an invertible placement transform.
pub open spec fn world_invertible_s(objects: Seq<WorldShape>) -> bool {
    forall|i: int| 0 <= i < objects.len() ==> det4_s(shape_transform_s(#[trigger] objects[i]))
        != 0
}

#[verifier::rlimit(50)]
proof fn lemma_world_xs_objects(objects: Seq<WorldShape>, ray: Ray, n: int)
    requires
        0 <= n <= objects.len(),
    ensures
        forall|j: int| 0 <= j < world_xs_upto_s(objects, ray, n).len() ==> (
        #[trigger] world_xs_upto_s(objects, ray, n)[j]).object < n,
    decreases n,
{
    if n > 0 {
        lemma_world_xs_objects(objects, ray, n - 1);
        let whole = world_xs_upto_s(objects, ray, n);
        let prev = world_xs_upto_s(objects, ray, n - 1);
        let tagged = tag_ts_s(shape_ts_s(objects[n - 1], ray), (n - 1) as usize);
        assert forall|j: int| 0 <= j < whole.len() implies (#[trigger] whole[j]).object < n by {
            if j < prev.len() {
                assert(whole[j] == prev[j]);
            } else {
                assert(whole[j] == tagged[j - prev.len()]);
            }
        }
    }
}

/// Whether a point lies in shadow: the hit of a ray from the point toward
/// the light must be nearer than the light.
pub open spec fn is_shadowed_s(objects: Seq<WorldShape>, light: PointLight, point: Tuple) -> bool {
    let v = tup_sub_s(light.position, point);
    let distance = magnitude_s(v);
    let direction = normalize_s(v);
    match hit_s(sort_by_t_s(world_xs_s(objects, Ray { origin: point, direction }))) {
        Option::Some(h) => h.t < distance,
        Option::None => false,
    }
}

/// The color of a hit: the hit shape's material lit at the hit point, in
/// shadow when the nudged hit point is occluded.
pub open spec fn shade_hit_s(objects: Seq<WorldShape>, light: PointLight, comps: Computations) -> Color {
    lighting_s(
        shape_material_s(objects[comps.object as int]),
        light,
        comps.point,
        comps.eyev,
        comps.normalv,
        is_shadowed_s(objects, light, comps.over_point),
    )
}

/// The color seen along a ray: black where it hits nothing, else the shaded
/// color of the hit.
#[verifier::opaque]
pub open spec fn color_at_s(objects: Seq<WorldShape>, light: PointLight, ray: Ray) -> Color {
    match hit_s(sort_by_t_s(world_xs_s(objects, ray))) {
        Option::None => black_s(),
        Option::Some(h) => shade_hit_s(objects, light, comps_s(objects, h, ray)),
    }
}

/// A scene: shapes and at most one point light.
#[derive(Debug)]
pub struct World {
    pub objects: Vec<WorldShape>,
    pub light: Option<PointLight>,
}

impl World {
    /// An empty scene with no light.
    pub fn new() -> (r: World)
        ensures
            r.objects@.len() == 0,
            r.light is None,
    {
        World { objects: Vec::new(), light: None }
    }

    /// Every intersection the ray makes with the scene, sorted by
    /// parameter; every shape's transform must be invertible.
    #[verifier::rlimit(50)]
    pub fn intersect_world(&self, ray: Ray) -> (xs: Intersections)
        requires
            world_invertible_s(self.objects@),
        ensures
            xs.seq() == sort_by_t_s(world_xs_s(self.objects@, ray)),
    {
        let mut all: Vec<Intersection> = Vec::new();
        let mut o: usize = 0;
        while o < self.objects.len()
            invariant
                o <= self.objects@.len(),
                world_invertible_s(self.objects@),
                all@ == world_xs_upto_s(self.objects@, ray, o as int),
            decreases self.objects@.len() - o,
        {
            let shape = &self.objects[o];
            let ts = shape.intersect(ray);
            let mut k: usize = 0;
            while k < ts.len()
                invariant
                    k <= ts@.len(),
                    o < self.objects@.len(),
                    ts@ == shape_ts_s(self.objects@[o as int], ray),
                    all@ == world_xs_upto_s(self.objects@, ray, o as int) + tag_ts_s(
                        ts@,
                        o,
                    ).take(k as int),
                decreases ts@.len() - k,
            {
                all.push(Intersection { t: ts[k], object: o });
                proof {
                    assert(tag_ts_s(ts@, o).take(k as int + 1) =~= tag_ts_s(ts@, o).take(
                        k as int,
                    ).push(Intersection { t: ts@[k as int], object: o }));
                }
                k = k + 1;
            }
            proof {
                assert(tag_ts_s(ts@, o).take(ts@.len() as int) =~= tag_ts_s(ts@, o));
            }
            o = o + 1;
        }
        Intersections::new(all)
    }

    /// Whether `point` lies in shadow; the scene must have a light and
    /// invertible shapes.
    pub fn is_shadowed(&self, point: Tuple) -> (r: bool)
        requires
            self.light is Some,
            world_invertible_s(self.objects@),
        ensures
            self.light matches Some(l) ==> r == is_shadowed_s(self.objects@, l, point),
    {
        let light = self.light.unwrap();
        let v = light.position.sub(&point);
        let distance = v.magnitude();
        let direction = v.normalize();
        let ray = Ray::new(point, direction);
        let intersections = self.intersect_world(ray);
        match intersections.hit() {
            Some(h) => h.t < distance,
            None => false,
        }
    }

    /// The shaded color of a precomputed hit; the scene must have a light,
    /// invertible shapes, and the hit's handle must be in range.
    pub fn shade_hit(&self, comps: Computations) -> (r: Color)
        requires
            self.light is Some,
            world_invertible_s(self.objects@),
            comps.object < self.objects@.len(),
        ensures
            self.light matches Some(l) ==> r == shade_hit_s(self.objects@, l, comps),
    {
        let shadowed = self.is_shadowed(comps.over_point);
        let shape = &self.objects[comps.object];
        shape.material().lighting(
            self.light.unwrap(),
            comps.point,
            comps.eyev,
            comps.normalv,
            shadowed,
        )
    }

    /// The color seen along `ray`; the scene must have a light and
    /// invertible shapes.
    pub fn color_at(&self, ray: Ray) -> (r: Color)
        requires
            self.light is Some,
            world_invertible_s(self.objects@),
        ensures
            self.light matches Some(l) ==> r == color_at_s(self.objects@, l, ray),
    {
        proof {
            reveal(color_at_s);
        }
        let xs = self.intersect_world(ray);
        match xs.hit() {
            Some(hit) => {
                proof {
                    let sorted = sort_by_t_s(world_xs_s(self.objects@, ray));
                    let i = choose|i: int| 0 <= i < sorted.len() && sorted[i] == hit;
                    lemma_sort_by_t_members(world_xs_s(self.objects@, ray), i);
                    let j = choose|j: int|
                        0 <= j < world_xs_s(self.objects@, ray).len() && world_xs_s(
                            self.objects@,
                            ray,
                        )[j] == hit;
                    lemma_world_xs_objects(self.objects@, ray, self.objects@.len() as int);
                }
                let comps = hit.prepare_computations(ray, self);
                self.shade_hit(comps)
            },
            None => Color::black(),
        }
    }
}

impl Default for World {
    /// An empty scene with no light, as `new` builds it.
    fn default() -> (r: World)
        ensures
            r.objects@.len() == 0,
            r.light is None,
    {
        World::new()
    }
}

/// The material of the default scene's outer sphere: a green-tinted color
/// with softened diffuse and specular reflection.
pub open spec fn default_world_material_s() -> Material {
    Material {
        color: Color { red: 3435973837, green: 4294967296, blue: 2576980378 },
        ambient: 429496730,
        diffuse: 3006477107,
        specular: 858993459,
        shininess: 858993459200,
    }
}

/// The light of the default scene: white, up and to the viewer's left.
pub open spec fn default_world_light_s() -> PointLight {
    PointLight {
        position: Tuple { x: -42949672960i64, y: 42949672960i64, z: -42949672960i64, w: 4294967296i64 },
        intensity: Color { red: 4294967296, green: 4294967296, blue: 4294967296 },
    }
}

/// A ready-made two-sphere scene: a unit sphere with the softened
/// material, a concentric sphere at half scale, and the white light.
pub fn default_world() -> (r: World)
    ensures
        r.light == Some(default_world_light_s()),
        r.objects@.len() == 2,
        r.objects@[0] == WorldShape::Sphere(
            Sphere { transform: identity_s(), material: default_world_material_s() },
        ),
        r.objects@[1] == WorldShape::Sphere(
            Sphere {
                transform: scaling_s(2147483648, 2147483648, 2147483648),
                material: default_material_s(),
            },
        ),
{
    let light = PointLight::new(
        Tuple::new_point(-42949672960, 42949672960, -42949672960),
        Color::new(4294967296, 4294967296, 4294967296),
    );
    let mut s1 = Sphere::new();
    s1.material.color = Color::new(3435973837, 4294967296, 2576980378);
    s1.material.diffuse = 3006477107;
    s1.material.specular = 858993459;
    let mut s2 = Sphere::new();
    s2.transform = Matrix4::scaling(2147483648, 2147483648, 2147483648);
    let mut objects: Vec<WorldShape> = Vec::new();
    objects.push(WorldShape::Sphere(s1));
    objects.push(WorldShape::Sphere(s2));
    World { objects, light: Some(light) }
}

} // verus!
