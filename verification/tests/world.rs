use raytracer::color::Color;
use raytracer::fx::EPSILON;
use raytracer::intersections::Intersection;
use raytracer::light::PointLight;
use raytracer::matrix::Matrix4;
use raytracer::ray::Ray;
use raytracer::sphere::Sphere;
use raytracer::tuple::Tuple;
use raytracer::world::{default_world, World, WorldShape};

fn fx(v: f64) -> i64 {
    (v * 4294967296.0).round() as i64
}

fn point(x: f64, y: f64, z: f64) -> Tuple {
    Tuple::new_point(fx(x), fx(y), fx(z))
}

fn vector(x: f64, y: f64, z: f64) -> Tuple {
    Tuple::new_vector(fx(x), fx(y), fx(z))
}

fn col(r: f64, g: f64, b: f64) -> Color {
    Color::new(fx(r), fx(g), fx(b))
}

fn as_sphere(shape: WorldShape) -> Sphere {
    match shape {
        WorldShape::Sphere(s) => s,
        WorldShape::Plane(_) => unreachable!(),
    }
}

#[test]
fn creating_a_world() {
    let w = World::new();

    assert!(w.objects.is_empty());
    assert_eq!(w.light, None);
}

#[test]
fn the_default_world() {
    let light = PointLight::new(point(-10.0, 10.0, -10.0), col(1.0, 1.0, 1.0));
    let mut s1 = Sphere::new();
    s1.material.color = col(0.8, 1.0, 0.6);
    s1.material.diffuse = fx(0.7);
    s1.material.specular = fx(0.2);
    let mut s2 = Sphere::new();
    s2.transform = Matrix4::scaling(fx(0.5), fx(0.5), fx(0.5));
    let w = default_world();

    assert_eq!(w.light, Some(light));
    assert!(w.objects.contains(&WorldShape::Sphere(s1)));
    assert!(w.objects.contains(&WorldShape::Sphere(s2)));
}

#[test]
fn intersect_a_world_with_a_ray() {
    let w = default_world();
    let r = Ray::new(point(0.0, 0.0, -5.0), vector(0.0, 0.0, 1.0));
    let xs = w.intersect_world(r);

    assert_eq!(xs.len(), 4);
    assert!(raytracer::fx::approx_eq(xs.at(0).t, fx(4.0)));
    assert!(raytracer::fx::approx_eq(xs.at(1).t, fx(4.5)));
    assert!(raytracer::fx::approx_eq(xs.at(2).t, fx(5.5)));
    assert!(raytracer::fx::approx_eq(xs.at(3).t, fx(6.0)));
}

#[test]
fn shading_an_intersection() {
    let w = default_world();
    let r = Ray::new(point(0.0, 0.0, -5.0), vector(0.0, 0.0, 1.0));
    let i = Intersection::new(fx(4.0), 0);
    let comps = i.prepare_computations(r, &w);
    let c = w.shade_hit(comps);

    assert!(c.approx_eq(&col(0.38066, 0.47583, 0.2855)));
}

#[test]
fn shading_an_intersection_from_the_inside() {
    let mut w = default_world();
    w.light = Some(PointLight::new(point(0.0, 0.25, 0.0), col(1.0, 1.0, 1.0)));
    let r = Ray::new(point(0.0, 0.0, 0.0), vector(0.0, 0.0, 1.0));
    let i = Intersection::new(fx(0.5), 1);
    let comps = i.prepare_computations(r, &w);
    let c = w.shade_hit(comps);

    assert!(c.approx_eq(&col(0.90498, 0.90498, 0.90498)));
}

#[test]
fn the_color_when_a_ray_misses() {
    let w = default_world();
    let r = Ray::new(point(0.0, 0.0, -5.0), vector(0.0, 1.0, 0.0));
    let c = w.color_at(r);

    assert!(c.approx_eq(&col(0.0, 0.0, 0.0)));
}

#[test]
fn the_color_when_a_ray_hits() {
    let w = default_world();
    let r = Ray::new(point(0.0, 0.0, -5.0), vector(0.0, 0.0, 1.0));
    let c = w.color_at(r);

    assert!(c.approx_eq(&col(0.38066, 0.47583, 0.2855)));
}

#[test]
fn the_color_with_an_intersection_behind_the_ray() {
    let mut w = default_world();
    let mut outer = as_sphere(w.objects[0]);
    outer.material.ambient = fx(1.0);
    w.objects[0] = WorldShape::Sphere(outer);
    let mut inner = as_sphere(w.objects[1]);
    inner.material.ambient = fx(1.0);
    w.objects[1] = WorldShape::Sphere(inner);
    let r = Ray::new(point(0.0, 0.0, 0.75), vector(0.0, 0.0, -1.0));
    let c = w.color_at(r);

    assert!(c.approx_eq(&inner.material.color));
}

#[test]
fn there_is_no_shadow_when_nothing_is_collinear_with_point_and_light() {
    let w = default_world();
    let p = point(0.0, 10.0, 0.0);

    assert!(!w.is_shadowed(p));
}

#[test]
fn the_shadow_when_an_object_is_between_the_point_and_the_light() {
    let w = default_world();
    let p = point(10.0, -10.0, 10.0);

    assert!(w.is_shadowed(p));
}

#[test]
fn there_is_no_shadow_when_an_object_is_behind_the_light() {
    let w = default_world();
    let p = point(-20.0, 20.0, -20.0);

    assert!(!w.is_shadowed(p));
}

#[test]
fn there_is_no_shadow_when_an_object_is_behind_the_point() {
    let w = default_world();
    let p = point(-2.0, 2.0, -2.0);

    assert!(!w.is_shadowed(p));
}

#[test]
fn shade_hit_is_given_an_intersection_in_shadow() {
    let mut w = World::new();
    w.light = Some(PointLight::new(point(0.0, 0.0, -10.0), col(1.0, 1.0, 1.0)));
    let s1 = Sphere::new();
    w.objects.push(WorldShape::Sphere(s1));
    let mut s2 = Sphere::new();
    s2.transform = Matrix4::translation(fx(0.0), fx(0.0), fx(10.0));
    w.objects.push(WorldShape::Sphere(s2));
    let r = Ray::new(point(0.0, 0.0, 5.0), vector(0.0, 0.0, 1.0));
    let i = Intersection::new(fx(4.0), 1);
    let comps = i.prepare_computations(r, &w);
    let c = w.shade_hit(comps);

    assert!(c.approx_eq(&col(0.1, 0.1, 0.1)));
}

#[test]
fn the_hit_should_offset_the_point() {
    let r = Ray::new(point(0.0, 0.0, -5.0), vector(0.0, 0.0, 1.0));
    let mut shape = Sphere::new();
    shape.transform = Matrix4::translation(fx(0.0), fx(0.0), fx(1.0));
    let mut w = World::new();
    w.objects.push(WorldShape::Sphere(shape));
    let i = Intersection::new(fx(5.0), 0);
    let comps = i.prepare_computations(r, &w);

    assert!(comps.over_point.z < -EPSILON / 2);
    assert!(comps.point.z > comps.over_point.z);
}
