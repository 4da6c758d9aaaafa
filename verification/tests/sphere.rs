use raytracer::fx::approx_eq;
use raytracer::material::Material;
use raytracer::matrix::Matrix4;
use raytracer::ray::Ray;
use raytracer::sphere::Sphere;
use raytracer::tuple::Tuple;
use raytracer::world::{World, WorldShape};

fn fx(v: f64) -> i64 {
    (v * 4294967296.0).round() as i64
}

fn point(x: f64, y: f64, z: f64) -> Tuple {
    Tuple::new_point(fx(x), fx(y), fx(z))
}

fn vector(x: f64, y: f64, z: f64) -> Tuple {
    Tuple::new_vector(fx(x), fx(y), fx(z))
}

#[test]
fn a_ray_intersects_a_sphere_at_two_points() {
    let r = Ray::new(point(0.0, 0.0, -5.0), vector(0.0, 0.0, 1.0));
    let s = Sphere::new();
    let xs = s.local_intersect(r);
    assert_eq!(xs.len(), 2);
    assert!(approx_eq(xs[0], fx(4.0)));
    assert!(approx_eq(xs[1], fx(6.0)));
}

#[test]
fn a_ray_intersects_a_sphere_at_a_tangent() {
    let r = Ray::new(point(0.0, 1.0, -5.0), vector(0.0, 0.0, 1.0));
    let s = Sphere::new();
    let xs = s.local_intersect(r);
    assert_eq!(xs.len(), 2);
    assert!(approx_eq(xs[0], fx(5.0)));
    assert!(approx_eq(xs[1], fx(5.0)));
}

#[test]
fn a_ray_misses_a_sphere() {
    let r = Ray::new(point(0.0, 2.0, -5.0), vector(0.0, 0.0, 1.0));
    let s = Sphere::new();
    let xs = s.local_intersect(r);
    assert_eq!(xs.len(), 0);
}

#[test]
fn a_ray_originates_inside_a_sphere() {
    let r = Ray::new(point(0.0, 0.0, 0.0), vector(0.0, 0.0, 1.0));
    let s = Sphere::new();
    let xs = s.local_intersect(r);
    assert_eq!(xs.len(), 2);
    assert!(approx_eq(xs[0], fx(-1.0)));
    assert!(approx_eq(xs[1], fx(1.0)));
}

#[test]
fn a_sphere_is_behind_a_ray() {
    let r = Ray::new(point(0.0, 0.0, 5.0), vector(0.0, 0.0, 1.0));
    let s = Sphere::new();
    let xs = s.local_intersect(r);
    assert_eq!(xs.len(), 2);
    assert!(approx_eq(xs[0], fx(-6.0)));
    assert!(approx_eq(xs[1], fx(-4.0)));
}

#[test]
fn intersect_sets_the_object_on_the_intersection() {
    let r = Ray::new(point(0.0, 0.0, -5.0), vector(0.0, 0.0, 1.0));
    let s = Sphere::new();
    let mut w = World::new();
    w.objects.push(WorldShape::Sphere(s));
    let xs = w.intersect_world(r);

    assert_eq!(xs.len(), 2);
    assert_eq!(xs.at(0).object, 0);
    assert_eq!(xs.at(1).object, 0);
}

#[test]
fn a_spheres_default_transformation() {
    let s = Sphere::new();

    assert_eq!(s.transform, Matrix4::identity());
}

#[test]
fn changing_a_spheres_transformation() {
    let mut s = Sphere::new();
    let t = Matrix4::translation(fx(2.0), fx(3.0), fx(4.0));
    s.transform = t;

    assert_eq!(s.transform, t);
}

#[test]
fn the_normal_on_a_sphere_at_a_point_on_the_x_axis() {
    let s = Sphere::new();
    let n = s.local_normal_at(point(1.0, 0.0, 0.0));
    let expected = vector(1.0, 0.0, 0.0);

    assert!(n.approx_eq(&expected));
}

#[test]
fn the_normal_on_a_sphere_at_a_point_on_the_y_axis() {
    let s = Sphere::new();
    let n = s.local_normal_at(point(0.0, 1.0, 0.0));
    let expected = vector(0.0, 1.0, 0.0);

    assert!(n.approx_eq(&expected));
}

#[test]
fn the_normal_on_a_sphere_at_a_point_on_the_z_axis() {
    let s = Sphere::new();
    let n = s.local_normal_at(point(0.0, 0.0, 1.0));
    let expected = vector(0.0, 0.0, 1.0);

    assert!(n.approx_eq(&expected));
}

#[test]
fn the_normal_on_a_sphere_at_a_non_axial_point() {
    let s = Sphere::new();
    let c = f64::sqrt(3.0) / 3.0;
    let n = s.local_normal_at(point(c, c, c));
    let expected = vector(c, c, c);

    assert!(n.approx_eq(&expected));
}

#[test]
fn the_normal_is_a_normalized_vector() {
    let s = Sphere::new();
    let c = f64::sqrt(3.0) / 3.0;
    let n = s.local_normal_at(point(c, c, c));

    assert!(n.approx_eq(&n.normalize()));
}

#[test]
fn a_sphere_has_a_default_material() {
    let s = Sphere::new();
    let m = s.material;

    assert_eq!(m, Material::new());
}

#[test]
fn a_sphere_may_be_assigned_a_material() {
    let mut s = Sphere::new();
    let mut m = Material::new();
    m.ambient = fx(1.0);
    s.material = m;

    assert_eq!(s.material, m);
}
