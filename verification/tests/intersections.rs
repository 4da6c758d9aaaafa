use raytracer::fx::approx_eq;
use raytracer::intersections::{Intersection, Intersections};
use raytracer::ray::Ray;
use raytracer::sphere::Sphere;
use raytracer::tuple::Tuple;
use raytracer::world::{World, WorldShape};

fn fx(v: f64) -> i64 {
    (v * 4294967296.0).round() as i64
}

fn point(x: f64, y: f64, z: f64) -> Tuple {
    Tuple::new_point(fx(x), fx(y), fx(z))
}

fn vector(x: f64, y: f64, z: f64) -> Tuple {
    Tuple::new_vector(fx(x), fx(y), fx(z))
}

fn one_sphere_world() -> World {
    let mut w = World::new();
    w.objects.push(WorldShape::Sphere(Sphere::new()));
    w
}

#[test]
fn an_intersection_encapsulates_t_and_object() {
    let i = Intersection::new(fx(3.5), 0);

    assert!(approx_eq(i.t, fx(3.5)));
    assert_eq!(i.object, 0);
}

#[test]
fn aggregating_intersections() {
    let i1 = Intersection::new(fx(1.0), 0);
    let i2 = Intersection::new(fx(2.0), 0);

    let xs = Intersections::new(vec![i1, i2]);

    assert_eq!(xs.len(), 2);
    assert_eq!(xs.at(0).t, fx(1.0));
    assert_eq!(xs.at(1).t, fx(2.0));
}

#[test]
fn the_hit_when_all_intersections_have_positive_t() {
    let i1 = Intersection::new(fx(1.0), 0);
    let i2 = Intersection::new(fx(2.0), 0);
    let xs = Intersections::new(vec![i2, i1]);

    let i = xs.hit();

    assert_eq!(i, Some(i1));
}

#[test]
fn the_hit_when_some_intersections_have_negative_t() {
    let i1 = Intersection::new(fx(-1.0), 0);
    let i2 = Intersection::new(fx(1.0), 0);
    let xs = Intersections::new(vec![i2, i1]);

    let i = xs.hit();

    assert_eq!(i, Some(i2));
}

#[test]
fn the_hit_when_all_intersections_have_negative_t() {
    let i1 = Intersection::new(fx(-2.0), 0);
    let i2 = Intersection::new(fx(-1.0), 0);
    let xs = Intersections::new(vec![i2, i1]);

    let i = xs.hit();

    assert_eq!(i, None);
}

#[test]
fn the_hit_is_always_the_lowest_non_negative_intersection() {
    let i1 = Intersection::new(fx(5.0), 0);
    let i2 = Intersection::new(fx(7.0), 0);
    let i3 = Intersection::new(fx(-3.0), 0);
    let i4 = Intersection::new(fx(2.0), 0);
    let xs = Intersections::new(vec![i1, i2, i3, i4]);

    let i = xs.hit();

    assert_eq!(i, Some(i4));
}

#[test]
fn precomputing_the_state_of_an_intersection() {
    let r = Ray::new(point(0.0, 0.0, -5.0), vector(0.0, 0.0, 1.0));
    let w = one_sphere_world();
    let i = Intersection::new(fx(4.0), 0);
    let comps = i.prepare_computations(r, &w);

    assert!(approx_eq(comps.t, i.t));
    assert_eq!(comps.object, i.object);
    assert!(comps.point.approx_eq(&point(0.0, 0.0, -1.0)));
    assert!(comps.eyev.approx_eq(&vector(0.0, 0.0, -1.0)));
    assert!(comps.normalv.approx_eq(&vector(0.0, 0.0, -1.0)));
}

#[test]
fn the_hit_when_intersection_occurs_on_the_outside() {
    let r = Ray::new(point(0.0, 0.0, -5.0), vector(0.0, 0.0, 1.0));
    let w = one_sphere_world();
    let i = Intersection::new(fx(4.0), 0);
    let comps = i.prepare_computations(r, &w);

    assert!(!comps.inside);
}

#[test]
fn the_hit_when_an_intersections_occurs_on_the_inside() {
    let r = Ray::new(point(0.0, 0.0, 0.0), vector(0.0, 0.0, 1.0));
    let w = one_sphere_world();
    let i = Intersection::new(fx(1.0), 0);
    let comps = i.prepare_computations(r, &w);

    assert!(comps.point.approx_eq(&point(0.0, 0.0, 1.0)));
    assert!(comps.eyev.approx_eq(&vector(0.0, 0.0, -1.0)));
    assert!(comps.inside);
    assert!(comps.normalv.approx_eq(&vector(0.0, 0.0, -1.0)));
}
