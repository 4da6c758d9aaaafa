use raytracer::matrix::Matrix4;
use raytracer::ray::Ray;
use raytracer::tuple::Tuple;

fn fx(v: f64) -> i64 {
    (v * 4294967296.0).round() as i64
}

fn point(x: f64, y: f64, z: f64) -> Tuple {
    Tuple::new_point(fx(x), fx(y), fx(z))
}

fn vector(x: f64, y: f64, z: f64) -> Tuple {
    Tuple::new_vector(fx(x), fx(y), fx(z))
}

#[test]
fn creating_and_querying_a_ray() {
    let origin = point(1.0, 2.0, 3.0);
    let direction = vector(4.0, 5.0, 6.0);
    let r = Ray::new(origin, direction);

    assert!(r.origin.approx_eq(&origin));
    assert!(r.direction.approx_eq(&direction));
}

#[test]
fn computing_a_point_from_a_distance() {
    let r = Ray::new(point(2.0, 3.0, 4.0), vector(1.0, 0.0, 0.0));

    let expected = point(2.0, 3.0, 4.0);
    assert!(r.position(fx(0.0)).approx_eq(&expected));

    let expected = point(3.0, 3.0, 4.0);
    assert!(r.position(fx(1.0)).approx_eq(&expected));

    let expected = point(1.0, 3.0, 4.0);
    assert!(r.position(fx(-1.0)).approx_eq(&expected));

    let expected = point(4.5, 3.0, 4.0);
    assert!(r.position(fx(2.5)).approx_eq(&expected));
}

#[test]
fn translating_a_ray() {
    let r = Ray::new(point(1.0, 2.0, 3.0), vector(0.0, 1.0, 0.0));
    let m = Matrix4::translation(fx(3.0), fx(4.0), fx(5.0));
    let r2 = r.transform(&m);

    let expected = point(4.0, 6.0, 8.0);
    assert!(r2.origin.approx_eq(&expected));

    let expected = vector(0.0, 1.0, 0.0);
    assert!(r2.direction.approx_eq(&expected));
}

#[test]
fn scaling_a_ray() {
    let r = Ray::new(point(1.0, 2.0, 3.0), vector(0.0, 1.0, 0.0));
    let m = Matrix4::scaling(fx(2.0), fx(3.0), fx(4.0));
    let r2 = r.transform(&m);

    let expected = point(2.0, 6.0, 12.0);
    assert!(r2.origin.approx_eq(&expected));

    let expected = vector(0.0, 3.0, 0.0);
    assert!(r2.direction.approx_eq(&expected));
}
