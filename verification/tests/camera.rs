use raytracer::camera::Camera;
use raytracer::color::Color;
use raytracer::fx::approx_eq;
use raytracer::matrix::Matrix4;
use raytracer::tuple::Tuple;
use raytracer::world::default_world;
use std::f64::consts::PI;

fn fx(v: f64) -> i64 {
    (v * 4294967296.0).round() as i64
}

fn point(x: f64, y: f64, z: f64) -> Tuple {
    Tuple::new_point(fx(x), fx(y), fx(z))
}

fn vector(x: f64, y: f64, z: f64) -> Tuple {
    Tuple::new_vector(fx(x), fx(y), fx(z))
}

#[test]
fn constructing_a_camera() {
    let hsize = 160;
    let vsize = 120;
    let field_of_view = fx(PI / 2.0);
    let c = Camera::new(hsize, vsize, field_of_view);

    assert_eq!(c.hsize, 160);
    assert_eq!(c.vsize, 120);
    assert_eq!(c.field_of_view, fx(PI / 2.0));
    assert_eq!(c.transform, Matrix4::identity());
}

#[test]
fn the_pixel_size_for_a_horizontal_canvas() {
    let c = Camera::new(200, 125, fx(PI / 2.0));

    assert!(approx_eq(c.pixel_size, fx(0.01)));
}

#[test]
fn the_pixel_size_for_a_vertical_canvas() {
    let c = Camera::new(125, 200, fx(PI / 2.0));

    assert!(approx_eq(c.pixel_size, fx(0.01)));
}

#[test]
fn constructing_a_ray_through_the_center_of_the_canvas() {
    let c = Camera::new(201, 101, fx(PI / 2.0));
    let r = c.ray_for_pixel(100, 50);

    assert!(r.origin.approx_eq(&point(0.0, 0.0, 0.0)));
    assert!(r.direction.approx_eq(&vector(0.0, 0.0, -1.0)));
}

#[test]
fn constructing_a_ray_through_a_corner_of_the_canvas() {
    let c = Camera::new(201, 101, fx(PI / 2.0));
    let r = c.ray_for_pixel(0, 0);

    assert!(r.origin.approx_eq(&point(0.0, 0.0, 0.0)));
    assert!(r.direction.approx_eq(&vector(0.66519, 0.33259, -0.66851)));
}

#[test]
fn constructing_a_ray_when_the_camera_is_transformed() {
    let mut c = Camera::new(201, 101, fx(PI / 2.0));
    c.transform = Matrix4::rotation_y(fx(PI / 4.0)).mul(
        &Matrix4::translation(fx(0.0), fx(-2.0), fx(5.0)),
    );
    let r = c.ray_for_pixel(100, 50);

    let s = f64::sqrt(2.0) / 2.0;
    assert!(r.origin.approx_eq(&point(0.0, 2.0, -5.0)));
    assert!(r.direction.approx_eq(&vector(s, 0.0, -s)));
}

#[test]
fn rendering_a_world_with_camera() {
    let w = default_world();
    let mut c = Camera::new(11, 11, fx(PI / 2.0));
    let from = point(0.0, 0.0, -5.0);
    let to = point(0.0, 0.0, 0.0);
    let up = vector(0.0, 1.0, 0.0);
    c.transform = Matrix4::view_transform(from, to, up);
    let image = c.render(&w);

    let expected = Color::new(fx(0.38066), fx(0.47583), fx(0.2855));
    assert!(image.pixel_at(5, 5).approx_eq(&expected));
}
