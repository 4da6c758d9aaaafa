use raytracer::camera::Camera;
use raytracer::fx::{approx_eq, fx_cos, fx_sin, fx_sqrt, fx_tan, FX_ONE};
use raytracer::intersections::{Intersection, Intersections};
use raytracer::matrix::Matrix4;
use raytracer::tuple::Tuple;
use std::f64::consts::PI;

fn fx(v: f64) -> i64 {
    (v * 4294967296.0).round() as i64
}

fn point(x: f64, y: f64, z: f64) -> Tuple {
    Tuple::new_point(fx(x), fx(y), fx(z))
}

fn vector(x: f64, y: f64, z: f64) -> Tuple {
    Tuple::new_vector(fx(x), fx(y), fx(z))
}

fn mx4(rows: [[f64; 4]; 4]) -> Matrix4 {
    Matrix4::new(rows.map(|r| r.map(fx)))
}

#[test]
fn normalized_vectors_have_unit_magnitude() {
    let samples = [
        vector(1.0, 2.0, 3.0),
        vector(-4.0, 0.5, 12.25),
        vector(0.01, -0.02, 0.005),
        vector(100.0, -250.0, 333.25),
        vector(0.0, 0.0, -7.0),
    ];
    for v in samples {
        let n = v.normalize();
        assert!(approx_eq(n.magnitude(), FX_ONE));
        assert!(n.normalize().approx_eq(&n));
    }
}

#[test]
fn translation_inverse_is_the_opposite_translation() {
    let t = Matrix4::translation(fx(5.0), fx(-3.0), fx(2.0));
    let expected = Matrix4::translation(fx(-5.0), fx(3.0), fx(-2.0));

    assert_eq!(t.inverse(), expected);
    assert_eq!(t.mul(&t.inverse()), Matrix4::identity());
    assert_eq!(t.inverse().inverse(), t);
}

#[test]
fn a_general_inverse_multiplies_back_to_the_identity() {
    let a = mx4([
        [3.0, -9.0, 7.0, 3.0],
        [3.0, -8.0, 2.0, -9.0],
        [-4.0, 4.0, 4.0, 1.0],
        [-6.0, 5.0, -1.0, 1.0],
    ]);

    assert!(a.mul(&a.inverse()).approx_eq(&Matrix4::identity()));
    assert!(a.inverse().inverse().approx_eq(&a));
}

#[test]
fn multiplying_by_the_identity_is_exact_on_both_sides() {
    let a = mx4([
        [0.5, 1.25, -2.0, 4.0],
        [1.0, -2.5, 4.0, 8.0],
        [2.0, 4.0, 8.75, -16.0],
        [4.0, 8.0, 16.0, 32.5],
    ]);

    assert_eq!(a.mul(&Matrix4::identity()), a);
    assert_eq!(Matrix4::identity().mul(&a), a);
}

#[test]
fn a_scaling_matrix_applied_to_a_point_and_a_vector() {
    let transform = Matrix4::scaling(fx(2.0), fx(3.0), fx(4.0));
    let p = point(-4.0, 6.0, 8.0);
    assert!(transform.mul_tuple(&p).approx_eq(&point(-8.0, 18.0, 32.0)));

    let v = vector(-4.0, 6.0, 8.0);
    assert!(transform.mul_tuple(&v).approx_eq(&vector(-8.0, 18.0, 32.0)));
}

#[test]
fn reflection_is_scaling_by_a_negative_value() {
    let transform = Matrix4::scaling(fx(-1.0), fx(1.0), fx(1.0));
    let p = point(2.0, 3.0, 4.0);

    assert!(transform.mul_tuple(&p).approx_eq(&point(-2.0, 3.0, 4.0)));
}

#[test]
fn rotating_a_point_around_the_x_axis() {
    let p = point(0.0, 1.0, 0.0);
    let half_quarter = Matrix4::rotation_x(fx(PI / 4.0));
    let full_quarter = Matrix4::rotation_x(fx(PI / 2.0));
    let s = f64::sqrt(2.0) / 2.0;

    assert!(half_quarter.mul_tuple(&p).approx_eq(&point(0.0, s, s)));
    assert!(full_quarter.mul_tuple(&p).approx_eq(&point(0.0, 0.0, 1.0)));
}

#[test]
fn rotating_a_point_around_the_y_axis() {
    let p = point(0.0, 0.0, 1.0);
    let half_quarter = Matrix4::rotation_y(fx(PI / 4.0));
    let full_quarter = Matrix4::rotation_y(fx(PI / 2.0));
    let s = f64::sqrt(2.0) / 2.0;

    assert!(half_quarter.mul_tuple(&p).approx_eq(&point(s, 0.0, s)));
    assert!(full_quarter.mul_tuple(&p).approx_eq(&point(1.0, 0.0, 0.0)));
}

#[test]
fn rotating_a_point_around_the_z_axis() {
    let p = point(0.0, 1.0, 0.0);
    let half_quarter = Matrix4::rotation_z(fx(PI / 4.0));
    let full_quarter = Matrix4::rotation_z(fx(PI / 2.0));
    let s = f64::sqrt(2.0) / 2.0;

    assert!(half_quarter.mul_tuple(&p).approx_eq(&point(-s, s, 0.0)));
    assert!(full_quarter.mul_tuple(&p).approx_eq(&point(-1.0, 0.0, 0.0)));
}

#[test]
fn a_shearing_transformation_moves_each_axis_in_proportion_to_the_others() {
    let p = point(2.0, 3.0, 4.0);

    let transform = Matrix4::shearing(fx(1.0), 0, 0, 0, 0, 0);
    assert!(transform.mul_tuple(&p).approx_eq(&point(5.0, 3.0, 4.0)));

    let transform = Matrix4::shearing(0, 0, fx(1.0), 0, 0, 0);
    assert!(transform.mul_tuple(&p).approx_eq(&point(2.0, 5.0, 4.0)));

    let transform = Matrix4::shearing(0, 0, 0, 0, fx(1.0), 0);
    assert!(transform.mul_tuple(&p).approx_eq(&point(2.0, 3.0, 6.0)));
}

#[test]
fn individual_transformations_are_applied_in_sequence() {
    let p = point(1.0, 0.0, 1.0);
    let a = Matrix4::rotation_x(fx(PI / 2.0));
    let b = Matrix4::scaling(fx(5.0), fx(5.0), fx(5.0));
    let c = Matrix4::translation(fx(10.0), fx(5.0), fx(7.0));

    let p2 = a.mul_tuple(&p);
    assert!(p2.approx_eq(&point(1.0, -1.0, 0.0)));

    let p3 = b.mul_tuple(&p2);
    assert!(p3.approx_eq(&point(5.0, -5.0, 0.0)));

    let p4 = c.mul_tuple(&p3);
    assert!(p4.approx_eq(&point(15.0, 0.0, 7.0)));

    let chained = c.mul(&b).mul(&a);
    assert!(chained.mul_tuple(&p).approx_eq(&point(15.0, 0.0, 7.0)));
}

#[test]
fn reflecting_a_vector_approaching_at_45_degrees() {
    let v = vector(1.0, -1.0, 0.0);
    let n = vector(0.0, 1.0, 0.0);

    assert!(v.reflect(&n).approx_eq(&vector(1.0, 1.0, 0.0)));
}

#[test]
fn reflecting_a_vector_off_a_slanted_surface() {
    let v = vector(0.0, -1.0, 0.0);
    let s = f64::sqrt(2.0) / 2.0;
    let n = vector(s, s, 0.0);

    assert!(v.reflect(&n).approx_eq(&vector(1.0, 0.0, 0.0)));
}

#[test]
fn the_view_transform_for_the_default_orientation_is_the_identity() {
    let from = point(0.0, 0.0, 0.0);
    let to = point(0.0, 0.0, -1.0);
    let up = vector(0.0, 1.0, 0.0);

    let t = Matrix4::view_transform(from, to, up);
    assert!(t.approx_eq(&Matrix4::identity()));
}

#[test]
fn a_view_transform_looking_in_the_positive_z_direction_mirrors_x_and_z() {
    let from = point(0.0, 0.0, 0.0);
    let to = point(0.0, 0.0, 1.0);
    let up = vector(0.0, 1.0, 0.0);

    let t = Matrix4::view_transform(from, to, up);
    assert!(t.approx_eq(&Matrix4::scaling(fx(-1.0), fx(1.0), fx(-1.0))));
}

#[test]
fn the_view_transform_moves_the_world() {
    let from = point(0.0, 0.0, 8.0);
    let to = point(0.0, 0.0, 0.0);
    let up = vector(0.0, 1.0, 0.0);

    let t = Matrix4::view_transform(from, to, up);
    assert!(t.approx_eq(&Matrix4::translation(fx(0.0), fx(0.0), fx(-8.0))));
}

#[test]
fn an_arbitrary_view_transformation() {
    let from = point(1.0, 3.0, 2.0);
    let to = point(4.0, -2.0, 8.0);
    let up = vector(1.0, 1.0, 0.0);

    let t = Matrix4::view_transform(from, to, up);
    let expected = mx4([
        [-0.50709, 0.50709, 0.67612, -2.36643],
        [0.76772, 0.60609, 0.12122, -2.82843],
        [-0.35857, 0.59761, -0.71714, 0.00000],
        [0.00000, 0.00000, 0.00000, 1.00000],
    ]);
    assert!(t.approx_eq(&expected));
}

#[test]
fn a_hit_at_parameter_zero_counts_as_a_hit() {
    let i1 = Intersection::new(0, 0);
    let i2 = Intersection::new(fx(-1.0), 0);
    let xs = Intersections::new(vec![i1, i2]);

    assert_eq!(xs.hit(), Some(i1));
}

#[test]
fn an_empty_intersection_list_has_no_hit() {
    let xs = Intersections::new(Vec::new());

    assert_eq!(xs.len(), 0);
    assert!(xs.is_empty());
    assert_eq!(xs.hit(), None);
}

#[test]
fn scalar_square_roots_and_trigonometry_match_their_real_values() {
    assert!(approx_eq(fx_sqrt(fx(2.0)), fx(f64::sqrt(2.0))));
    assert!(approx_eq(fx_sqrt(fx(14.0)), fx(f64::sqrt(14.0))));
    assert!(approx_eq(fx_sqrt(0), 0));
    assert!(approx_eq(fx_sin(fx(PI / 6.0)), fx(0.5)));
    assert!(approx_eq(fx_cos(fx(PI / 3.0)), fx(0.5)));
    assert!(approx_eq(fx_tan(fx(PI / 4.0)), FX_ONE));
    assert!(approx_eq(fx_sin(fx(-PI / 2.0)), fx(-1.0)));
    assert!(approx_eq(fx_cos(fx(5.0)), fx(f64::cos(5.0))));
}

#[test]
fn a_camera_with_a_wide_and_a_narrow_field_of_view() {
    let wide = Camera::new(100, 100, fx(PI * 0.75));
    let narrow = Camera::new(100, 100, fx(PI * 0.25));

    assert!(wide.half_width > narrow.half_width);
    assert!(approx_eq(narrow.half_width, fx((PI / 8.0).tan())));
}
