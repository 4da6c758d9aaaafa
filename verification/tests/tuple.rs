use raytracer::fx::approx_eq;
use raytracer::tuple::Tuple;

fn fx(v: f64) -> i64 {
    (v * 4294967296.0).round() as i64
}

fn tup(x: f64, y: f64, z: f64, w: f64) -> Tuple {
    Tuple::new(fx(x), fx(y), fx(z), fx(w))
}

fn point(x: f64, y: f64, z: f64) -> Tuple {
    Tuple::new_point(fx(x), fx(y), fx(z))
}

fn vector(x: f64, y: f64, z: f64) -> Tuple {
    Tuple::new_vector(fx(x), fx(y), fx(z))
}

#[test]
fn tuple_with_w_equals_1_is_a_point() {
    let a = tup(4.3, -4.2, 3.1, 1.0);
    assert!(a.is_point());
    assert!(!a.is_vector());
}

#[test]
fn tuple_with_w_equals_0_is_a_vector() {
    let a = tup(4.3, -4.2, 3.1, 0.0);
    assert!(!a.is_point());
    assert!(a.is_vector());
}

#[test]
fn new_point_creates_tuple_with_w_equals_1() {
    let a = tup(4.0, -4.0, 3.0, 1.0);
    let p = point(4.0, -4.0, 3.0);
    assert!(a.is_point());
    assert!(a.approx_eq(&p));
}

#[test]
fn new_vector_creates_tuple_with_w_equals_0() {
    let a = tup(4.0, -4.0, 3.0, 0.0);
    let p = vector(4.0, -4.0, 3.0);
    assert!(a.is_vector());
    assert!(a.approx_eq(&p));
}

#[test]
fn adding_two_tuples_results_in_correct_tuple() {
    let a1 = tup(3.0, -2.0, 5.0, 1.0);
    let a2 = tup(-2.0, 3.0, 1.0, 0.0);
    let expected = tup(1.0, 1.0, 6.0, 1.0);
    assert!(a1.add(&a2).approx_eq(&expected));
}

#[test]
fn subtracting_two_points_results_in_correct_vector() {
    let p1 = point(3.0, 2.0, 1.0);
    let p2 = point(5.0, 6.0, 7.0);
    let expected = vector(-2.0, -4.0, -6.0);
    assert!(p1.sub(&p2).approx_eq(&expected));
}

#[test]
fn subtracting_a_vector_from_a_point_results_in_correct_point() {
    let p = point(3.0, 2.0, 1.0);
    let v = vector(5.0, 6.0, 7.0);
    let expected = point(-2.0, -4.0, -6.0);
    assert!(p.sub(&v).approx_eq(&expected));
}

#[test]
fn subtracting_two_vectors_results_in_correct_vector() {
    let v1 = vector(3.0, 2.0, 1.0);
    let v2 = vector(5.0, 6.0, 7.0);
    let expected = vector(-2.0, -4.0, -6.0);
    assert!(v1.sub(&v2).approx_eq(&expected));
}

#[test]
fn subtracting_a_vector_from_the_zero_vector_results_in_correct_vector() {
    let zero = vector(0.0, 0.0, 0.0);
    let v = vector(1.0, -2.0, 3.0);
    let expected = vector(-1.0, 2.0, -3.0);
    assert!(zero.sub(&v).approx_eq(&expected));
}

#[test]
fn negating_a_tuple_results_in_correct_tuple() {
    let a = tup(1.0, -2.0, 3.0, -4.0);
    let expected = tup(-1.0, 2.0, -3.0, 4.0);
    assert!(a.neg().approx_eq(&expected));
}

#[test]
fn multiplying_a_tuple_by_a_scalar_results_in_correct_tuple() {
    let a = tup(1.0, -2.0, 3.0, -4.0);
    let expected = tup(3.5, -7.0, 10.5, -14.0);
    assert!(a.scale(fx(3.5)).approx_eq(&expected));
}

#[test]
fn multiplying_a_tuple_by_a_fraction_results_in_correct_tuple() {
    let a = tup(1.0, -2.0, 3.0, -4.0);
    let expected = tup(0.5, -1.0, 1.5, -2.0);
    assert!(a.scale(fx(0.5)).approx_eq(&expected));
}

#[test]
fn dividing_a_tuple_by_a_scalar_results_in_correct_tuple() {
    let a = tup(1.0, -2.0, 3.0, -4.0);
    let expected = tup(0.5, -1.0, 1.5, -2.0);
    assert!(a.div_scalar(fx(2.0)).approx_eq(&expected));
}

#[test]
fn magnitude_of_vector_1_0_0_is_1() {
    let v = vector(1.0, 0.0, 0.0);
    assert_eq!(v.magnitude(), fx(1.0));
}

#[test]
fn magnitude_of_vector_0_1_0_is_1() {
    let v = vector(0.0, 1.0, 0.0);
    assert_eq!(v.magnitude(), fx(1.0));
}

#[test]
fn magnitude_of_vector_0_0_1_is_1() {
    let v = vector(0.0, 0.0, 1.0);
    assert_eq!(v.magnitude(), fx(1.0));
}

#[test]
fn magnitude_of_vector_results_is_correct() {
    let v = vector(1.0, 2.0, 3.0);
    assert!(approx_eq(v.magnitude(), fx(f64::sqrt(14.0))));
}

#[test]
fn magnitude_of_all_negative_vector_results_is_correct() {
    let v = vector(-1.0, -2.0, -3.0);
    assert!(approx_eq(v.magnitude(), fx(f64::sqrt(14.0))));
}

#[test]
fn normalizing_vector_4_0_0_gives_vector_1_0_0() {
    let v = vector(4.0, 0.0, 0.0);
    let expected = vector(1.0, 0.0, 0.0);
    assert!(v.normalize().approx_eq(&expected));
}

#[test]
fn normalizing_vector_4_0_0_gives_correct_vector() {
    let v = vector(1.0, 2.0, 3.0);
    let sqrt_14 = f64::sqrt(14.0);
    let expected = vector(1.0 / sqrt_14, 2.0 / sqrt_14, 3.0 / sqrt_14);
    assert!(v.normalize().approx_eq(&expected));
}

#[test]
fn magnitude_of_normalized_vector_is_1() {
    let v = vector(1.0, 2.0, 3.0);
    assert!(approx_eq(v.normalize().magnitude(), fx(1.0)));
}

#[test]
fn scalar_product_of_two_vectors_is_correct() {
    let a = vector(1.0, 2.0, 3.0);
    let b = vector(2.0, 3.0, 4.0);
    assert!(approx_eq(a.dot(&b), fx(20.0)));
}

#[test]
fn cross_product_of_two_vectors_is_correct() {
    let a = vector(1.0, 2.0, 3.0);
    let b = vector(2.0, 3.0, 4.0);

    let expected = vector(-1.0, 2.0, -1.0);
    assert!(a.cross(&b).approx_eq(&expected));

    let expected = vector(1.0, -2.0, 1.0);
    assert!(b.cross(&a).approx_eq(&expected));
}
