use raytracer::color::Color;
use raytracer::fx::approx_eq;
use raytracer::light::PointLight;
use raytracer::material::Material;
use raytracer::tuple::Tuple;

fn fx(v: f64) -> i64 {
    (v * 4294967296.0).round() as i64
}

fn point(x: f64, y: f64, z: f64) -> Tuple {
    Tuple::new_point(fx(x), fx(y), fx(z))
}

fn vector(x: f64, y: f64, z: f64) -> Tuple {
    Tuple::new_vector(fx(x), fx(y), fx(z))
}

fn col(r: f64, g: f64, b: f64) -> Color {
    Color::new(fx(r), fx(g), fx(b))
}

#[test]
fn material_the_default_material() {
    let m = Material::new();

    assert!(m.color.approx_eq(&col(1.0, 1.0, 1.0)));
    assert!(approx_eq(m.ambient, fx(0.1)));
    assert!(approx_eq(m.diffuse, fx(0.9)));
    assert!(approx_eq(m.specular, fx(0.9)));
    assert!(approx_eq(m.shininess, fx(200.0)));
}

#[test]
fn lighting_with_the_eye_between_the_light_and_the_surface() {
    let m = Material::new();
    let position = point(0.0, 0.0, 0.0);

    let eyev = vector(0.0, 0.0, -1.0);
    let normalv = vector(0.0, 0.0, -1.0);
    let light = PointLight::new(point(0.0, 0.0, -10.0), col(1.0, 1.0, 1.0));
    let result = m.lighting(light, position, eyev, normalv, false);
    let expected = col(1.9, 1.9, 1.9);

    assert!(result.approx_eq(&expected));
}

#[test]
fn lighting_with_the_eye_between_the_light_and_the_surface_eye_offset_45_degrees() {
    let m = Material::new();
    let position = point(0.0, 0.0, 0.0);

    let c = f64::sqrt(2.0) / 2.0;
    let eyev = vector(0.0, c, -c);
    let normalv = vector(0.0, 0.0, -1.0);
    let light = PointLight::new(point(0.0, 0.0, -10.0), col(1.0, 1.0, 1.0));
    let result = m.lighting(light, position, eyev, normalv, false);
    let expected = col(1.0, 1.0, 1.0);

    assert!(result.approx_eq(&expected));
}

#[test]
fn lighting_with_the_eye_opposite_surface_light_offset_45_degrees() {
    let m = Material::new();
    let position = point(0.0, 0.0, 0.0);

    let eyev = vector(0.0, 0.0, -1.0);
    let normalv = vector(0.0, 0.0, -1.0);
    let light = PointLight::new(point(0.0, 10.0, -10.0), col(1.0, 1.0, 1.0));
    let result = m.lighting(light, position, eyev, normalv, false);
    let expected = col(0.7364, 0.7364, 0.7364);

    assert!(result.approx_eq(&expected));
}

#[test]
fn lighting_with_the_eye_in_the_path_of_the_reflection_vector() {
    let m = Material::new();
    let position = point(0.0, 0.0, 0.0);

    let c = f64::sqrt(2.0) / 2.0;
    let eyev = vector(0.0, -c, -c);
    let normalv = vector(0.0, 0.0, -1.0);
    let light = PointLight::new(point(0.0, 10.0, -10.0), col(1.0, 1.0, 1.0));
    let result = m.lighting(light, position, eyev, normalv, false);
    let expected = col(1.6364, 1.6364, 1.6364);

    assert!(result.approx_eq(&expected));
}

#[test]
fn lighting_with_the_light_behind_the_surface() {
    let m = Material::new();
    let position = point(0.0, 0.0, 0.0);

    let eyev = vector(0.0, 0.0, -1.0);
    let normalv = vector(0.0, 0.0, -1.0);
    let light = PointLight::new(point(0.0, 0.0, 10.0), col(1.0, 1.0, 1.0));
    let result = m.lighting(light, position, eyev, normalv, false);
    let expected = col(0.1, 0.1, 0.1);

    assert!(result.approx_eq(&expected));
}
