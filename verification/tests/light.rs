use raytracer::color::Color;
use raytracer::light::PointLight;
use raytracer::tuple::Tuple;

fn fx(v: f64) -> i64 {
    (v * 4294967296.0).round() as i64
}

#[test]
fn a_point_light_has_position_and_intensity() {
    let intensity = Color::new(fx(1.0), fx(1.0), fx(1.0));
    let position = Tuple::new_point(0, 0, 0);
    let light = PointLight::new(position, intensity);

    assert_eq!(light.position, position);
    assert_eq!(light.intensity, intensity);
}
