use raytracer::canvas::Canvas;
use raytracer::color::Color;

fn fx(v: f64) -> i64 {
    (v * 4294967296.0).round() as i64
}

fn col(r: f64, g: f64, b: f64) -> Color {
    Color::new(fx(r), fx(g), fx(b))
}

#[test]
fn creating_a_canvas() {
    let c = Canvas::new(10, 20);
    assert_eq!(c.width(), 10);
    assert_eq!(c.height(), 20);
    for y in 0..20 {
        for x in 0..10 {
            assert_eq!(c.pixel_at(x, y), col(0.0, 0.0, 0.0));
        }
    }
}

#[test]
fn writing_pixels_to_a_canvas() {
    let mut c = Canvas::new(10, 20);
    let red = col(1.0, 0.0, 0.0);
    c.write_pixel(2, 3, red);
    assert_eq!(c.pixel_at(2, 3), red);
}

#[test]
fn constructing_the_ppm_header() {
    let c = Canvas::new(5, 3);
    let ppm = c.to_ppm();
    let expected = String::from("P3\n5 3\n255\n");
    let header = String::from_utf8(ppm)
        .unwrap()
        .lines()
        .take(3)
        .fold(String::new(), |lhs, rhs| format!("{}{}\n", lhs, rhs));
    assert_eq!(header, expected);
}

#[test]
fn constructing_the_ppm_pixel_data() {
    let mut c = Canvas::new(5, 3);
    let c1 = col(1.5, 0.0, 0.0);
    let c2 = col(0.0, 0.5, 0.0);
    let c3 = col(-0.5, 0.0, 1.0);
    c.write_pixel(0, 0, c1);
    c.write_pixel(2, 1, c2);
    c.write_pixel(4, 2, c3);
    let ppm = c.to_ppm();
    let expected = "\
        255 0 0 0 0 0 0 0 0 0 0 0 0 0 0\n\
        0 0 0 0 0 0 0 128 0 0 0 0 0 0 0\n\
        0 0 0 0 0 0 0 0 0 0 0 0 0 0 255\n";
    let data = String::from_utf8(ppm)
        .unwrap()
        .lines()
        .skip(3)
        .fold(String::new(), |lhs, rhs| format!("{}{}\n", lhs, rhs));
    assert_eq!(data, expected);
}

#[test]
fn splitting_long_lines_in_ppm_files() {
    let mut c = Canvas::new(10, 2);
    for y in 0..2 {
        for x in 0..10 {
            c.write_pixel(x, y, col(1.0, 0.8, 0.6));
        }
    }
    let ppm = c.to_ppm();
    let expected = "\
        255 204 153 255 204 153 255 204 153 255 204 153 255 204 153 255 204\n\
        153 255 204 153 255 204 153 255 204 153 255 204 153\n\
        255 204 153 255 204 153 255 204 153 255 204 153 255 204 153 255 204\n\
        153 255 204 153 255 204 153 255 204 153 255 204 153\n";
    let data = String::from_utf8(ppm)
        .unwrap()
        .lines()
        .skip(3)
        .fold(String::new(), |lhs, rhs| format!("{}{}\n", lhs, rhs));
    assert_eq!(data, expected);
}

#[test]
fn ppm_files_are_terminated_by_a_newline_character() {
    let c = Canvas::new(5, 3);
    let ppm = c.to_ppm();
    assert_eq!(ppm.last(), Some(&b'\n'));
}
