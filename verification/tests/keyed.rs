use std::collections::BTreeMap;

use colorscheme::color::{rotate, Color, OPAQUE, PERCENT};
use colorscheme::css::{hsl_to_css, write_block};
use colorscheme::hue::{Hue, DEGREE};
use colorscheme::scheme::ColorScheme;

fn new_hsl(h: i64) -> Color {
    Color::new(Hue::new(h * DEGREE), 100 * PERCENT, 50 * PERCENT, Some(OPAQUE))
}

fn keyed(scheme: &ColorScheme) -> BTreeMap<String, Color> {
    let mut m = BTreeMap::new();
    m.insert(String::from("--primary"), scheme.primary());
    for (name, color) in scheme.derived() {
        m.insert(String::from(*name), *color);
    }
    m
}

#[test]
fn lib_test_rotate() {
    let o = Color::new(Hue::new(270 * DEGREE), 50 * PERCENT, 50 * PERCENT, Some(OPAQUE));
    let by = Hue::new(91 * DEGREE);
    let r = rotate(&o, by.value());
    assert_eq!(r.hue().value(), 1 * DEGREE);
}

#[test]
fn test_dyad() {
    let primary: i64 = 90;
    let expected_complementary: i64 = 270;
    let expected: BTreeMap<String, Color> = [
        (String::from("--primary"), new_hsl(primary)),
        (String::from("--complementary"), new_hsl(expected_complementary)),
    ]
    .into();
    let dyad = keyed(&ColorScheme::dyad(new_hsl(primary)));
    assert_eq!(dyad, expected);
}

#[test]
fn lib_test_triad() {
    let primary: i64 = 90;
    let expected_clockwise: i64 = 210;
    let expected_counterclockwise: i64 = 330;
    let expected: BTreeMap<String, Color> = [
        (String::from("--primary"), new_hsl(primary)),
        (String::from("--clockwise"), new_hsl(expected_clockwise)),
        (String::from("--counterclockwise"), new_hsl(expected_counterclockwise)),
    ]
    .into();
    let triad = keyed(&ColorScheme::triad(new_hsl(primary)));
    assert_eq!(triad, expected);
}

#[test]
fn lib_test_tetrad() {
    let primary: i64 = 90;
    let expected_upper_right = 180;
    let expected_lower_right = 270;
    let expected_lower_left = 360;
    let expected: BTreeMap<String, Color> = [
        (String::from("--primary"), new_hsl(primary)),
        (String::from("--upper-right"), new_hsl(expected_upper_right)),
        (String::from("--lower-right"), new_hsl(expected_lower_right)),
        (String::from("--lower-left"), new_hsl(expected_lower_left)),
    ]
    .into();
    let tetrad = keyed(&ColorScheme::tetrad(new_hsl(primary)));
    assert_eq!(tetrad, expected);
}

#[test]
fn lib_test_hsl_to_css() {
    let red = new_hsl(0);
    let expected = String::from("#ff0000");
    assert_eq!(hsl_to_css(&red), Some(expected));
}

#[test]
fn lib_test_as_css() {
    let primary = new_hsl(0);
    let expected = String::from(":root {\n\t--complementary: #00ffff;\n\t--primary: #ff0000;\n};");
    let dyad = ColorScheme::dyad(primary);
    let by_name: Vec<(String, String)> = keyed(&dyad)
        .into_iter()
        .map(|(name, color)| (name, hsl_to_css(&color).unwrap()))
        .collect();
    let actual = write_block(None, &by_name);
    assert_eq!(actual, expected);
}
