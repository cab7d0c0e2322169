use colorscheme::cli::{Args, CliScheme};
use colorscheme::color::{Color, Rgb};
use colorscheme::css::hsl_to_css;
use colorscheme::hue::Hue;
use colorscheme::scheme::ColorScheme;

fn color_of(rgb: Rgb) -> Color {
    let hsl = colorsys::Hsl::from(colorsys::Rgb::from((rgb.red, rgb.green, rgb.blue)));
    Color::new(
        Hue::new((hsl.hue() * 1000.0).round() as i64),
        (hsl.saturation() * 1000.0).round() as u32,
        (hsl.lightness() * 1000.0).round() as u32,
        None,
    )
}

fn run(primary: &str, schemes: Vec<CliScheme>, selector: Option<&str>) -> Option<String> {
    let args = Args::new(String::from(primary), schemes, selector.map(String::from));
    let rgb = args.primary()?;
    ColorScheme::from_schemes(color_of(rgb), args.schemes()).as_css(args.selector.as_deref())
}

#[test]
fn red_and_its_complement_under_the_default_selector() {
    let expected = ":root {\n\t--primary: #ff0000;\n\t--complementary: #00ffff;\n};";
    assert_eq!(run("#ff0000", vec![CliScheme::Complementary], None), Some(String::from(expected)));
    assert_eq!(run("red", vec![CliScheme::Complementary], None), Some(String::from(expected)));
    assert_eq!(run("ff0000", vec![CliScheme::Complementary], None), Some(String::from(expected)));
}

#[test]
fn no_colour_no_block() {
    assert_eq!(run("transparent", vec![CliScheme::Triad], None), None);
    assert_eq!(run("nothing", vec![CliScheme::Triad], None), None);
}

#[test]
fn the_primary_colour_is_written_as_it_was_given() {
    let mut n: u32 = 12345;
    for _ in 0..2000 {
        n = n.wrapping_mul(1_103_515_245).wrapping_add(12345);
        let rgb = Rgb { red: (n >> 24) as u8, green: (n >> 16) as u8, blue: (n >> 8) as u8 };
        let hex = format!("#{:02x}{:02x}{:02x}", rgb.red, rgb.green, rgb.blue);
        assert_eq!(hsl_to_css(&color_of(rgb)), Some(hex));
    }
}

#[test]
fn text_and_background_of_a_named_colour() {
    let css = run("steelblue", vec![CliScheme::Text, CliScheme::Background], Some("main")).unwrap();
    let lines: Vec<&str> = css.lines().collect();
    assert_eq!(lines.len(), 5);
    assert_eq!(lines[0], "main {");
    assert_eq!(lines[1], "\t--primary: #4682b4;");
    assert!(lines[2].starts_with("\t--text-primary: #"));
    assert!(lines[3].starts_with("\t--background-primary: #"));
    assert_eq!(lines[4], "};");
}
