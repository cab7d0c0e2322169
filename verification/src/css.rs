//! CSS text: numbers, the `hsl()` notation of a colour, its hexadecimal
//! form, and the block of declarations.

use vstd::prelude::*;
use vstd::string::*;
use crate::color::{Color, ColorView};

verus! {

/// The character of a decimal digit.
pub open spec fn digit(d: int) -> char {
    if d == 0 {
        '0'
    } else if d == 1 {
        '1'
    } else if d == 2 {
        '2'
    } else if d == 3 {
        '3'
    } else if d == 4 {
        '4'
    } else if d == 5 {
        '5'
    } else if d == 6 {
        '6'
    } else if d == 7 {
        '7'
    } else if d == 8 {
        '8'
    } else {
        '9'
    }
}

/// A natural number in decimal, without leading zeros.
pub open spec fn natural_text(n: nat) -> Seq<char>
    decreases n,
{
    if n < 10 {
        seq![digit(n as int)]
    } else {
        natural_text(n / 10).push(digit((n % 10) as int))
    }
}

/// A number of thousandths in decimal, with three places after the point:
/// `12500` is written `12.500`.
pub open spec fn thousandths_text(n: nat) -> Seq<char> {
    natural_text(n / 1000) + seq![
        '.',
        digit((n / 100 % 10) as int),
        digit((n / 10 % 10) as int),
        digit((n % 10) as int),
    ]
}

/// A colour in the `hsl()` notation of CSS, the hue in degrees, saturation
/// and lightness in percent; alpha is not written.
pub open spec fn hsl_notation(color: ColorView) -> Seq<char> {
    "hsl("@ + thousandths_text(color.hue as nat) + ","@ + thousandths_text(
        color.saturation as nat,
    ) + "%,"@ + thousandths_text(color.lightness as nat) + "%)"@
}

fn digit_text(d: u32) -> (text: &'static str)
    requires
        d < 10,
    ensures
        text@ == seq![digit(d as int)],
{
    proof {
        reveal_strlit("0");
        reveal_strlit("1");
        reveal_strlit("2");
        reveal_strlit("3");
        reveal_strlit("4");
        reveal_strlit("5");
        reveal_strlit("6");
        reveal_strlit("7");
        reveal_strlit("8");
        reveal_strlit("9");
    }
    if d == 0 {
        "0"
    } else if d == 1 {
        "1"
    } else if d == 2 {
        "2"
    } else if d == 3 {
        "3"
    } else if d == 4 {
        "4"
    } else if d == 5 {
        "5"
    } else if d == 6 {
        "6"
    } else if d == 7 {
        "7"
    } else if d == 8 {
        "8"
    } else {
        "9"
    }
}

/// Writes a natural number in decimal.
pub fn write_natural(n: u32) -> (text: String)
    ensures
        text@ == natural_text(n as nat),
    decreases n,
{
    if n < 10 {
        String::from_str(digit_text(n))
    } else {
        let mut text = write_natural(n / 10);
        text.append(digit_text(n % 10));
        text
    }
}

/// Writes a number of thousandths in decimal, three places after the point.
pub fn write_thousandths(n: u32) -> (text: String)
    ensures
        text@ == thousandths_text(n as nat),
{
    proof {
        reveal_strlit(".");
    }
    let mut text = write_natural(n / 1000);
    text.append(".");
    text.append(digit_text(n / 100 % 10));
    text.append(digit_text(n / 10 % 10));
    text.append(digit_text(n % 10));
    text
}

/// Writes a colour in the `hsl()` notation of CSS.
pub fn write_hsl(color: &Color) -> (text: String)
    ensures
        text@ == hsl_notation(color@),
{
    let hue: i64 = color.hue().value();
    let mut text = String::from_str("hsl(");
    text.append(write_thousandths(hue as u32).as_str());
    text.append(",");
    text.append(write_thousandths(color.saturation()).as_str());
    text.append("%,");
    text.append(write_thousandths(color.lightness()).as_str());
    text.append("%)");
    text
}

/// The hexadecimal form, `#rrggbb`, that colorsys gives to the colour it
/// reads from a text in `hsl()` notation; `None` where it reads no colour
/// from the text.
pub uninterp spec fn hex_form(notation: Seq<char>) -> Option<Seq<char>>;

/// The hexadecimal form of a colour.
pub open spec fn hex_of(color: ColorView) -> Option<Seq<char>> {
    hex_form(hsl_notation(color))
}

/// Has colorsys read the notation (`Hsl::from_str`), convert the colour to
/// red, green and blue (`Rgb::from`) and write it (`Rgb::to_hex_string`).
/// Nothing is proved of the conversion: the contract only names its outcome,
/// which depends on the text alone.
#[verifier::external_body]
fn hex_of_notation(notation: &str) -> (hex: Option<String>)
    ensures
        hex matches Some(text) ==> hex_form(notation@) == Some(text@),
        hex is None ==> hex_form(notation@) is None,
{
    match <colorsys::Hsl as std::str::FromStr>::from_str(notation) {
        Ok(hsl) => Some(colorsys::Rgb::from(&hsl).to_hex_string()),
        Err(_) => None,
    }
}

/// The hexadecimal form of a colour, as it stands in CSS; alpha is dropped.
pub fn hsl_to_css(color: &Color) -> (hex: Option<String>)
    ensures
        hex matches Some(text) ==> hex_of(color@) == Some(text@),
        hex is None ==> hex_of(color@) is None,
{
    let notation = write_hsl(color);
    hex_of_notation(notation.as_str())
}

/// The selector under which a block is written where none is given.
pub open spec fn default_selector() -> Seq<char> {
    ":root"@
}

/// The selector of a block: the one given, or `:root`.
pub open spec fn selector_text(selector: Option<&str>) -> Seq<char> {
    match selector {
        Some(given) => given@,
        None => default_selector(),
    }
}

/// One declaration: a new line, a tab, the name, a colon and a space, the
/// value and a semicolon.
pub open spec fn declaration_text(name: Seq<char>, value: Seq<char>) -> Seq<char> {
    "\n\t"@ + name + ": "@ + value + ";"@
}

/// The declarations of a block, one after the other.
pub open spec fn declarations_text(declarations: Seq<(Seq<char>, Seq<char>)>) -> Seq<char>
    decreases declarations.len(),
{
    if declarations.len() == 0 {
        Seq::empty()
    } else {
        declarations_text(declarations.drop_last()) + declaration_text(
            declarations.last().0,
            declarations.last().1,
        )
    }
}

/// A block of declarations: the selector, a space and an opening brace, the
/// declarations, and on a new line a closing brace and a semicolon.
pub open spec fn block_text(selector: Seq<char>, declarations: Seq<(Seq<char>, Seq<char>)>) -> Seq<
    char,
> {
    selector + " {"@ + declarations_text(declarations) + "\n};"@
}

/// What a list of declarations stands for: names and values as texts.
pub open spec fn declarations_view(declarations: Seq<(String, String)>) -> Seq<
    (Seq<char>, Seq<char>),
> {
    declarations.map_values(|d: (String, String)| (d.0@, d.1@))
}

/// Writes a block of declarations, names paired with values, under the
/// selector given or under `:root`.
pub fn write_block(selector: Option<&str>, declarations: &Vec<(String, String)>) -> (text: String)
    ensures
        text@ == block_text(selector_text(selector), declarations_view(declarations@)),
{
    let mut text = match selector {
        Some(given) => String::from_str(given),
        None => String::from_str(":root"),
    };
    text.append(" {");
    let ghost all = declarations_view(declarations@);
    let mut i: usize = 0;
    while i < declarations.len()
        invariant
            i <= declarations.len(),
            all == declarations_view(declarations@),
            text@ == selector_text(selector) + " {"@ + declarations_text(all.take(i as int)),
        decreases declarations.len() - i,
    {
        proof {
            assert(all.take(i + 1).drop_last() == all.take(i as int));
        }
        text.append("\n\t");
        text.append(declarations[i].0.as_str());
        text.append(": ");
        text.append(declarations[i].1.as_str());
        text.append(";");
        i += 1;
    }
    proof {
        assert(all.take(i as int) == all);
    }
    text.append("\n};");
    text
}

} // verus!
