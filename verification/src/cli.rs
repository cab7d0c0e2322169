//! The arguments of the command line: the primary colour as the user wrote
//! it, the schemes asked for, and the selector.

use vstd::prelude::*;
use vstd::string::*;
use crate::color::Rgb;
use crate::scheme::Scheme;

verus! {

/// The schemes as they are named on the command line, one for each
/// [`Scheme`].
#[derive(Clone, Copy, Debug, PartialEq, Eq)]
pub enum CliScheme {
    /// A lighter and a darker variant of the same hue.
    /// Variable names: `--lighter`, `--darker`
    Column,
    /// The complementary colour, half a turn away.
    /// Variable names: `--complementary`
    Complementary,
    /// The complementary colour with saturation and lightness inverted.
    /// Variable names: `--diagonal-complementary`
    DiagonalComplementary,
    /// An isosceles triangle: a third of a turn clockwise and
    /// counterclockwise.
    /// Variable names: `--clockwise`, `--counterclockwise`
    Triad,
    /// A square with the primary colour as its upper left corner.
    /// Variable names: `--upper-right`, `--lower-right`, `--lower-left`
    Tetrad,
    /// A dark and saturated variant, fit for text.
    /// Variable names: `--text-primary`
    Text,
    /// A light and desaturated variant, fit for a background.
    /// Variable names: `--background-primary`
    Background,
}

/// The scheme that a name of the command line stands for.
pub open spec fn scheme_of(cli_scheme: CliScheme) -> Scheme {
    match cli_scheme {
        CliScheme::Column => Scheme::Column,
        CliScheme::Complementary => Scheme::Complementary,
        CliScheme::DiagonalComplementary => Scheme::DiagonalComplementary,
        CliScheme::Triad => Scheme::Triad,
        CliScheme::Tetrad => Scheme::Tetrad,
        CliScheme::Text => Scheme::Text,
        CliScheme::Background => Scheme::Background,
    }
}

/// The red, green and blue that css_named_colors gives for the name of a
/// colour; `None` for a name it does not know and for `transparent`.
pub uninterp spec fn named_rgb(name: Seq<char>) -> Option<(u8, u8, u8)>;

/// The red, green and blue that colorsys reads from a hexadecimal code;
/// `None` where it reads no colour from the text. Where the code has digits
/// for alpha, they are not part of the result.
pub uninterp spec fn hex_code_rgb(code: Seq<char>) -> Option<(u8, u8, u8)>;

/// The colour that a text names: a hexadecimal code if it starts with `#`;
/// no colour if it is `transparent`; else the colour of that name, and where
/// there is no such name, the text read as a hexadecimal code without its
/// `#`.
pub open spec fn primary_rgb(primary: Seq<char>) -> Option<(u8, u8, u8)> {
    if primary.len() > 0 && primary[0] == '#' {
        hex_code_rgb(primary)
    } else if primary == "transparent"@ {
        None
    } else if named_rgb(primary) is Some {
        named_rgb(primary)
    } else {
        hex_code_rgb("#"@ + primary)
    }
}

/// Looks a name up with `css_named_colors::NamedColor::from_name` and takes
/// the colour's `rgb`. Nothing is proved of the table: the contract only
/// names the outcome, which depends on the name alone.
#[verifier::external_body]
fn named_color_rgb(name: &str) -> (rgb: Option<(u8, u8, u8)>)
    ensures
        rgb == named_rgb(name@),
{
    match css_named_colors::NamedColor::from_name(name) {
        Some(color) => color.rgb(),
        None => None,
    }
}

/// The name under which css_named_colors holds the colour that is no
/// colour: `NamedColor::TRANSPARENT.name()`, which is `transparent`.
#[verifier::external_body]
fn transparent_name() -> (name: &'static str)
    ensures
        name@ == "transparent"@,
{
    css_named_colors::NamedColor::TRANSPARENT.name()
}

/// Reads a hexadecimal code with `colorsys::Rgb::from_hex_str` and takes the
/// three channels as whole numbers. Nothing is proved of the reading: the
/// contract only names the outcome, which depends on the text alone.
#[verifier::external_body]
fn hex_rgb(code: &str) -> (rgb: Option<(u8, u8, u8)>)
    ensures
        rgb == hex_code_rgb(code@),
{
    match colorsys::Rgb::from_hex_str(code) {
        Ok(color) => Some(color.into()),
        Err(_) => None,
    }
}

/// The arguments of the command line.
#[derive(Debug)]
pub struct Args {
    primary_str: String,
    cli_schemes: Vec<CliScheme>,
    pub selector: Option<String>,
}

/// What [`Args`] stand for.
pub struct ArgsView {
    pub primary: Seq<char>,
    pub schemes: Seq<CliScheme>,
    pub selector: Option<Seq<char>>,
}

impl View for Args {
    type V = ArgsView;

    closed spec fn view(&self) -> ArgsView {
        ArgsView {
            primary: self.primary_str@,
            schemes: self.cli_schemes@,
            selector: match self.selector {
                Some(s) => Some(s@),
                None => None,
            },
        }
    }
}

impl Args {
    /// The arguments as they were given.
    pub fn new(primary_str: String, cli_schemes: Vec<CliScheme>, selector: Option<String>) -> (args:
        Self)
        ensures
            args@.primary == primary_str@,
            args@.schemes == cli_schemes@,
            args@.selector == match selector {
                Some(s) => Some(s@),
                None => None::<Seq<char>>,
            },
    {
        Args { primary_str, cli_schemes, selector }
    }

    /// The primary colour: the text of the argument read as a hexadecimal
    /// code or as the name of a colour of CSS; `None` if it is neither.
    pub fn primary(&self) -> (rgb: Option<Rgb>)
        ensures
            match rgb {
                Some(c) => primary_rgb(self@.primary) == Some((c.red, c.green, c.blue)),
                None => primary_rgb(self@.primary) is None,
            },
    {
        Args::parse_primary(self.primary_str.as_str())
    }

    /// The scheme that a name of the command line stands for.
    pub fn to_scheme(cli_scheme: &CliScheme) -> (scheme: Scheme)
        ensures
            scheme == scheme_of(*cli_scheme),
    {
        match cli_scheme {
            CliScheme::Column => Scheme::Column,
            CliScheme::Complementary => Scheme::Complementary,
            CliScheme::DiagonalComplementary => Scheme::DiagonalComplementary,
            CliScheme::Triad => Scheme::Triad,
            CliScheme::Tetrad => Scheme::Tetrad,
            CliScheme::Text => Scheme::Text,
            CliScheme::Background => Scheme::Background,
        }
    }

    /// The schemes asked for, in the order in which they were asked for.
    pub fn schemes(&self) -> (schemes: Vec<Scheme>)
        ensures
            schemes@ == self@.schemes.map_values(|c: CliScheme| scheme_of(c)),
    {
        let mut schemes: Vec<Scheme> = Vec::new();
        let mut i: usize = 0;
        while i < self.cli_schemes.len()
            invariant
                i <= self.cli_schemes.len(),
                schemes@ == self.cli_schemes@.take(i as int).map_values(
                    |c: CliScheme| scheme_of(c),
                ),
            decreases self.cli_schemes.len() - i,
        {
            schemes.push(Args::to_scheme(&self.cli_schemes[i]));
            i += 1;
        }
        proof {
            assert(self.cli_schemes@.take(i as int) == self.cli_schemes@);
        }
        schemes
    }

    /// Reads a text as a colour: a hexadecimal code or the name of a colour
    /// of CSS.
    pub fn parse_primary(primary: &str) -> (rgb: Option<Rgb>)
        ensures
            match rgb {
                Some(c) => primary_rgb(primary@) == Some((c.red, c.green, c.blue)),
                None => primary_rgb(primary@) is None,
            },
    {
        let found = if primary.unicode_len() > 0 && primary.get_char(0) == '#' {
            hex_rgb(primary)
        } else if String::from_str(primary) == String::from_str(transparent_name()) {
            None
        } else {
            let from_name = named_color_rgb(primary);
            if from_name.is_some() {
                from_name
            } else {
                let code = String::from_str("#").concat(primary);
                hex_rgb(code.as_str())
            }
        };
        match found {
            Some((red, green, blue)) => Some(Rgb { red, green, blue }),
            None => None,
        }
    }
}

} // verus!
