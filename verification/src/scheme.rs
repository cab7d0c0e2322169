//! Colour schemes: the rules that derive colours from a primary colour, and
//! the scheme that holds them.

use vstd::prelude::*;
use vstd::string::*;
use crate::color::{
    lemma_rotations_add, rotate, with_lightness, with_saturation, Color, ColorView, CHANNEL_MAX,
    PERCENT,
};
use crate::css::{block_text, declarations_view, hex_of, hsl_to_css, selector_text, write_block};
use crate::hue::DEGREE;

verus! {

/// The rules by which colours are derived from a primary colour. A rule
/// changes the hue and keeps saturation and lightness, except where noted.
#[derive(Debug, Eq, PartialEq, Copy, Clone)]
pub enum Scheme {
    /// A lighter and a darker variant of the same hue.
    /// Variable names: `--lighter`, `--darker`
    Column,
    /// The complementary colour, half a turn away; also called a dyad.
    /// Variable names: `--complementary`
    Complementary,
    /// The complementary colour with saturation and lightness inverted.
    /// Variable names: `--diagonal-complementary`
    DiagonalComplementary,
    /// An isosceles triangle: a third of a turn clockwise and
    /// counterclockwise.
    /// Variable names: `--clockwise`, `--counterclockwise`
    Triad,
    /// A square with the primary colour as its upper left corner: a quarter,
    /// a half and three quarters of a turn clockwise.
    /// Variable names: `--upper-right`, `--lower-right`, `--lower-left`
    Tetrad,
    /// A dark and saturated variant, fit for text.
    /// Variable names: `--text-primary`
    Text,
    /// A light and desaturated variant, fit for a background.
    /// Variable names: `--background-primary`
    Background,
}

/// A custom property of CSS and the colour it is given.
pub type ColorVar = (&'static str, Color);

/// What a list of [`ColorVar`] stands for: names and colours as mathematical
/// values.
pub open spec fn vars_view(vars: Seq<ColorVar>) -> Seq<(Seq<char>, ColorView)> {
    vars.map_values(|v: ColorVar| (v.0@, v.1@))
}

/// The colours of [`Scheme::Column`]: lightness multiplied by one and a half,
/// rounded down and held to the channel's range, and lightness halved,
/// rounded down.
pub open spec fn column_colors(primary: ColorView) -> Seq<(Seq<char>, ColorView)> {
    seq![
        ("--lighter"@, primary.with_lightness(primary.lightness * 3 / 2)),
        ("--darker"@, primary.with_lightness(primary.lightness / 2)),
    ]
}

/// The colour of [`Scheme::Complementary`]: half a turn on.
pub open spec fn complementary_colors(primary: ColorView) -> Seq<(Seq<char>, ColorView)> {
    seq![("--complementary"@, primary.rotated(180 * DEGREE))]
}

/// The colour of [`Scheme::DiagonalComplementary`]: half a turn on, with
/// saturation and lightness each replaced by what they lack of the maximum.
pub open spec fn diagonal_complementary_colors(primary: ColorView) -> Seq<(Seq<char>, ColorView)> {
    seq![
        (
            "--diagonal-complementary"@,
            primary.rotated(180 * DEGREE).with_saturation(
                CHANNEL_MAX - primary.saturation,
            ).with_lightness(CHANNEL_MAX - primary.lightness),
        ),
    ]
}

/// The colours of [`Scheme::Triad`]: a third of a turn on and a third of a
/// turn back.
pub open spec fn triad_colors(primary: ColorView) -> Seq<(Seq<char>, ColorView)> {
    seq![
        ("--clockwise"@, primary.rotated(120 * DEGREE)),
        ("--counterclockwise"@, primary.rotated(-120 * DEGREE)),
    ]
}

/// The colours of [`Scheme::Tetrad`]: each a quarter of a turn on from the
/// one before, the first from the primary colour.
pub open spec fn tetrad_colors(primary: ColorView) -> Seq<(Seq<char>, ColorView)> {
    let upper_right = primary.rotated(90 * DEGREE);
    let lower_right = upper_right.rotated(90 * DEGREE);
    let lower_left = lower_right.rotated(90 * DEGREE);
    seq![
        ("--upper-right"@, upper_right),
        ("--lower-right"@, lower_right),
        ("--lower-left"@, lower_left),
    ]
}

/// The colour of [`Scheme::Text`]: saturation at three quarters of the
/// maximum, then lightness at one eighth of it.
pub open spec fn text_colors(primary: ColorView) -> Seq<(Seq<char>, ColorView)> {
    seq![
        (
            "--text-primary"@,
            primary.with_saturation(75 * PERCENT).with_lightness(12 * PERCENT + PERCENT / 2),
        ),
    ]
}

/// The colour of [`Scheme::Background`]: saturation at one quarter of the
/// maximum, then lightness at seven eighths of it.
pub open spec fn background_colors(primary: ColorView) -> Seq<(Seq<char>, ColorView)> {
    seq![
        (
            "--background-primary"@,
            primary.with_saturation(25 * PERCENT).with_lightness(87 * PERCENT + PERCENT / 2),
        ),
    ]
}

/// The colours that a scheme derives from a primary colour, in the order in
/// which the scheme lists them.
pub open spec fn scheme_colors(primary: ColorView, scheme: Scheme) -> Seq<(Seq<char>, ColorView)> {
    match scheme {
        Scheme::Column => column_colors(primary),
        Scheme::Complementary => complementary_colors(primary),
        Scheme::DiagonalComplementary => diagonal_complementary_colors(primary),
        Scheme::Triad => triad_colors(primary),
        Scheme::Tetrad => tetrad_colors(primary),
        Scheme::Text => text_colors(primary),
        Scheme::Background => background_colors(primary),
    }
}

/// The colours of [`Scheme::Column`].
pub fn column(primary: &Color) -> (vars: Vec<ColorVar>)
    ensures
        vars_view(vars@) == column_colors(primary@),
{
    let lightness = primary.lightness();
    let lighter = with_lightness(primary, lightness * 3 / 2);
    let darker = with_lightness(primary, lightness / 2);
    let mut vars: Vec<ColorVar> = Vec::new();
    vars.push(("--lighter", lighter));
    vars.push(("--darker", darker));
    vars
}

/// The colour of [`Scheme::Complementary`].
pub fn complementary(primary: &Color) -> (vars: Vec<ColorVar>)
    ensures
        vars_view(vars@) == complementary_colors(primary@),
{
    let complementary = rotate(primary, 180 * DEGREE);
    let mut vars: Vec<ColorVar> = Vec::new();
    vars.push(("--complementary", complementary));
    vars
}

/// The colour of [`Scheme::DiagonalComplementary`].
pub fn diagonal_complementary(primary: &Color) -> (vars: Vec<ColorVar>)
    ensures
        vars_view(vars@) == diagonal_complementary_colors(primary@),
{
    let opposite = rotate(primary, 180 * DEGREE);
    let opposite = with_saturation(&opposite, CHANNEL_MAX - primary.saturation());
    let opposite = with_lightness(&opposite, CHANNEL_MAX - primary.lightness());
    let mut vars: Vec<ColorVar> = Vec::new();
    vars.push(("--diagonal-complementary", opposite));
    vars
}

/// The colours of [`Scheme::Triad`].
pub fn triad(primary: &Color) -> (vars: Vec<ColorVar>)
    ensures
        vars_view(vars@) == triad_colors(primary@),
{
    let clockwise = rotate(primary, 120 * DEGREE);
    let counterclockwise = rotate(primary, -120 * DEGREE);
    let mut vars: Vec<ColorVar> = Vec::new();
    vars.push(("--clockwise", clockwise));
    vars.push(("--counterclockwise", counterclockwise));
    vars
}

/// The colours of [`Scheme::Tetrad`].
pub fn tetrad(primary: &Color) -> (vars: Vec<ColorVar>)
    ensures
        vars_view(vars@) == tetrad_colors(primary@),
{
    let by: i64 = 90 * DEGREE;
    let upper_right = rotate(primary, by);
    let lower_right = rotate(&upper_right, by);
    let lower_left = rotate(&lower_right, by);
    let mut vars: Vec<ColorVar> = Vec::new();
    vars.push(("--upper-right", upper_right));
    vars.push(("--lower-right", lower_right));
    vars.push(("--lower-left", lower_left));
    vars
}

/// The colour of [`Scheme::Text`].
pub fn text(primary: &Color) -> (vars: Vec<ColorVar>)
    ensures
        vars_view(vars@) == text_colors(primary@),
{
    let text_primary = with_saturation(primary, 75 * PERCENT);
    let text_primary = with_lightness(&text_primary, 12 * PERCENT + PERCENT / 2);
    let mut vars: Vec<ColorVar> = Vec::new();
    vars.push(("--text-primary", text_primary));
    vars
}

/// The colour of [`Scheme::Background`].
pub fn background(primary: &Color) -> (vars: Vec<ColorVar>)
    ensures
        vars_view(vars@) == background_colors(primary@),
{
    let background_primary = with_saturation(primary, 25 * PERCENT);
    let background_primary = with_lightness(&background_primary, 87 * PERCENT + PERCENT / 2);
    let mut vars: Vec<ColorVar> = Vec::new();
    vars.push(("--background-primary", background_primary));
    vars
}

/// The colours that several schemes derive from one primary colour: those
/// of the first scheme, then those of the second, and so on. Each scheme
/// starts from the primary colour, not from what the scheme before it gave.
pub open spec fn derived_colors(primary: ColorView, schemes: Seq<Scheme>) -> Seq<
    (Seq<char>, ColorView),
>
    decreases schemes.len(),
{
    if schemes.len() == 0 {
        Seq::empty()
    } else {
        derived_colors(primary, schemes.drop_last()) + scheme_colors(primary, schemes.last())
    }
}

/// What a [`ColorScheme`] stands for.
pub struct ColorSchemeView {
    pub primary: ColorView,
    pub colors: Seq<(Seq<char>, ColorView)>,
}

impl ColorSchemeView {
    /// The variables of the scheme as they are written out: `--primary`
    /// first, then the derived colours in their order.
    pub open spec fn variables(self) -> Seq<(Seq<char>, ColorView)> {
        seq![("--primary"@, self.primary)] + self.colors
    }
}

/// Every colour of the list has a hexadecimal form.
pub open spec fn all_have_hex(vars: Seq<(Seq<char>, ColorView)>) -> bool {
    forall|i: int| 0 <= i < vars.len() ==> (#[trigger] hex_of(vars[i].1)) is Some
}

/// The declarations that a list of named colours is written as: each name
/// with the hexadecimal form of its colour.
pub open spec fn hex_declarations(vars: Seq<(Seq<char>, ColorView)>) -> Seq<
    (Seq<char>, Seq<char>),
> {
    vars.map_values(|v: (Seq<char>, ColorView)| (v.0, hex_of(v.1).unwrap()))
}

/// A primary colour and the colours derived from it, in the order in which
/// they were derived. The derived colours are a list, not a map: a name that
/// two rules give stands in it twice.
#[derive(Debug, Clone, PartialEq)]
pub struct ColorScheme {
    primary: Color,
    colors: Vec<ColorVar>,
}

impl View for ColorScheme {
    type V = ColorSchemeView;

    closed spec fn view(&self) -> ColorSchemeView {
        ColorSchemeView { primary: self.primary@, colors: vars_view(self.colors@) }
    }
}

impl ColorScheme {
    /// The scheme of a primary colour and the colours that one rule derives
    /// from it.
    pub fn new(primary: Color, scheme: Scheme) -> (made: Self)
        ensures
            made@.primary == primary@,
            made@.colors == scheme_colors(primary@, scheme),
    {
        let colors = ColorScheme::colors(&primary, scheme);
        Self { primary, colors }
    }

    /// The scheme of a primary colour and the colours that the rules derive
    /// from it, rule by rule in the order given. With no rule, the scheme
    /// holds the primary colour alone.
    pub fn from_schemes(primary: Color, schemes: Vec<Scheme>) -> (made: Self)
        ensures
            made@.primary == primary@,
            made@.colors == derived_colors(primary@, schemes@),
    {
        let mut colors: Vec<ColorVar> = Vec::new();
        let mut i: usize = 0;
        while i < schemes.len()
            invariant
                i <= schemes.len(),
                vars_view(colors@) == derived_colors(primary@, schemes@.take(i as int)),
            decreases schemes.len() - i,
        {
            let mut more = ColorScheme::colors(&primary, schemes[i]);
            proof {
                assert(schemes@.take(i + 1).drop_last() == schemes@.take(i as int));
                assert(vars_view(colors@ + more@) == vars_view(colors@) + vars_view(more@));
            }
            colors.append(&mut more);
            i += 1;
        }
        proof {
            assert(schemes@.take(i as int) == schemes@);
        }
        Self { primary, colors }
    }

    /// The scheme of a primary colour and its complementary colour.
    pub fn dyad(primary: Color) -> (made: Self)
        ensures
            made@.primary == primary@,
            made@.colors == complementary_colors(primary@),
    {
        ColorScheme::new(primary, Scheme::Complementary)
    }

    /// The scheme of a primary colour and the two colours that form a triad
    /// with it.
    pub fn triad(primary: Color) -> (made: Self)
        ensures
            made@.primary == primary@,
            made@.colors == triad_colors(primary@),
    {
        ColorScheme::new(primary, Scheme::Triad)
    }

    /// The scheme of a primary colour and the three colours that form a
    /// tetrad with it.
    pub fn tetrad(primary: Color) -> (made: Self)
        ensures
            made@.primary == primary@,
            made@.colors == tetrad_colors(primary@),
    {
        ColorScheme::new(primary, Scheme::Tetrad)
    }

    /// The primary colour.
    pub fn primary(&self) -> (primary: Color)
        ensures
            primary@ == self@.primary,
    {
        self.primary
    }

    /// The derived colours with their names, in the order in which they were
    /// derived.
    pub fn derived(&self) -> (vars: &Vec<ColorVar>)
        ensures
            vars_view(vars@) == self@.colors,
    {
        &self.colors
    }

    /// The scheme with the colours of one more rule after those it has.
    pub fn and(self, scheme: Scheme) -> (made: Self)
        ensures
            made@.primary == self@.primary,
            made@.colors == self@.colors + scheme_colors(self@.primary, scheme),
    {
        let primary = self.primary;
        let mut colors = self.colors;
        let mut more = ColorScheme::colors(&primary, scheme);
        proof {
            assert(vars_view(colors@ + more@) == vars_view(colors@) + vars_view(more@));
        }
        colors.append(&mut more);
        Self { primary, colors }
    }

    /// The scheme as a block of CSS that declares each colour as a custom
    /// property, in hexadecimal form, under the selector given or under
    /// `:root`: the primary colour first, then the derived colours in their
    /// order. `None` if one of the colours has no hexadecimal form.
    pub fn as_css(&self, selector: Option<&str>) -> (css: Option<String>)
        ensures
            css matches Some(text) ==> all_have_hex(self@.variables()) && text@ == block_text(
                selector_text(selector),
                hex_declarations(self@.variables()),
            ),
            css is None ==> !all_have_hex(self@.variables()),
    {
        let ghost vars = self@.variables();
        let mut declarations: Vec<(String, String)> = Vec::new();
        match hsl_to_css(&self.primary) {
            Some(hex) => {
                declarations.push((String::from_str("--primary"), hex));
            },
            None => {
                assert(hex_of(vars[0].1) is None);
                return None;
            },
        }
        let mut i: usize = 0;
        while i < self.colors.len()
            invariant
                i <= self.colors.len(),
                vars == self@.variables(),
                vars.len() == self.colors.len() + 1,
                declarations@.len() == i + 1,
                forall|k: int| 0 <= k < i + 1 ==> (#[trigger] hex_of(vars[k].1)) is Some,
                declarations_view(declarations@) == hex_declarations(vars.take(i + 1)),
            decreases self.colors.len() - i,
        {
            assert(vars[i + 1] == (self.colors@[i as int].0@, self.colors@[i as int].1@));
            let ghost before = declarations@;
            match hsl_to_css(&self.colors[i].1) {
                Some(hex) => {
                    declarations.push((String::from_str(self.colors[i].0), hex));
                },
                None => {
                    assert(hex_of(vars[i + 1].1) is None);
                    return None;
                },
            }
            proof {
                let written = declarations_view(declarations@);
                let wanted = hex_declarations(vars.take(i + 2));
                assert forall|k: int| 0 <= k < i + 2 implies written[k] == wanted[k] by {
                    if k <= i {
                        assert(declarations@[k] == before[k]);
                        assert(declarations_view(before)[k] == hex_declarations(
                            vars.take(i + 1),
                        )[k]);
                    }
                }
                assert(written =~= wanted);
            }
            i += 1;
        }
        proof {
            assert(vars.take(i + 1) == vars);
        }
        Some(write_block(selector, &declarations))
    }

    /// The colours that a rule derives from a primary colour.
    pub fn colors(primary: &Color, scheme: Scheme) -> (vars: Vec<ColorVar>)
        ensures
            vars_view(vars@) == scheme_colors(primary@, scheme),
    {
        match scheme {
            Scheme::Column => column(primary),
            Scheme::Complementary => complementary(primary),
            Scheme::DiagonalComplementary => diagonal_complementary(primary),
            Scheme::Triad => triad(primary),
            Scheme::Tetrad => tetrad(primary),
            Scheme::Text => text(primary),
            Scheme::Background => background(primary),
        }
    }
}

/// What a rule derives from a valid colour is valid.
pub proof fn lemma_scheme_colors_valid(primary: ColorView, scheme: Scheme)
    requires
        primary.valid(),
    ensures
        forall|i: int|
            0 <= i < scheme_colors(primary, scheme).len() ==> (#[trigger] scheme_colors(
                primary,
                scheme,
            )[i]).1.valid(),
{
}

/// The corners of a tetrad stand a quarter, a half and three quarters of a
/// turn from the primary colour.
pub proof fn lemma_tetrad_from_primary(primary: ColorView)
    ensures
        tetrad_colors(primary) == seq![
            ("--upper-right"@, primary.rotated(90 * DEGREE)),
            ("--lower-right"@, primary.rotated(180 * DEGREE)),
            ("--lower-left"@, primary.rotated(270 * DEGREE)),
        ],
{
    lemma_rotations_add(primary, 90 * DEGREE, 90 * DEGREE);
    lemma_rotations_add(primary, 180 * DEGREE, 90 * DEGREE);
}

/// Rules asked for together keep their order: the colours of a list of rules
/// followed by another list are the colours of the first list followed by
/// the colours of the second.
pub proof fn lemma_derived_colors_in_order(
    primary: ColorView,
    first: Seq<Scheme>,
    second: Seq<Scheme>,
)
    ensures
        derived_colors(primary, first + second) == derived_colors(primary, first) + derived_colors(
            primary,
            second,
        ),
    decreases second.len(),
{
    if second.len() == 0 {
        assert(first + second == first);
    } else {
        lemma_derived_colors_in_order(primary, first, second.drop_last());
        assert((first + second).drop_last() == first + second.drop_last());
    }
}

} // verus!
