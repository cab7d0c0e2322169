//! Colours in hue, saturation and lightness, with an optional alpha.

use vstd::prelude::*;
use crate::hue::{wrap, Hue, FULL_TURN};

verus! {

/// One percent, in the unit of saturation and lightness: thousandths of a
/// percent.
pub const PERCENT: u32 = 1_000;

/// The largest saturation or lightness, 100 percent.
pub const CHANNEL_MAX: u32 = 100_000;

/// The alpha of an opaque colour; alpha counts thousandths.
pub const OPAQUE: u32 = 1_000;

/// A colour in red, green and blue, each from 0 to 255.
#[derive(Clone, Copy, Debug, PartialEq, Eq, Structural)]
pub struct Rgb {
    pub red: u8,
    pub green: u8,
    pub blue: u8,
}

/// What a [`Color`] stands for: its four quantities as mathematical integers.
pub struct ColorView {
    pub hue: int,
    pub saturation: int,
    pub lightness: int,
    pub alpha: Option<int>,
}

/// `n` held to the range of a channel that ends at `max`.
pub open spec fn clamp(n: int, max: int) -> int {
    if n < 0 {
        0
    } else if n > max {
        max
    } else {
        n
    }
}

/// An alpha, where there is one, held to `[0, OPAQUE]`.
pub open spec fn clamp_alpha(alpha: Option<int>) -> Option<int> {
    match alpha {
        Some(a) => Some(clamp(a, OPAQUE as int)),
        None => None,
    }
}

impl ColorView {
    /// Every quantity lies in its range.
    pub open spec fn valid(self) -> bool {
        &&& 0 <= self.hue < FULL_TURN
        &&& 0 <= self.saturation <= CHANNEL_MAX
        &&& 0 <= self.lightness <= CHANNEL_MAX
        &&& self.alpha matches Some(a) ==> 0 <= a <= OPAQUE
    }

    /// The colour with its hue turned by `by` round the wheel.
    pub open spec fn rotated(self, by: int) -> ColorView {
        ColorView { hue: wrap(self.hue + by), ..self }
    }

    /// The colour with its saturation set, held to the channel's range.
    pub open spec fn with_saturation(self, saturation: int) -> ColorView {
        ColorView { saturation: clamp(saturation, CHANNEL_MAX as int), ..self }
    }

    /// The colour with its lightness set, held to the channel's range.
    pub open spec fn with_lightness(self, lightness: int) -> ColorView {
        ColorView { lightness: clamp(lightness, CHANNEL_MAX as int), ..self }
    }
}

/// A colour: a hue, saturation and lightness in thousandths of a percent
/// within `[0, CHANNEL_MAX]`, and an optional alpha in thousandths within
/// `[0, OPAQUE]`.
#[derive(Clone, Copy, Debug, PartialEq, Eq)]
pub struct Color {
    hue: Hue,
    saturation: u32,
    lightness: u32,
    alpha: Option<u32>,
}

impl View for Color {
    type V = ColorView;

    closed spec fn view(&self) -> ColorView {
        ColorView {
            hue: self.hue@,
            saturation: self.saturation as int,
            lightness: self.lightness as int,
            alpha: match self.alpha {
                Some(a) => Some(a as int),
                None => None,
            },
        }
    }
}

impl Color {
    /// Holds of every colour: each of its quantities lies in its range.
    #[verifier::type_invariant]
    pub open spec fn in_range(self) -> bool {
        self@.valid()
    }

    /// The colour of the given quantities, each one that lies above its
    /// range brought down to the end of it.
    pub fn new(hue: Hue, saturation: u32, lightness: u32, alpha: Option<u32>) -> (color: Color)
        ensures
            color@ == (ColorView {
                hue: hue@,
                saturation: clamp(saturation as int, CHANNEL_MAX as int),
                lightness: clamp(lightness as int, CHANNEL_MAX as int),
                alpha: clamp_alpha(
                    match alpha {
                        Some(a) => Some(a as int),
                        None => None,
                    },
                ),
            }),
            color@.valid(),
    {
        proof {
            use_type_invariant(hue);
        }
        Color {
            hue,
            saturation: if saturation > CHANNEL_MAX { CHANNEL_MAX } else { saturation },
            lightness: if lightness > CHANNEL_MAX { CHANNEL_MAX } else { lightness },
            alpha: match alpha {
                Some(a) => Some(if a > OPAQUE { OPAQUE } else { a }),
                None => None,
            },
        }
    }

    /// The hue.
    pub fn hue(&self) -> (hue: Hue)
        ensures
            hue@ == self@.hue,
            0 <= hue@ < FULL_TURN,
    {
        proof {
            use_type_invariant(self);
        }
        self.hue
    }

    /// The saturation, in thousandths of a percent.
    pub fn saturation(&self) -> (saturation: u32)
        ensures
            saturation == self@.saturation,
            saturation <= CHANNEL_MAX,
    {
        proof {
            use_type_invariant(self);
        }
        self.saturation
    }

    /// The lightness, in thousandths of a percent.
    pub fn lightness(&self) -> (lightness: u32)
        ensures
            lightness == self@.lightness,
            lightness <= CHANNEL_MAX,
    {
        proof {
            use_type_invariant(self);
        }
        self.lightness
    }

    /// The alpha in thousandths, where the colour has one.
    pub fn alpha(&self) -> (alpha: Option<u32>)
        ensures
            self@.alpha == match alpha {
                Some(a) => Some(a as int),
                None => None::<int>,
            },
            alpha matches Some(a) ==> a <= OPAQUE,
    {
        proof {
            use_type_invariant(self);
        }
        self.alpha
    }
}

/// Turning a colour twice is turning it once by the sum of the two turns.
pub proof fn lemma_rotations_add(color: ColorView, first: int, second: int)
    ensures
        color.rotated(first).rotated(second) == color.rotated(first + second),
{
}

/// The colour with its hue turned by `by` thousandths of a degree, forward
/// if positive and back if negative; the hue wraps at a full turn.
pub fn rotate(color: &Color, by: i64) -> (turned: Color)
    ensures
        turned@ == color@.rotated(by as int),
        turned@.valid(),
{
    let new_hue = color.hue() + by;
    Color::new(new_hue, color.saturation(), color.lightness(), color.alpha())
}

/// The colour with its saturation set to `new_saturation`, or to
/// `CHANNEL_MAX` if that is less.
pub fn with_saturation(color: &Color, new_saturation: u32) -> (set: Color)
    ensures
        set@ == color@.with_saturation(new_saturation as int),
        set@.valid(),
{
    Color::new(color.hue(), new_saturation, color.lightness(), color.alpha())
}

/// The colour with its lightness set to `new_lightness`, or to `CHANNEL_MAX`
/// if that is less.
pub fn with_lightness(color: &Color, new_lightness: u32) -> (set: Color)
    ensures
        set@ == color@.with_lightness(new_lightness as int),
        set@.valid(),
{
    Color::new(color.hue(), color.saturation(), new_lightness, color.alpha())
}

} // verus!
