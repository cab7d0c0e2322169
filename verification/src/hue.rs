//! Angles on the colour wheel, with addition and subtraction that wrap at a
//! full turn.

use vstd::prelude::*;
use vstd::std_specs::ops::{AddSpec, SubSpec};

verus! {

/// One degree, in the unit of [`Hue`]: thousandths of a degree.
pub const DEGREE: i64 = 1_000;

/// A full turn of the colour wheel, 360 degrees.
pub const FULL_TURN: i64 = 360_000;

/// The angle in `[0, FULL_TURN)` that `n` comes to on the wheel.
pub open spec fn wrap(n: int) -> int {
    n % (FULL_TURN as int)
}

/// An angle on the colour wheel, held in thousandths of a degree and always
/// within `[0, FULL_TURN)`.
#[derive(Clone, Copy, Debug, PartialEq, Eq, Structural)]
pub struct Hue(u32);

impl View for Hue {
    type V = int;

    closed spec fn view(&self) -> int {
        self.0 as int
    }
}

impl Hue {
    /// Holds of every hue: its angle lies within one turn.
    #[verifier::type_invariant]
    pub open spec fn in_range(self) -> bool {
        0 <= self@ < FULL_TURN
    }

    /// The hue that the angle `n` comes to.
    pub fn new(n: i64) -> (hue: Hue)
        ensures
            hue@ == wrap(n as int),
            0 <= hue@ < FULL_TURN,
    {
        let r: i64 = n % FULL_TURN;
        let v: i64 = if r < 0 { r + FULL_TURN } else { r };
        Hue(v as u32)
    }

    /// The angle, in thousandths of a degree.
    pub fn value(self) -> (v: i64)
        ensures
            v == self@,
            0 <= v < FULL_TURN,
    {
        proof {
            use_type_invariant(self);
        }
        self.0 as i64
    }
}

impl vstd::std_specs::convert::FromSpecImpl<i64> for Hue {
    open spec fn obeys_from_spec() -> bool {
        true
    }

    closed spec fn from_spec(n: i64) -> Hue {
        Hue(wrap(n as int) as u32)
    }
}

impl From<i64> for Hue {
    /// The hue that the angle `n` comes to.
    fn from(n: i64) -> (hue: Hue)
        ensures
            hue@ == wrap(n as int),
            0 <= hue@ < FULL_TURN,
    {
        Hue::new(n)
    }
}

impl vstd::std_specs::convert::FromSpecImpl<Hue> for i64 {
    open spec fn obeys_from_spec() -> bool {
        true
    }

    open spec fn from_spec(hue: Hue) -> i64 {
        hue@ as i64
    }
}

impl From<Hue> for i64 {
    /// The angle of a hue, in thousandths of a degree.
    fn from(hue: Hue) -> (n: i64)
        ensures
            n == hue@,
            0 <= n < FULL_TURN,
    {
        hue.value()
    }
}

impl vstd::std_specs::ops::AddSpecImpl<i64> for Hue {
    open spec fn obeys_add_spec() -> bool {
        true
    }

    open spec fn add_req(self, offset: i64) -> bool {
        true
    }

    closed spec fn add_spec(self, offset: i64) -> Hue {
        Hue(wrap(self@ + offset) as u32)
    }
}

impl core::ops::Add<i64> for Hue {
    type Output = Hue;

    /// The hue `offset` further round the wheel.
    fn add(self, offset: i64) -> (hue: Hue)
        ensures
            hue@ == wrap(self@ + offset),
            0 <= hue@ < FULL_TURN,
    {
        proof {
            use_type_invariant(self);
        }
        let turned: i64 = self.0 as i64 + offset % FULL_TURN;
        Hue::new(turned)
    }
}

impl vstd::std_specs::ops::SubSpecImpl<i64> for Hue {
    open spec fn obeys_sub_spec() -> bool {
        true
    }

    open spec fn sub_req(self, offset: i64) -> bool {
        true
    }

    closed spec fn sub_spec(self, offset: i64) -> Hue {
        Hue(wrap(self@ - offset) as u32)
    }
}

impl core::ops::Sub<i64> for Hue {
    type Output = Hue;

    /// The hue `offset` back round the wheel.
    fn sub(self, offset: i64) -> (hue: Hue)
        ensures
            hue@ == wrap(self@ - offset),
            0 <= hue@ < FULL_TURN,
    {
        proof {
            use_type_invariant(self);
        }
        let turned: i64 = self.0 as i64 - offset % FULL_TURN;
        Hue::new(turned)
    }
}

/// Every angle comes to a hue within one turn.
pub proof fn lemma_wrap_in_range(n: int)
    ensures
        0 <= wrap(n) < FULL_TURN,
{
}

/// What `+` and `-` give, as angles.
pub proof fn lemma_sum_and_difference(hue: Hue, offset: i64)
    ensures
        hue.add_spec(offset)@ == wrap(hue@ + offset),
        hue.sub_spec(offset)@ == wrap(hue@ - offset),
        hue.add_spec(offset).in_range(),
        hue.sub_spec(offset).in_range(),
{
}

/// Going back by an offset and then forward by the same offset, or forward
/// and then back, returns to the hue one started from.
pub proof fn lemma_rotation_round_trip(hue: Hue, offset: i64)
    requires
        hue.in_range(),
    ensures
        hue.sub_spec(offset).add_spec(offset) == hue,
        hue.add_spec(offset).sub_spec(offset) == hue,
        wrap(wrap(hue@ - offset) + offset) == hue@,
        wrap(wrap(hue@ + offset) - offset) == hue@,
{
}

} // verus!
