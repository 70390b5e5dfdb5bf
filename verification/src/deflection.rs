//! How far a control is pushed, as the speed it asks the camera for.
//!
//! A stick, a rocker or a held key is read as a fraction of its travel. By
//! the time it gets here that fraction has become a number on the scale of
//! speeds the control offers, or nothing at all while the control rests.

use vstd::prelude::*;

verus! {

/// A control that is off its rest position.
#[derive(Debug, Clone, Copy, PartialEq, Eq, Structural)]
pub struct Push {
    /// Whether it is pushed the positive way: right, up, tele or far.
    pub positive: bool,
    /// How fast, on the scale of speeds that the control offers.
    pub speed: u8,
}

impl Push {
    /// Which way this goes along its axis, as a sign.
    pub open spec fn sign(self) -> int {
        if self.positive {
            1
        } else {
            -1
        }
    }
}

/// Which way an axis goes, as a sign: zero while its control rests.
pub open spec fn axis_sign(push: Option<Push>) -> int {
    match push {
        Some(push) => push.sign(),
        None => 0,
    }
}

/// The speed an axis asks for, or `rest` while its control rests.
pub open spec fn axis_speed_or(push: Option<Push>, rest: u8) -> u8 {
    match push {
        Some(push) => push.speed,
        None => rest,
    }
}

/// Whether a control asks for a speed of its scale, if it asks for any.
pub open spec fn within(push: Option<Push>, slowest: u8, fastest: u8) -> bool {
    push matches Some(push) ==> slowest <= push.speed <= fastest
}

} // verus!
