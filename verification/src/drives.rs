//! What every control on every input surface is asking the camera to do.
//!
//! One shape shared by the pointer, the keyboard and the gamepad, so that two
//! of them can be live at once without either cancelling the other.

use vstd::prelude::*;

use crate::focus::FocusDrive;
use crate::pan_tilt::Velocity;
use crate::zoom::{accepted_zoom, ZoomDrive};

verus! {

/// What the camera's three continuous controls are being asked for.
#[derive(Debug, Clone, Copy, PartialEq, Eq, Structural)]
pub struct Drives {
    /// The pan/tilt head.
    pub pan_tilt: Velocity,
    /// The zoom, or `None` while it rests.
    pub zoom: Option<ZoomDrive>,
    /// The focus, or `None` while it rests.
    pub focus: Option<FocusDrive>,
}

impl Drives {
    /// Nothing being asked for: every control at rest.
    pub open spec fn at_rest() -> Drives {
        Drives { pan_tilt: Velocity::stopped(), zoom: None, focus: None }
    }

    /// Nothing being asked for: every control at rest.
    #[verifier::when_used_as_spec(at_rest)]
    pub fn stopped() -> (drives: Drives)
        ensures
            drives == Drives::at_rest(),
    {
        Drives { pan_tilt: Velocity::stop(), zoom: None, focus: None }
    }

    /// Whether these are drives that controls ask for, each at a speed that the
    /// camera has.
    pub open spec fn steerable(self) -> bool {
        self.pan_tilt.steerable() && accepted_zoom(self.zoom)
    }

    /// This set of drives, filled in from `other` wherever it asks for
    /// nothing.
    pub open spec fn filled_from(self, other: Drives) -> Drives {
        Drives {
            pan_tilt: if self.pan_tilt.stops() {
                other.pan_tilt
            } else {
                self.pan_tilt
            },
            zoom: if self.zoom is Some {
                self.zoom
            } else {
                other.zoom
            },
            focus: if self.focus is Some {
                self.focus
            } else {
                other.focus
            },
        }
    }

    /// This set of drives, filled in from `other` wherever it asks for
    /// nothing, so that two input surfaces can be live at once.
    ///
    /// Whichever is written first wins each control it is actually asking
    /// for.
    #[verifier::when_used_as_spec(filled_from)]
    pub fn or(self, other: Drives) -> (drives: Drives)
        ensures
            drives == self.filled_from(other),
    {
        Drives {
            pan_tilt: if self.pan_tilt.is_stop() {
                other.pan_tilt
            } else {
                self.pan_tilt
            },
            zoom: if self.zoom.is_some() {
                self.zoom
            } else {
                other.zoom
            },
            focus: if self.focus.is_some() {
                self.focus
            } else {
                other.focus
            },
        }
    }
}

/// Controls at rest take nothing from another surface and add nothing to it,
/// and three surfaces come to the same whichever two are joined first.
pub proof fn joining_drives(first: Drives, second: Drives, third: Drives)
    ensures
        Drives::at_rest().or(first) == first,
        first.or(second).or(third) == first.or(second.or(third)),
        first.or(first) == first,
        first.pan_tilt.stops() ==> first.or(Drives::at_rest()).pan_tilt.stops(),
        !first.pan_tilt.stops() ==> first.or(Drives::at_rest()) == first,
{
}

/// Joining two surfaces asks for nothing that neither of them asks for, and so
/// for no speed that a control doesn't have.
pub proof fn joined_drives_stay_steerable(first: Drives, second: Drives)
    requires
        first.steerable(),
        second.steerable(),
    ensures
        first.or(second).steerable(),
        Drives::at_rest().steerable(),
{
}

/// The first surface wins every control it asks for, whatever the second one
/// wants of it, and the second gets every control the first leaves alone.
pub proof fn the_first_surface_wins(first: Drives, second: Drives)
    ensures
        !first.pan_tilt.stops() ==> first.or(second).pan_tilt == first.pan_tilt,
        first.pan_tilt.stops() ==> first.or(second).pan_tilt == second.pan_tilt,
        first.zoom is Some ==> first.or(second).zoom == first.zoom,
        first.zoom is None ==> first.or(second).zoom == second.zoom,
        first.focus is Some ==> first.or(second).focus == first.focus,
        first.focus is None ==> first.or(second).focus == second.focus,
{
}

} // verus!
