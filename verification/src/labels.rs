//! The words the window puts on and beside its controls, and how it asks for
//! its own size.

use vstd::prelude::*;
use vstd::string::*;

use crate::session::POLL_INTERVAL;
use crate::state::CameraState;
use crate::text::{decimal, joined, push_decimal, trim, trimmed};
use crate::title::LENGTH;
use crate::window::{
    is_asleep, offered_power, shown, App, CONTROLLER_INTERVAL, LOCKED_HINT, NO_TITLES_HINT,
    STANDBY_HINT,
};
use crate::worker::Intent;

verus! {

/// What the button for preset `number` promises, named by what the operator
/// called the shot, if anything.
pub fn recall_tooltip(number: u8, description: Option<&str>) -> (text: String)
    ensures
        text@ == "Go to preset "@ + decimal(number as nat) + match description {
            Some(shot) => if trimmed(shot@).len() > 0 {
                ": "@ + trimmed(shot@)
            } else {
                Seq::empty()
            },
            None => Seq::empty(),
        },
{
    let mut text = "Go to preset ".to_owned();
    push_decimal(&mut text, number as u64);
    let ghost named = text@;
    if let Some(description) = description {
        let shot = trim(description);
        if !shot.is_empty() {
            text.append(": ");
            text.append(shot);
            proof {
                assert(text@ =~= named + (": "@ + trimmed(description@)));
            }
            return text;
        }
    }
    proof {
        assert(text@ =~= named + Seq::empty());
    }
    text
}

/// What the Mark button for preset `number` promises.
pub fn mark_tooltip(number: u8) -> (text: String)
    ensures
        text@ == "Store where the camera is pointing now as preset "@ + decimal(number as nat),
{
    let mut text = "Store where the camera is pointing now as preset ".to_owned();
    push_decimal(&mut text, number as u64);
    text
}

/// What the switch that arms the Mark column says of itself.
pub fn marking_tooltip(locked: bool) -> (text: &'static str)
    ensures
        text@ == if locked {
            "Off, so a preset can't be overwritten by a mis-click. Turn it on to store new shots."@
        } else {
            "On: the Mark buttons will overwrite presets. Turn it off once the shots are set."@
        },
{
    if locked {
        "Off, so a preset can't be overwritten by a mis-click. Turn it on to store new shots."
    } else {
        "On: the Mark buttons will overwrite presets. Turn it off once the shots are set."
    }
}

/// What the power lamp means, in words. Awake but not yet answering is worth a
/// word of its own: it is what the first seconds after switching on look like.
pub fn power_words(state: Option<CameraState>) -> (words: &'static str)
    ensures
        words@ == match state {
            Some(state) => if !state.power_on {
                "Camera is in standby"@
            } else if state.lens is Some {
                "Camera is on"@
            } else {
                "Camera is starting up"@
            },
            None => "Waiting for the camera"@,
        },
{
    match state {
        Some(state) => if !state.power_on {
            "Camera is in standby"
        } else if state.lens.is_some() {
            "Camera is on"
        } else {
            "Camera is starting up"
        },
        None => "Waiting for the camera",
    }
}

/// What the power lamp says on hover.
pub fn lamp_tooltip(powered: Option<bool>) -> (text: &'static str)
    ensures
        text@ == match powered {
            Some(on) => if on {
                "Camera is on"@
            } else {
                "Camera is in standby"@
            },
            None => "Waiting for the camera"@,
        },
{
    match powered {
        Some(on) => if on {
            "Camera is on"
        } else {
            "Camera is in standby"
        },
        None => "Waiting for the camera",
    }
}

impl App {
    /// The power button: what it is labelled with, and what it asks for. It
    /// offers whichever state the camera is not in, and is never held off.
    pub fn power_button(&self) -> (button: (&'static str, Intent))
        ensures
            button.0@ == if offered_power(self.camera_state) {
                "Power on"@
            } else {
                "Power off"@
            },
            button.1 == Intent::SetPower(offered_power(self.camera_state)),
    {
        let on = self.power_to_offer();
        (
            if on {
                "Power on"
            } else {
                "Power off"
            },
            Intent::SetPower(on),
        )
    }

    /// The line of feedback, and whether it reports a failure.
    pub fn status_line(&self) -> (line: (&str, bool))
        ensures
            match shown(self.status) {
                Some((text, failed)) => line.0@ == text && line.1 == failed,
                None => line.0@ == "Ready"@ && !line.1,
            },
    {
        match &self.status {
            Some(status) => (status.text.as_str(), status.failed),
            None => ("Ready", false),
        }
    }

    /// Whether the Mark buttons work.
    pub fn marking(&self) -> (armed: bool)
        ensures
            armed == (!is_asleep(self.camera_state) && !self.marking_locked),
    {
        !self.asleep() && !self.marking_locked
    }

    /// What a Mark button that doesn't work says: the sleeping camera first,
    /// since unlocking wouldn't help.
    pub fn mark_hint(&self) -> (hint: &'static str)
        ensures
            hint@ == if is_asleep(self.camera_state) {
                STANDBY_HINT@
            } else {
                LOCKED_HINT@
            },
    {
        if self.asleep() {
            STANDBY_HINT
        } else {
            LOCKED_HINT
        }
    }

    /// Whether titles are on offer.
    pub fn titles_offered(&self) -> (offered: bool)
        ensures
            offered == (!is_asleep(self.camera_state) && self.titles_supported),
    {
        !self.asleep() && self.titles_supported
    }

    /// What a title box that doesn't work says.
    pub fn title_hint(&self) -> (hint: &'static str)
        ensures
            hint@ == if self.titles_supported {
                STANDBY_HINT@
            } else {
                NO_TITLES_HINT@
            },
    {
        if self.titles_supported {
            STANDBY_HINT
        } else {
            NO_TITLES_HINT
        }
    }

    /// What is said under the titles.
    pub fn titles_note(&self) -> (text: String)
        ensures
            text@ == if self.titles_supported {
                "Up to "@ + decimal(LENGTH as nat)
                    + " uppercase characters, drawn over the picture"@
            } else {
                NO_TITLES_HINT@
            },
    {
        if self.titles_supported {
            let mut text = "Up to ".to_owned();
            push_decimal(&mut text, LENGTH as u64);
            text.append(" uppercase characters, drawn over the picture");
            text
        } else {
            NO_TITLES_HINT.to_owned()
        }
    }
}

/// How the camera is introduced: what it is reached by, and who made it.
pub fn camera_line(link: &str, summary: &str) -> (text: String)
    ensures
        text@ == link@ + " \u{2014} "@ + summary@,
{
    let mut text = joined(link, " \u{2014} ");
    text.append(summary);
    text
}

/// How soon to draw the next frame: far sooner while there is a stick to read,
/// since nothing wakes the window when one moves.
pub fn repaint_after(in_hand: bool) -> (interval: u64)
    ensures
        interval == if in_hand {
            CONTROLLER_INTERVAL
        } else {
            POLL_INTERVAL
        },
{
    if in_hand {
        CONTROLLER_INTERVAL
    } else {
        POLL_INTERVAL
    }
}

/// Something the window asks the desktop for about its own size.
#[derive(Debug, Clone, Copy, PartialEq, Eq, Structural)]
pub enum FitRequest {
    /// Be exactly the size of the contents.
    InnerSize,
    /// Be seen.
    Show,
    /// Never be smaller than the contents.
    MinInnerSize,
}

/// What a window asks for once its contents have been measured: nothing while
/// it has been fitted or the size is the one it last asked for. The first
/// request shows it, and fitting the controls keeps it from shrinking.
pub open spec fn fitting(
    fitted: bool,
    asked_before: bool,
    same_size: bool,
    connected: bool,
) -> Seq<FitRequest> {
    if fitted || (asked_before && same_size) {
        Seq::empty()
    } else {
        seq![FitRequest::InnerSize] + (if asked_before {
            Seq::empty()
        } else {
            seq![FitRequest::Show]
        }) + (if connected {
            seq![FitRequest::MinInnerSize]
        } else {
            Seq::empty()
        })
    }
}

/// What a window asks for once its contents have been measured.
///
/// Only asked when the size changes: what comes back is never quite what was
/// asked for, and repeating the request every frame would turn that into an
/// argument.
pub fn fit_requests(
    fitted: bool,
    asked_before: bool,
    same_size: bool,
    connected: bool,
) -> (requests: Vec<FitRequest>)
    ensures
        requests@ == fitting(fitted, asked_before, same_size, connected),
{
    let mut requests: Vec<FitRequest> = Vec::new();
    if fitted || (asked_before && same_size) {
        return requests;
    }
    requests.push(FitRequest::InnerSize);
    if !asked_before {
        requests.push(FitRequest::Show);
    }
    if connected {
        requests.push(FitRequest::MinInnerSize);
    }
    proof {
        assert(requests@ =~= fitting(fitted, asked_before, same_size, connected));
    }
    requests
}

/// Whether the pad takes the room the window has to spare by `frame`: from the
/// frame after the one the window was fitted on.
pub fn takes_the_room(fitted_at: Option<u64>, frame: u64) -> (taken: bool)
    ensures
        taken == (fitted_at is Some && frame > fitted_at->Some_0),
{
    match fitted_at {
        Some(fitted) => frame > fitted,
        None => false,
    }
}

} // verus!
