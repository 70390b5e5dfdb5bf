//! What each key means.
//!
//! Movement keys are hold-to-drive: pressing one starts a continuous drive,
//! and letting go stops it. What a terminal reports for a held key varies, so
//! the mapping ignores which kind of event a key came in as; the session
//! decides what a press, a repeat or a release means for the drive.

use vstd::prelude::*;

use crate::deflection::Push;
use crate::focus::{focus_drive, FocusDirection, FocusDrive};
use crate::pan_tilt::{
    axes_velocity, velocity_from_axes, PanTiltDirection, Velocity, MIN_SPEED, TOP_PAN_SPEED,
    TOP_TILT_SPEED,
};
use crate::rocker::notch_level;
use crate::text::{decimal, digit};
use crate::worker::{accepted, control_of, Control, Intent};
use crate::zoom::{zoom_drive, ZoomDirection, ZoomDrive, MAX_ZOOM_SPEED};

verus! {

/// A key on the keyboard, as far as any of them is told apart.
#[derive(Debug, Clone, Copy, PartialEq, Eq, Structural)]
pub enum KeyCode {
    /// The up arrow.
    Up,
    /// The down arrow.
    Down,
    /// The left arrow.
    Left,
    /// The right arrow.
    Right,
    /// A key that types this character.
    Char(char),
    /// Any other key.
    Other,
}

/// What happened to a key.
#[derive(Debug, Clone, Copy, PartialEq, Eq, Structural)]
pub enum KeyEventKind {
    /// It went down.
    Press,
    /// It is still down.
    Repeat,
    /// It came up.
    Release,
}

/// A key, what was held with it, and what happened to it.
#[derive(Debug, Clone, Copy, PartialEq, Eq, Structural)]
pub struct KeyEvent {
    /// Which key.
    pub code: KeyCode,
    /// Whether shift was held.
    pub shift: bool,
    /// Whether control was held.
    pub control: bool,
    /// What happened to the key.
    pub kind: KeyEventKind,
}

/// How fast a movement key drives each control.
#[derive(Debug, Clone, Copy, PartialEq, Eq, Structural)]
pub struct Pace {
    /// The pan speed.
    pub pan: u8,
    /// The tilt speed.
    pub tilt: u8,
    /// The zoom speed.
    pub zoom: u8,
    /// The notch of the focus rocker.
    pub focus: u8,
}

/// The two paces a keyboard can express: the plain key is slow enough to frame
/// a shot with, and shift is everything a control has.
#[derive(Debug, Clone, Copy, PartialEq, Eq, Structural)]
pub struct Paces {
    /// The pace of a plain key.
    pub framing: Pace,
    /// The pace of a key with shift.
    pub fast: Pace,
}

impl Pace {
    /// Whether each speed is one that its control asks for.
    pub open spec fn valid(self) -> bool {
        &&& MIN_SPEED <= self.pan <= TOP_PAN_SPEED
        &&& MIN_SPEED <= self.tilt <= TOP_TILT_SPEED
        &&& self.zoom <= MAX_ZOOM_SPEED
    }
}

impl Paces {
    /// Whether both paces ask each control for speeds that it has.
    pub open spec fn valid(self) -> bool {
        self.framing.valid() && self.fast.valid()
    }
}

/// A camera drive that runs for as long as its key is held down.
#[derive(Debug, Clone, Copy, PartialEq, Eq, Structural)]
pub enum Hold {
    /// Drive pan/tilt at a fixed velocity.
    PanTilt(Velocity),
    /// Drive zoom.
    Zoom(ZoomDrive),
    /// Drive focus.
    Focus(FocusDrive),
}

impl Hold {
    /// The control this drive moves.
    pub open spec fn control(self) -> Control {
        match self {
            Hold::PanTilt(_) => Control::PanTilt,
            Hold::Zoom(_) => Control::Zoom,
            Hold::Focus(_) => Control::Focus,
        }
    }

    /// Whether this drive moves anything.
    pub open spec fn drives(self) -> bool {
        match self {
            Hold::PanTilt(velocity) => !velocity.stops(),
            _ => true,
        }
    }

    /// Whether this drive is one that its control asks for, at a speed that the
    /// camera has.
    pub open spec fn steerable(self) -> bool {
        match self {
            Hold::PanTilt(velocity) => velocity.steerable(),
            Hold::Zoom(drive) => drive.speed <= MAX_ZOOM_SPEED,
            Hold::Focus(_) => true,
        }
    }

    /// The intent that starts this drive.
    pub open spec fn starting(self) -> Intent {
        match self {
            Hold::PanTilt(velocity) => Intent::DrivePanTilt(velocity),
            Hold::Zoom(drive) => Intent::DriveZoom(Some(drive)),
            Hold::Focus(drive) => Intent::DriveFocus(Some(drive)),
        }
    }

    /// The intent that stops whichever control this drive moves.
    pub open spec fn stopping(self) -> Intent {
        match self {
            Hold::PanTilt(_) => Intent::DrivePanTilt(Velocity::stopped()),
            Hold::Zoom(_) => Intent::DriveZoom(None),
            Hold::Focus(_) => Intent::DriveFocus(None),
        }
    }

    /// The intent that starts this drive.
    #[verifier::when_used_as_spec(starting)]
    pub fn start(self) -> (intent: Intent)
        ensures
            intent == self.starting(),
    {
        match self {
            Hold::PanTilt(velocity) => Intent::DrivePanTilt(velocity),
            Hold::Zoom(drive) => Intent::DriveZoom(Some(drive)),
            Hold::Focus(drive) => Intent::DriveFocus(Some(drive)),
        }
    }

    /// The intent that stops whichever control this drive moves.
    ///
    /// Doubles as the identity of that control.
    #[verifier::when_used_as_spec(stopping)]
    pub fn stop(self) -> (intent: Intent)
        ensures
            intent == self.stopping(),
    {
        match self {
            Hold::PanTilt(_) => Intent::DrivePanTilt(Velocity::stop()),
            Hold::Zoom(_) => Intent::DriveZoom(None),
            Hold::Focus(_) => Intent::DriveFocus(None),
        }
    }
}

/// Two holds stop the same control exactly when their stop intents are equal,
/// and a hold starts the control that it stops.
pub proof fn a_stop_identifies_its_control(first: Hold, second: Hold)
    ensures
        first.stop() == second.stop() <==> first.control() == second.control(),
        control_of(first.start()) == Some(first.control()),
        control_of(first.stop()) == Some(first.control()),
{
}

/// What a key holds is never refused for its speed, nor is its stop.
pub proof fn a_held_drive_is_accepted(hold: Hold)
    requires
        hold.steerable(),
    ensures
        accepted(hold.start()),
        accepted(hold.stop()),
{
}

/// What a key event means to the application.
#[derive(Debug, Clone, Copy)]
pub enum Action {
    /// Drive a camera control for as long as the key stays down.
    Hold(Hold),
    /// Send a one-shot camera command.
    Camera(Intent),
    /// Switch the camera between focusing for itself and leaving focus to the
    /// focus keys. Which way depends on how the camera is focusing.
    ToggleAutoFocus,
    /// Wake the camera, or put it back into standby. Which way depends on
    /// whether it is awake.
    TogglePower,
    /// Exit the application.
    Quit,
}

impl PartialEq for Action {
    fn eq(&self, other: &Action) -> (equal: bool) {
        match (self, other) {
            (Action::Hold(mine), Action::Hold(theirs)) => *mine == *theirs,
            (Action::Camera(mine), Action::Camera(theirs)) => *mine == *theirs,
            (Action::ToggleAutoFocus, Action::ToggleAutoFocus) => true,
            (Action::TogglePower, Action::TogglePower) => true,
            (Action::Quit, Action::Quit) => true,
            _ => false,
        }
    }
}

impl vstd::std_specs::cmp::PartialEqSpecImpl for Action {
    open spec fn obeys_eq_spec() -> bool {
        true
    }

    open spec fn eq_spec(&self, other: &Action) -> bool {
        *self == *other
    }
}

/// The action of a key that holds a pan/tilt drive.
pub open spec fn pan_tilt_hold(pan: Option<Push>, tilt: Option<Push>) -> Action {
    Action::Hold(Hold::PanTilt(axes_velocity(pan, tilt)))
}

/// The action of a key that holds a zoom drive.
pub open spec fn zoom_hold(positive: bool, speed: u8) -> Action {
    Action::Hold(Hold::Zoom(zoom_drive(Some(Push { positive, speed }))->Some_0))
}

/// The action of a key that holds a focus drive.
pub open spec fn focus_hold(positive: bool, speed: u8) -> Action {
    Action::Hold(Hold::Focus(focus_drive(Some(Push { positive, speed }))->Some_0))
}

/// The action a key is bound to, or `None` if it is bound to nothing.
pub open spec fn key_action(key: KeyEvent, paces: Paces) -> Option<Action> {
    let pace = if key.shift {
        paces.fast
    } else {
        paces.framing
    };
    match key.code {
        KeyCode::Up => Some(pan_tilt_hold(None, Some(Push { positive: true, speed: pace.tilt }))),
        KeyCode::Down => Some(
            pan_tilt_hold(None, Some(Push { positive: false, speed: pace.tilt })),
        ),
        KeyCode::Left => Some(pan_tilt_hold(Some(Push { positive: false, speed: pace.pan }), None)),
        KeyCode::Right => Some(pan_tilt_hold(Some(Push { positive: true, speed: pace.pan }), None)),
        KeyCode::Char(character) => if character == '[' || character == '-' {
            Some(zoom_hold(false, pace.zoom))
        } else if character == ']' || character == '=' {
            Some(zoom_hold(true, pace.zoom))
        } else if character == '{' || character == '_' {
            Some(zoom_hold(false, paces.fast.zoom))
        } else if character == '}' || character == '+' {
            Some(zoom_hold(true, paces.fast.zoom))
        } else if character == ',' {
            Some(focus_hold(false, pace.focus))
        } else if character == '.' {
            Some(focus_hold(true, pace.focus))
        } else if character == '<' {
            Some(focus_hold(false, paces.fast.focus))
        } else if character == '>' {
            Some(focus_hold(true, paces.fast.focus))
        } else if '1' <= character <= '6' {
            Some(Action::Camera(Intent::RecallPreset((character as u32 - '0' as u32) as u8)))
        } else if character == 'f' {
            Some(Action::ToggleAutoFocus)
        } else if character == 'p' {
            Some(Action::TogglePower)
        } else if character == 'q' || (character == 'd' && key.control) {
            Some(Action::Quit)
        } else {
            None
        },
        KeyCode::Other => None,
    }
}

fn hold_pan_tilt(pan: Option<Push>, tilt: Option<Push>) -> (action: Option<Action>)
    ensures
        action == Some(pan_tilt_hold(pan, tilt)),
{
    Some(Action::Hold(Hold::PanTilt(velocity_from_axes(pan, tilt))))
}

fn hold_zoom(positive: bool, speed: u8) -> (action: Option<Action>)
    requires
        speed <= MAX_ZOOM_SPEED,
    ensures
        action == Some(zoom_hold(positive, speed)),
{
    match ZoomDrive::from_deflection(Some(Push { positive, speed })) {
        Some(drive) => Some(Action::Hold(Hold::Zoom(drive))),
        None => None,
    }
}

fn hold_focus(positive: bool, speed: u8) -> (action: Option<Action>)
    ensures
        action == Some(focus_hold(positive, speed)),
{
    match FocusDrive::from_deflection(Some(Push { positive, speed })) {
        Some(drive) => Some(Action::Hold(Hold::Focus(drive))),
        None => None,
    }
}

/// Maps a key event to an action, or `None` if the key isn't bound to
/// anything.
///
/// The event's kind is deliberately not consulted: the same key means the same
/// control whichever way it is reported. The shifted punctuation is bound in
/// its own right, since many terminals send the character alone without also
/// reporting the modifier.
pub fn map_key(key: KeyEvent, paces: Paces) -> (action: Option<Action>)
    requires
        paces.valid(),
    ensures
        action == key_action(key, paces),
        action matches Some(Action::Hold(hold)) ==> hold.steerable(),
{
    let pace = if key.shift {
        paces.fast
    } else {
        paces.framing
    };
    match key.code {
        KeyCode::Up => hold_pan_tilt(None, Some(Push { positive: true, speed: pace.tilt })),
        KeyCode::Down => hold_pan_tilt(None, Some(Push { positive: false, speed: pace.tilt })),
        KeyCode::Left => hold_pan_tilt(Some(Push { positive: false, speed: pace.pan }), None),
        KeyCode::Right => hold_pan_tilt(Some(Push { positive: true, speed: pace.pan }), None),
        KeyCode::Char(character) => match character {
            '[' | '-' => hold_zoom(false, pace.zoom),
            ']' | '=' => hold_zoom(true, pace.zoom),
            '{' | '_' => hold_zoom(false, paces.fast.zoom),
            '}' | '+' => hold_zoom(true, paces.fast.zoom),
            ',' => hold_focus(false, pace.focus),
            '.' => hold_focus(true, pace.focus),
            '<' => hold_focus(false, paces.fast.focus),
            '>' => hold_focus(true, paces.fast.focus),
            '1'..='6' => Some(
                Action::Camera(Intent::RecallPreset((character as u32 - '0' as u32) as u8)),
            ),
            'f' => Some(Action::ToggleAutoFocus),
            'p' => Some(Action::TogglePower),
            'q' => Some(Action::Quit),
            'd' => if key.control {
                Some(Action::Quit)
            } else {
                None
            },
            _ => None,
        },
        KeyCode::Other => None,
    }
}

/// A key means the same whether it is pressed, repeated or released, and a key
/// that holds a drive always has one to hold.
pub proof fn a_key_means_one_thing(key: KeyEvent, kind: KeyEventKind, paces: Paces)
    ensures
        key_action(key, paces) == key_action((KeyEvent { kind, ..key }), paces),
        key_action(key, paces) matches Some(Action::Hold(hold)) ==> hold.drives(),
        key_action(key, paces) matches Some(Action::Camera(intent)) ==> intent is RecallPreset,
{
}

/// Shift never changes which way a key drives or which control it drives, only
/// how fast.
pub proof fn shift_only_changes_the_pace(key: KeyEvent, paces: Paces)
    ensures
        key_action((KeyEvent { shift: true, ..key }), paces) == key_action(
            (KeyEvent { shift: false, ..key }),
            (Paces { framing: paces.fast, ..paces }),
        ),
        match (
            key_action((KeyEvent { shift: true, ..key }), paces),
            key_action((KeyEvent { shift: false, ..key }), paces),
        ) {
            (Some(Action::Hold(fast)), Some(Action::Hold(framing))) => match (fast, framing) {
                (Hold::PanTilt(fast), Hold::PanTilt(framing)) => fast.direction
                    == framing.direction,
                (Hold::Zoom(fast), Hold::Zoom(framing)) => fast.direction == framing.direction,
                (Hold::Focus(fast), Hold::Focus(framing)) => fast.direction == framing.direction,
                _ => false,
            },
            (fast, framing) => fast == framing,
        },
{
}

/// Whether a character is one of those that drive the zoom or the focus.
pub open spec fn is_drive_mark(character: char) -> bool {
    ||| character == '[' || character == ']' || character == '{' || character == '}'
    ||| character == '-' || character == '=' || character == '_' || character == '+'
    ||| character == ',' || character == '.' || character == '<' || character == '>'
}

/// A key recalls preset `number` exactly when it types that number's decimal
/// digit and there is such a key, from 1 to 6, whatever is held with it and
/// whatever happened to it.
pub proof fn a_digit_recalls_its_own_preset(key: KeyEvent, paces: Paces, number: u8)
    ensures
        key_action(key, paces) == Some(Action::Camera(Intent::RecallPreset(number))) <==> {
            &&& 1 <= number <= 6
            &&& key.code is Char
            &&& seq![key.code->Char_0] == decimal(number as nat)
        },
        key_action(key, paces) matches Some(Action::Camera(intent)) ==> intent is RecallPreset,
{
    reveal_with_fuel(decimal, 2);
    if key.code is Char {
        let typed = seq![key.code->Char_0];
        if 1 <= number <= 6 {
            assert(typed[0] == key.code->Char_0);
            assert(decimal(number as nat)[0] == digit(number as nat));
            if key.code->Char_0 == digit(number as nat) {
                assert(typed =~= decimal(number as nat));
            }
        }
    }
}

/// An arrow drives the head its own way along its own axis, at the framing
/// pace alone and at the fast one with shift, and leaves the other axis at the
/// slowest.
pub proof fn an_arrow_drives_its_own_way(key: KeyEvent, paces: Paces)
    ensures
        ({
            let pace = if key.shift {
                paces.fast
            } else {
                paces.framing
            };
            let action = key_action(key, paces);
            &&& key.code is Up ==> action == Some(
                Action::Hold(
                    Hold::PanTilt(
                        Velocity {
                            direction: PanTiltDirection::Up,
                            pan_speed: 1,
                            tilt_speed: pace.tilt,
                        },
                    ),
                ),
            )
            &&& key.code is Down ==> action == Some(
                Action::Hold(
                    Hold::PanTilt(
                        Velocity {
                            direction: PanTiltDirection::Down,
                            pan_speed: 1,
                            tilt_speed: pace.tilt,
                        },
                    ),
                ),
            )
            &&& key.code is Left ==> action == Some(
                Action::Hold(
                    Hold::PanTilt(
                        Velocity {
                            direction: PanTiltDirection::Left,
                            pan_speed: pace.pan,
                            tilt_speed: 1,
                        },
                    ),
                ),
            )
            &&& key.code is Right ==> action == Some(
                Action::Hold(
                    Hold::PanTilt(
                        Velocity {
                            direction: PanTiltDirection::Right,
                            pan_speed: pace.pan,
                            tilt_speed: 1,
                        },
                    ),
                ),
            )
            &&& action matches Some(Action::Hold(Hold::PanTilt(_))) ==> key.code is Up
                || key.code is Down || key.code is Left || key.code is Right
        }),
{
}

/// A key zooms exactly when it types one of the marks for it. The closing ones
/// zoom in and the opening ones out; the marks that take shift to type are
/// fast, whether or not shift is reported, and the others are fast with it.
pub proof fn a_zoom_key_zooms_its_own_way(key: KeyEvent, paces: Paces)
    ensures
        ({
            let action = key_action(key, paces);
            let character = key.code->Char_0;
            let tighter = character == ']' || character == '=' || character == '}' || character
                == '+';
            let wider = character == '[' || character == '-' || character == '{' || character
                == '_';
            let fast = key.shift || character == '{' || character == '}' || character == '_'
                || character == '+';
            &&& (action matches Some(Action::Hold(Hold::Zoom(_)))) <==> key.code is Char && (tighter
                || wider)
            &&& action matches Some(Action::Hold(Hold::Zoom(drive))) ==> {
                &&& drive.direction == ZoomDirection::In <==> tighter
                &&& drive.direction == ZoomDirection::Out <==> wider
                &&& fast ==> drive.speed == paces.fast.zoom
                &&& !fast ==> drive.speed == paces.framing.zoom
            }
        }),
{
}

/// A key focuses exactly when it types one of the marks for it. The full stop
/// and its shifted mark focus farther, the comma and its shifted mark nearer,
/// and the speed is that of the notch that the pace gives.
pub proof fn a_focus_key_focuses_its_own_way(key: KeyEvent, paces: Paces)
    ensures
        ({
            let action = key_action(key, paces);
            let character = key.code->Char_0;
            let farther = character == '.' || character == '>';
            let nearer = character == ',' || character == '<';
            let fast = key.shift || character == '<' || character == '>';
            &&& (action matches Some(Action::Hold(Hold::Focus(_)))) <==> key.code is Char && (farther
                || nearer)
            &&& action matches Some(Action::Hold(Hold::Focus(drive))) ==> {
                &&& drive.direction == FocusDirection::Far <==> farther
                &&& drive.direction == FocusDirection::Near <==> nearer
                &&& fast ==> drive.speed == notch_level(paces.fast.focus as int)
                &&& !fast ==> drive.speed == notch_level(paces.framing.focus as int)
            }
        }),
{
}

/// One letter each switches the focus mode, switches the power and quits, and
/// the end-of-input key quits too. Apart from those, the arrows, the digits
/// from 1 to 6 and the marks that drive, no key means anything.
pub proof fn the_letters_switch_and_quit(key: KeyEvent, paces: Paces)
    ensures
        ({
            let action = key_action(key, paces);
            let character = key.code->Char_0;
            let typed = key.code is Char;
            &&& action == Some(Action::ToggleAutoFocus) <==> typed && character == 'f'
            &&& action == Some(Action::TogglePower) <==> typed && character == 'p'
            &&& action == Some(Action::Quit) <==> typed && (character == 'q' || (character == 'd'
                && key.control))
            &&& action is None <==> key.code is Other || (typed && !is_drive_mark(character) && !(
            '1' <= character <= '6') && character != 'f' && character != 'p' && character != 'q'
                && !(character == 'd' && key.control))
        }),
{
}

} // verus!
