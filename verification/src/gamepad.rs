//! What a game controller is asking the camera to do.
//!
//! Free of any gamepad library: this takes the sticks and triggers as the
//! pushes they amount to and the buttons as booleans, so that the whole mapping
//! can be exercised without a controller plugged in.

use vstd::prelude::*;

use crate::deflection::{within, Push};
use crate::drives::Drives;
use crate::focus::{focus_drive, FocusDrive};
use crate::pan_tilt::{
    axes_velocity, velocity_from_axes, PanTiltDirection, MIN_SPEED, TOP_PAN_SPEED, TOP_TILT_SPEED,
};
use crate::rocker::notch_level;
use crate::zoom::{zoom_drive, ZoomDrive, MAX_ZOOM_SPEED};

verus! {

/// Which buttons are down. Named the way the layout is, not the way one
/// vendor's labels are: on an Xbox-style controller `south` is A, `east` is B,
/// `west` is X and `north` is Y.
#[derive(Debug, Clone, Copy, PartialEq, Eq, Structural)]
pub struct Buttons {
    /// The lowest face button.
    pub south: bool,
    /// The rightmost face button.
    pub east: bool,
    /// The leftmost face button.
    pub west: bool,
    /// The highest face button.
    pub north: bool,
    /// The left shoulder.
    pub left_bumper: bool,
    /// The right shoulder.
    pub right_bumper: bool,
    /// One of the two small centre buttons.
    pub start: bool,
    /// The other.
    pub back: bool,
    /// The left stick itself, which clicks.
    pub left_stick: bool,
    /// The right stick itself.
    pub right_stick: bool,
}

impl Buttons {
    /// No button down.
    pub open spec fn up() -> Buttons {
        Buttons {
            south: false,
            east: false,
            west: false,
            north: false,
            left_bumper: false,
            right_bumper: false,
            start: false,
            back: false,
            left_stick: false,
            right_stick: false,
        }
    }
}

impl Default for Buttons {
    fn default() -> (buttons: Buttons)
        ensures
            buttons == Buttons::up(),
    {
        Buttons {
            south: false,
            east: false,
            west: false,
            north: false,
            left_bumper: false,
            right_bumper: false,
            start: false,
            back: false,
            left_stick: false,
            right_stick: false,
        }
    }
}

/// Where every control on the controller is: what the sticks and triggers are
/// pushed to, and which buttons are down.
#[derive(Debug, Clone, Copy, PartialEq, Eq, Structural)]
pub struct Pad {
    /// The left stick's sideways push, positive being right.
    pub pan: Option<Push>,
    /// The left stick's upward push.
    pub tilt: Option<Push>,
    /// The right stick's upward push, which tightens the shot.
    pub zoom: Option<Push>,
    /// How much further the right trigger is pulled than the left. Zoom is the
    /// constant operation and focus the rare one; on different fingers neither
    /// disturbs the other.
    pub focus: Option<Push>,
    /// The buttons.
    pub buttons: Buttons,
}

impl Pad {
    /// Whether each speed that this asks for is one that its control has.
    pub open spec fn valid(self) -> bool {
        &&& within(self.pan, MIN_SPEED, TOP_PAN_SPEED)
        &&& within(self.tilt, MIN_SPEED, TOP_TILT_SPEED)
        &&& within(self.zoom, 0, MAX_ZOOM_SPEED)
    }
}

impl Default for Pad {
    /// A controller nobody is touching.
    fn default() -> (pad: Pad)
        ensures
            pad == (Pad { pan: None, tilt: None, zoom: None, focus: None, buttons: Buttons::up() }),
    {
        Pad { pan: None, tilt: None, zoom: None, focus: None, buttons: Buttons::default() }
    }
}

/// Something the operator asked for by pressing a button, as opposed to the
/// continuous drives the sticks and triggers ask for by being held.
///
/// The two toggles say what to switch rather than what to switch to: which way
/// they go depends on what the camera is doing.
#[derive(Debug, Clone, Copy, PartialEq, Eq, Structural)]
pub enum Press {
    /// Go to this preset.
    Recall(u8),
    /// Store where the camera is pointing now as this preset.
    Mark(u8),
    /// Return to the home position.
    Home,
    /// Switch between focusing automatically and by hand.
    ToggleAutoFocus,
    /// Wake the camera, or put it back into standby.
    TogglePower,
    /// Move one step this way.
    Nudge(PanTiltDirection),
}

/// A controller, and enough memory of it to tell a press from a hold.
///
/// A held button means one preset recall, not one per reading.
#[derive(Debug, Clone, Copy, PartialEq, Eq, Structural)]
pub struct Gamepad {
    /// The buttons that were down at the last reading.
    pub previous: Buttons,
}

impl Default for Gamepad {
    fn default() -> (gamepad: Gamepad)
        ensures
            gamepad.previous == Buttons::up(),
    {
        Gamepad { previous: Buttons::default() }
    }
}

/// Whether both centre buttons are down and one of them has just become so.
pub open spec fn power_combo(before: Buttons, now: Buttons) -> bool {
    now.start && now.back && !(before.start && before.back)
}

/// What a preset button does when it has just gone down: with Start held it
/// marks the preset, and without it goes there.
pub open spec fn preset_press(before: bool, now: bool, marking: bool, preset: u8) -> Seq<Press> {
    if now && !before {
        seq![
            if marking {
                Press::Mark(preset)
            } else {
                Press::Recall(preset)
            },
        ]
    } else {
        Seq::empty()
    }
}

/// What a button does when it has just gone down.
pub open spec fn button_press(before: bool, now: bool, press: Press) -> Seq<Press> {
    if now && !before {
        seq![press]
    } else {
        Seq::empty()
    }
}

/// What was pressed between two readings of the buttons: both centre buttons
/// together switch the power and nothing else; otherwise the presets come in
/// order, and then the clicks of the sticks.
pub open spec fn pressed(before: Buttons, now: Buttons) -> Seq<Press> {
    if power_combo(before, now) {
        seq![Press::TogglePower]
    } else {
        preset_press(before.south, now.south, now.start, 1) + preset_press(
            before.east,
            now.east,
            now.start,
            2,
        ) + preset_press(before.west, now.west, now.start, 3) + preset_press(
            before.north,
            now.north,
            now.start,
            4,
        ) + preset_press(before.left_bumper, now.left_bumper, now.start, 5) + preset_press(
            before.right_bumper,
            now.right_bumper,
            now.start,
            6,
        ) + button_press(before.left_stick, now.left_stick, Press::Home) + button_press(
            before.right_stick,
            now.right_stick,
            Press::ToggleAutoFocus,
        )
    }
}

fn add_preset(presses: &mut Vec<Press>, before: bool, now: bool, marking: bool, preset: u8)
    ensures
        final(presses)@ == old(presses)@ + preset_press(before, now, marking, preset),
{
    if now && !before {
        presses.push(
            if marking {
                Press::Mark(preset)
            } else {
                Press::Recall(preset)
            },
        );
    }
    proof {
        assert(presses@ =~= old(presses)@ + preset_press(before, now, marking, preset));
    }
}

fn add_press(presses: &mut Vec<Press>, before: bool, now: bool, press: Press)
    ensures
        final(presses)@ == old(presses)@ + button_press(before, now, press),
{
    if now && !before {
        presses.push(press);
    }
    proof {
        assert(presses@ =~= old(presses)@ + button_press(before, now, press));
    }
}

/// What the sticks and triggers of a pad ask for.
pub open spec fn pad_drives(pad: Pad) -> Drives {
    Drives {
        pan_tilt: axes_velocity(pad.pan, pad.tilt),
        zoom: zoom_drive(pad.zoom),
        focus: focus_drive(pad.focus),
    }
}

/// What the sticks and triggers are asking for, which depends only on where
/// they are right now: letting go is the stop.
pub fn drives(pad: &Pad) -> (drives: Drives)
    requires
        pad.valid(),
    ensures
        drives == pad_drives(*pad),
        drives.steerable(),
{
    Drives {
        pan_tilt: velocity_from_axes(pad.pan, pad.tilt),
        zoom: ZoomDrive::from_deflection(pad.zoom),
        focus: FocusDrive::from_deflection(pad.focus),
    }
}

impl Gamepad {
    /// Takes the controller's current state and reports what it is asking for:
    /// the drives to hold, and whatever was just pressed.
    pub fn update(&mut self, pad: Pad) -> (asked: (Drives, Vec<Press>))
        requires
            pad.valid(),
        ensures
            final(self).previous == pad.buttons,
            asked.0 == pad_drives(pad),
            asked.0.steerable(),
            asked.1@ == pressed(old(self).previous, pad.buttons),
    {
        let presses = self.presses(&pad);
        self.previous = pad.buttons;
        (drives(&pad), presses)
    }

    /// What was pressed this time round that wasn't held last time.
    pub fn presses(&self, pad: &Pad) -> (presses: Vec<Press>)
        ensures
            presses@ == pressed(self.previous, pad.buttons),
    {
        let before = self.previous;
        let now = pad.buttons;
        // Deliberately awkward: a camera dropped into standby by a stray thumb
        // is worse than one that takes two fingers to switch off.
        if now.start && now.back && (!before.start || !before.back) {
            return vec![Press::TogglePower];
        }
        let mut presses: Vec<Press> = Vec::new();
        add_preset(&mut presses, before.south, now.south, now.start, 1);
        add_preset(&mut presses, before.east, now.east, now.start, 2);
        add_preset(&mut presses, before.west, now.west, now.start, 3);
        add_preset(&mut presses, before.north, now.north, now.start, 4);
        add_preset(&mut presses, before.left_bumper, now.left_bumper, now.start, 5);
        add_preset(&mut presses, before.right_bumper, now.right_bumper, now.start, 6);
        add_press(&mut presses, before.left_stick, now.left_stick, Press::Home);
        add_press(&mut presses, before.right_stick, now.right_stick, Press::ToggleAutoFocus);
        proof {
            assert(presses@ =~= pressed(before, now));
        }
        presses
    }
}

/// Whether every button that is down now was down before.
pub open spec fn only_let_go(before: Buttons, now: Buttons) -> bool {
    &&& now.south ==> before.south
    &&& now.east ==> before.east
    &&& now.west ==> before.west
    &&& now.north ==> before.north
    &&& now.left_bumper ==> before.left_bumper
    &&& now.right_bumper ==> before.right_bumper
    &&& now.start ==> before.start
    &&& now.back ==> before.back
    &&& now.left_stick ==> before.left_stick
    &&& now.right_stick ==> before.right_stick
}

/// A button that stays down presses nothing again, and neither does letting go
/// of any button, whichever others stay down.
pub proof fn holding_presses_once(before: Buttons, now: Buttons)
    requires
        only_let_go(before, now),
    ensures
        pressed(before, now) == Seq::<Press>::empty(),
        pressed(now, now) == Seq::<Press>::empty(),
        pressed(before, Buttons::up()) == Seq::<Press>::empty(),
{
    assert(pressed(before, now) =~= Seq::<Press>::empty());
    assert(pressed(now, now) =~= Seq::<Press>::empty());
    assert(pressed(before, Buttons::up()) =~= Seq::<Press>::empty());
}

proof fn in_neither(first: Seq<Press>, second: Seq<Press>, press: Press)
    requires
        !first.contains(press),
        !second.contains(press),
    ensures
        !(first + second).contains(press),
{
    assert forall|place: int| 0 <= place < (first + second).len() implies (first + second)[place]
        != press by {
        if place < first.len() {
            assert(first.contains(first[place]));
        } else {
            assert(second.contains(second[place - first.len()]));
        }
    }
}

/// What none of the buttons does on its own is not among the presses.
proof fn not_among_the_presses(before: Buttons, now: Buttons, press: Press)
    requires
        !power_combo(before, now),
        press != Press::Home,
        press != Press::ToggleAutoFocus,
        press is Mark ==> !now.start,
        press is Recall ==> now.start,
    ensures
        !pressed(before, now).contains(press),
{
    let one = preset_press(before.south, now.south, now.start, 1);
    let two = preset_press(before.east, now.east, now.start, 2);
    let three = preset_press(before.west, now.west, now.start, 3);
    let four = preset_press(before.north, now.north, now.start, 4);
    let five = preset_press(before.left_bumper, now.left_bumper, now.start, 5);
    let six = preset_press(before.right_bumper, now.right_bumper, now.start, 6);
    let home = button_press(before.left_stick, now.left_stick, Press::Home);
    let auto = button_press(before.right_stick, now.right_stick, Press::ToggleAutoFocus);
    in_neither(one, two, press);
    in_neither(one + two, three, press);
    in_neither(one + two + three, four, press);
    in_neither(one + two + three + four, five, press);
    in_neither(one + two + three + four + five, six, press);
    in_neither(one + two + three + four + five + six, home, press);
    in_neither(one + two + three + four + five + six + home, auto, press);
}

/// The power is switched only by both centre buttons together, and whenever it
/// is, nothing else is.
pub proof fn only_both_centre_buttons_switch_the_power(before: Buttons, now: Buttons)
    ensures
        pressed(before, now).contains(Press::TogglePower) <==> power_combo(before, now),
        pressed(before, now).contains(Press::TogglePower) ==> pressed(before, now)
            == seq![Press::TogglePower],
{
    if power_combo(before, now) {
        assert(pressed(before, now)[0] == Press::TogglePower);
    } else {
        not_among_the_presses(before, now, Press::TogglePower);
    }
}

/// Without Start no press marks a preset, and with it none goes to one.
pub proof fn start_turns_going_into_marking(before: Buttons, now: Buttons, preset: u8)
    ensures
        !now.start ==> !pressed(before, now).contains(Press::Mark(preset)),
        now.start ==> !pressed(before, now).contains(Press::Recall(preset)),
{
    let press = if now.start {
        Press::Recall(preset)
    } else {
        Press::Mark(preset)
    };
    if power_combo(before, now) {
        assert(!pressed(before, now).contains(press));
    } else {
        not_among_the_presses(before, now, press);
    }
}

/// A controller nobody is touching asks for nothing.
pub proof fn a_resting_pad_asks_for_nothing(pad: Pad)
    requires
        pad.pan is None,
        pad.tilt is None,
        pad.zoom is None,
        pad.focus is None,
    ensures
        pad_drives(pad) == Drives::at_rest(),
{
}

/// Whether the button of a preset has just gone down: the four face buttons
/// are the first four presets, from the bottom one round to the top, and the
/// bumpers the last two.
pub open spec fn preset_button_went_down(before: Buttons, now: Buttons, preset: u8) -> bool {
    ||| preset == 1 && now.south && !before.south
    ||| preset == 2 && now.east && !before.east
    ||| preset == 3 && now.west && !before.west
    ||| preset == 4 && now.north && !before.north
    ||| preset == 5 && now.left_bumper && !before.left_bumper
    ||| preset == 6 && now.right_bumper && !before.right_bumper
}

/// Whether both centre buttons are down, and were not both down before.
pub open spec fn both_centre_buttons_went_down(before: Buttons, now: Buttons) -> bool {
    (now.start && now.back) && (!before.start || !before.back)
}

proof fn in_either(first: Seq<Press>, second: Seq<Press>, press: Press)
    ensures
        (first + second).contains(press) <==> first.contains(press) || second.contains(press),
{
    if first.contains(press) {
        let place = choose|place: int| 0 <= place < first.len() && first[place] == press;
        assert((first + second)[place] == press);
    }
    if second.contains(press) {
        let place = choose|place: int| 0 <= place < second.len() && second[place] == press;
        assert((first + second)[first.len() + place] == press);
    }
    if (first + second).contains(press) {
        let place = choose|place: int|
            0 <= place < (first + second).len() && (first + second)[place] == press;
        if place < first.len() {
            assert(first[place] == press);
        } else {
            assert(second[place - first.len()] == press);
        }
    }
}

proof fn in_one_press(cause: bool, press: Press, asked: Press)
    ensures
        (if cause {
            seq![press]
        } else {
            Seq::<Press>::empty()
        }).contains(asked) <==> cause && press == asked,
{
    if cause && press == asked {
        assert(seq![press][0] == asked);
    }
}

proof fn where_a_press_comes_from(before: Buttons, now: Buttons, press: Press)
    requires
        !power_combo(before, now),
    ensures
        pressed(before, now).contains(press) <==> {
            ||| preset_press(before.south, now.south, now.start, 1).contains(press)
            ||| preset_press(before.east, now.east, now.start, 2).contains(press)
            ||| preset_press(before.west, now.west, now.start, 3).contains(press)
            ||| preset_press(before.north, now.north, now.start, 4).contains(press)
            ||| preset_press(before.left_bumper, now.left_bumper, now.start, 5).contains(press)
            ||| preset_press(before.right_bumper, now.right_bumper, now.start, 6).contains(press)
            ||| button_press(before.left_stick, now.left_stick, Press::Home).contains(press)
            ||| button_press(before.right_stick, now.right_stick, Press::ToggleAutoFocus).contains(
                press,
            )
        },
{
    let one = preset_press(before.south, now.south, now.start, 1);
    let two = preset_press(before.east, now.east, now.start, 2);
    let three = preset_press(before.west, now.west, now.start, 3);
    let four = preset_press(before.north, now.north, now.start, 4);
    let five = preset_press(before.left_bumper, now.left_bumper, now.start, 5);
    let six = preset_press(before.right_bumper, now.right_bumper, now.start, 6);
    let home = button_press(before.left_stick, now.left_stick, Press::Home);
    let auto = button_press(before.right_stick, now.right_stick, Press::ToggleAutoFocus);
    in_either(one, two, press);
    in_either(one + two, three, press);
    in_either(one + two + three, four, press);
    in_either(one + two + three + four, five, press);
    in_either(one + two + three + four + five, six, press);
    in_either(one + two + three + four + five + six, home, press);
    in_either(one + two + three + four + five + six + home, auto, press);
}

/// Without Start a preset is gone to exactly when its own button has just gone
/// down, and with Start it is marked exactly then. Clicking the left stick
/// goes home and clicking the right one switches the focus mode. Both centre
/// buttons together switch the power and do none of that.
pub proof fn each_button_does_its_own_thing(before: Buttons, now: Buttons, preset: u8)
    ensures
        ({
            let presses = pressed(before, now);
            let power = both_centre_buttons_went_down(before, now);
            let down = preset_button_went_down(before, now, preset);
            &&& presses.contains(Press::Recall(preset)) <==> !power && !now.start && down
            &&& presses.contains(Press::Mark(preset)) <==> !power && now.start && down
            &&& presses.contains(Press::Home) <==> !power && now.left_stick && !before.left_stick
            &&& presses.contains(Press::ToggleAutoFocus) <==> !power && now.right_stick
                && !before.right_stick
            &&& presses.contains(Press::TogglePower) <==> power
            &&& power ==> presses.len() == 1
        }),
{
    let marking = now.start;
    let recall = Press::Recall(preset);
    let mark = Press::Mark(preset);
    only_both_centre_buttons_switch_the_power(before, now);
    if !power_combo(before, now) {
        where_a_press_comes_from(before, now, recall);
        where_a_press_comes_from(before, now, mark);
        where_a_press_comes_from(before, now, Press::Home);
        where_a_press_comes_from(before, now, Press::ToggleAutoFocus);
        one_preset_button(before.south, now.south, marking, 1, recall);
        one_preset_button(before.east, now.east, marking, 2, recall);
        one_preset_button(before.west, now.west, marking, 3, recall);
        one_preset_button(before.north, now.north, marking, 4, recall);
        one_preset_button(before.left_bumper, now.left_bumper, marking, 5, recall);
        one_preset_button(before.right_bumper, now.right_bumper, marking, 6, recall);
        one_preset_button(before.south, now.south, marking, 1, mark);
        one_preset_button(before.east, now.east, marking, 2, mark);
        one_preset_button(before.west, now.west, marking, 3, mark);
        one_preset_button(before.north, now.north, marking, 4, mark);
        one_preset_button(before.left_bumper, now.left_bumper, marking, 5, mark);
        one_preset_button(before.right_bumper, now.right_bumper, marking, 6, mark);
        no_preset_button(before, now, Press::Home);
        no_preset_button(before, now, Press::ToggleAutoFocus);
        let home = now.left_stick && !before.left_stick;
        let auto = now.right_stick && !before.right_stick;
        in_one_press(home, Press::Home, recall);
        in_one_press(home, Press::Home, mark);
        in_one_press(home, Press::Home, Press::Home);
        in_one_press(home, Press::Home, Press::ToggleAutoFocus);
        in_one_press(auto, Press::ToggleAutoFocus, recall);
        in_one_press(auto, Press::ToggleAutoFocus, mark);
        in_one_press(auto, Press::ToggleAutoFocus, Press::Home);
        in_one_press(auto, Press::ToggleAutoFocus, Press::ToggleAutoFocus);
    } else {
        assert(pressed(before, now).len() == 1);
        assert forall|press: Press| pressed(before, now).contains(press) implies press
            == Press::TogglePower by {
            let place = choose|place: int|
                0 <= place < pressed(before, now).len() && pressed(before, now)[place] == press;
        }
    }
}

proof fn one_preset_button(before: bool, now: bool, marking: bool, preset: u8, press: Press)
    ensures
        preset_press(before, now, marking, preset).contains(press) <==> now && !before && press
            == if marking {
            Press::Mark(preset)
        } else {
            Press::Recall(preset)
        },
{
    in_one_press(
        now && !before,
        if marking {
            Press::Mark(preset)
        } else {
            Press::Recall(preset)
        },
        press,
    );
}

proof fn no_preset_button(before: Buttons, now: Buttons, press: Press)
    requires
        press is Home || press is ToggleAutoFocus,
    ensures
        !preset_press(before.south, now.south, now.start, 1).contains(press),
        !preset_press(before.east, now.east, now.start, 2).contains(press),
        !preset_press(before.west, now.west, now.start, 3).contains(press),
        !preset_press(before.north, now.north, now.start, 4).contains(press),
        !preset_press(before.left_bumper, now.left_bumper, now.start, 5).contains(press),
        !preset_press(before.right_bumper, now.right_bumper, now.start, 6).contains(press),
{
    one_preset_button(before.south, now.south, now.start, 1, press);
    one_preset_button(before.east, now.east, now.start, 2, press);
    one_preset_button(before.west, now.west, now.start, 3, press);
    one_preset_button(before.north, now.north, now.start, 4, press);
    one_preset_button(before.left_bumper, now.left_bumper, now.start, 5, press);
    one_preset_button(before.right_bumper, now.right_bumper, now.start, 6, press);
}

/// Every press comes from a button of its own: there are as many presses as
/// buttons that do something went down, so that none of them is done twice.
pub proof fn one_press_for_each_button(before: Buttons, now: Buttons)
    requires
        !both_centre_buttons_went_down(before, now),
    ensures
        pressed(before, now).len() == went_down(before.south, now.south) + went_down(
            before.east,
            now.east,
        ) + went_down(before.west, now.west) + went_down(before.north, now.north) + went_down(
            before.left_bumper,
            now.left_bumper,
        ) + went_down(before.right_bumper, now.right_bumper) + went_down(
            before.left_stick,
            now.left_stick,
        ) + went_down(before.right_stick, now.right_stick),
{
}

/// One, for a button that has just gone down.
pub open spec fn went_down(before: bool, now: bool) -> int {
    if now && !before {
        1
    } else {
        0
    }
}

/// Nothing is down on a controller nobody is touching.
pub proof fn nothing_is_down_at_rest()
    ensures
        ({
            let up = Buttons::up();
            &&& !up.south && !up.east && !up.west && !up.north
            &&& !up.left_bumper && !up.right_bumper
            &&& !up.start && !up.back && !up.left_stick && !up.right_stick
        }),
{
}

/// The left stick pans and tilts the way it is pushed, the right one zooms in
/// when pushed up and out when pushed down, and the triggers focus farther
/// when the right one is pulled further and nearer when the left one is, each
/// as fast as it is pushed, whatever the others and the buttons do.
pub proof fn each_stick_drives_its_own_control(pad: Pad)
    ensures
        ({
            let drives = pad_drives(pad);
            let way = drives.pan_tilt.direction;
            &&& (way is Right || way is UpRight || way is DownRight) <==> pad.pan is Some
                && pad.pan->Some_0.positive
            &&& (way is Left || way is UpLeft || way is DownLeft) <==> pad.pan is Some
                && !pad.pan->Some_0.positive
            &&& (way is Up || way is UpLeft || way is UpRight) <==> pad.tilt is Some
                && pad.tilt->Some_0.positive
            &&& (way is Down || way is DownLeft || way is DownRight) <==> pad.tilt is Some
                && !pad.tilt->Some_0.positive
            &&& pad.pan matches Some(push) ==> drives.pan_tilt.pan_speed == push.speed
            &&& pad.tilt matches Some(push) ==> drives.pan_tilt.tilt_speed == push.speed
            &&& drives.zoom is Some <==> pad.zoom is Some
            &&& pad.zoom matches Some(push) ==> (drives.zoom->Some_0.direction is In
                <==> push.positive) && drives.zoom->Some_0.speed == push.speed
            &&& drives.focus is Some <==> pad.focus is Some
            &&& pad.focus matches Some(push) ==> (drives.focus->Some_0.direction is Far
                <==> push.positive) && drives.focus->Some_0.speed == notch_level(push.speed as int)
        }),
{
}

/// Where a press stands among those of one reading: the presets by number, and
/// after them the clicks of the sticks.
pub open spec fn standing(press: Press) -> int {
    match press {
        Press::Recall(preset) => preset as int,
        Press::Mark(preset) => preset as int,
        Press::Home => 256,
        Press::ToggleAutoFocus => 257,
        Press::TogglePower => 258,
        Press::Nudge(_) => 259,
    }
}

/// Whether presses come in the order of their standing, none of them above
/// `most`.
pub open spec fn in_order(presses: Seq<Press>, most: int) -> bool {
    &&& forall|first: int, second: int|
        0 <= first < second < presses.len() ==> standing(#[trigger] presses[first]) < standing(
            #[trigger] presses[second],
        )
    &&& forall|place: int| 0 <= place < presses.len() ==> standing(#[trigger] presses[place]) <= most
}

proof fn one_more_in_order(presses: Seq<Press>, most: int, cause: bool, press: Press)
    requires
        in_order(presses, most),
        most < standing(press),
    ensures
        in_order(
            presses + (if cause {
                seq![press]
            } else {
                Seq::<Press>::empty()
            }),
            standing(press),
        ),
{
}

/// The presses of one reading come in the order of the presets, and after them
/// the clicks of the sticks.
pub proof fn presses_come_in_order(before: Buttons, now: Buttons, first: int, second: int)
    requires
        0 <= first < second < pressed(before, now).len(),
    ensures
        standing(pressed(before, now)[first]) < standing(pressed(before, now)[second]),
{
    let preset = |number: u8|
        if now.start {
            Press::Mark(number)
        } else {
            Press::Recall(number)
        };
    let none = Seq::<Press>::empty();
    let one = none + preset_press(before.south, now.south, now.start, 1);
    let two = one + preset_press(before.east, now.east, now.start, 2);
    let three = two + preset_press(before.west, now.west, now.start, 3);
    let four = three + preset_press(before.north, now.north, now.start, 4);
    let five = four + preset_press(before.left_bumper, now.left_bumper, now.start, 5);
    let six = five + preset_press(before.right_bumper, now.right_bumper, now.start, 6);
    let home = six + button_press(before.left_stick, now.left_stick, Press::Home);
    let auto = home + button_press(before.right_stick, now.right_stick, Press::ToggleAutoFocus);
    one_more_in_order(none, 0, now.south && !before.south, preset(1));
    one_more_in_order(one, 1, now.east && !before.east, preset(2));
    one_more_in_order(two, 2, now.west && !before.west, preset(3));
    one_more_in_order(three, 3, now.north && !before.north, preset(4));
    one_more_in_order(four, 4, now.left_bumper && !before.left_bumper, preset(5));
    one_more_in_order(five, 5, now.right_bumper && !before.right_bumper, preset(6));
    one_more_in_order(six, 6, now.left_stick && !before.left_stick, Press::Home);
    one_more_in_order(home, 256, now.right_stick && !before.right_stick, Press::ToggleAutoFocus);
    if !power_combo(before, now) {
        assert(pressed(before, now) =~= auto);
    }
}

} // verus!
