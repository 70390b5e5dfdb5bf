//! What the keyboard asks of the camera in the window.
//!
//! The same fingers as in the terminal: shift and the arrows pan and tilt,
//! `[`/`]` or `-`/`=` or page up and down zoom, `,`/`.` focus, and an arrow on
//! its own takes one step.

use vstd::prelude::*;

use crate::deflection::Push;
use crate::drives::Drives;
use crate::focus::{focus_drive, FocusDrive};
use crate::keymap::Paces;
use crate::keys::Key;
use crate::nudge::Step;
use crate::pan_tilt::{axes_velocity, velocity_from_axes, PanTiltDirection, Velocity};
use crate::rocker::notch_level;
use crate::window::PRESETS;
use crate::zoom::{zoom_drive, ZoomDrive};

verus! {

/// Which of the keys that hold a drive are down.
#[derive(Debug, Clone, Copy, PartialEq, Eq, Structural)]
pub struct KeysDown {
    /// The up arrow.
    pub arrow_up: bool,
    /// The down arrow.
    pub arrow_down: bool,
    /// The left arrow.
    pub arrow_left: bool,
    /// The right arrow.
    pub arrow_right: bool,
    /// Any key that zooms out.
    pub wider: bool,
    /// Any key that zooms in.
    pub tighter: bool,
    /// The key that focuses nearer.
    pub nearer: bool,
    /// The key that focuses farther.
    pub farther: bool,
}

/// Whether `keys` is what the keyboard reports of its keys one by one.
pub open spec fn reports<D: Fn(Key) -> bool>(down: D, keys: KeysDown) -> bool {
    &&& call_ensures(down, (Key::ArrowUp,), keys.arrow_up)
    &&& call_ensures(down, (Key::ArrowDown,), keys.arrow_down)
    &&& call_ensures(down, (Key::ArrowLeft,), keys.arrow_left)
    &&& call_ensures(down, (Key::ArrowRight,), keys.arrow_right)
    &&& any_of(down, Key::OpenBracket, Key::Minus, Key::PageDown, keys.wider)
    &&& any_of(down, Key::CloseBracket, Key::Equals, Key::PageUp, keys.tighter)
    &&& call_ensures(down, (Key::Comma,), keys.nearer)
    &&& call_ensures(down, (Key::Period,), keys.farther)
}

/// Whether `any` is whether one of three keys is down.
pub open spec fn any_of<D: Fn(Key) -> bool>(
    down: D,
    first: Key,
    second: Key,
    third: Key,
    any: bool,
) -> bool {
    exists|one: bool, two: bool, three: bool|
        {
            &&& #[trigger] call_ensures(down, (first,), one)
            &&& #[trigger] call_ensures(down, (second,), two)
            &&& #[trigger] call_ensures(down, (third,), three)
            &&& any == (one || two || three)
        }
}

fn any_down<D>(down: &D, first: Key, second: Key, third: Key) -> (any: bool)
    where D: Fn(Key) -> bool,

    requires
        forall|key: Key| #[trigger] call_requires(*down, (key,)),
    ensures
        any_of(*down, first, second, third, any),
{
    let one = down(first);
    let two = down(second);
    let three = down(third);
    assert(call_ensures(*down, (first,), one));
    assert(call_ensures(*down, (second,), two));
    assert(call_ensures(*down, (third,), three));
    one || two || three
}

impl KeysDown {
    /// Asks the keyboard for each key in turn.
    pub fn read<D>(down: D) -> (keys: KeysDown)
        where D: Fn(Key) -> bool,

        requires
            forall|key: Key| #[trigger] call_requires(down, (key,)),
        ensures
            reports(down, keys),
    {
        let arrow_up = down(Key::ArrowUp);
        let arrow_down = down(Key::ArrowDown);
        let arrow_left = down(Key::ArrowLeft);
        let arrow_right = down(Key::ArrowRight);
        let wider = any_down(&down, Key::OpenBracket, Key::Minus, Key::PageDown);
        let tighter = any_down(&down, Key::CloseBracket, Key::Equals, Key::PageUp);
        let nearer = down(Key::Comma);
        let farther = down(Key::Period);
        KeysDown {
            arrow_up,
            arrow_down,
            arrow_left,
            arrow_right,
            wider,
            tighter,
            nearer,
            farther,
        }
    }
}

/// How two opposed keys push the control they share, which is nowhere when
/// both are down.
pub open spec fn opposing(negative: bool, positive: bool, speed: u8) -> Option<Push> {
    if negative == positive {
        None
    } else {
        Some(Push { positive, speed })
    }
}

/// How two opposed keys push the control they share, which is nowhere when
/// both are down: a control can only go one way at a time.
#[verifier::when_used_as_spec(opposing)]
pub fn opposed(negative: bool, positive: bool, speed: u8) -> (push: Option<Push>)
    ensures
        push == opposing(negative, positive, speed),
{
    if negative == positive {
        None
    } else {
        Some(Push { positive, speed })
    }
}

/// The drives that held keys ask for. Shift is what tells an arrow to drive
/// rather than step, always at the framing pace; on the other controls it
/// means everything they have.
pub open spec fn key_drives(keys: KeysDown, shift: bool, paces: Paces) -> Drives {
    let pace = if shift {
        paces.fast
    } else {
        paces.framing
    };
    Drives {
        pan_tilt: if shift {
            axes_velocity(
                opposing(keys.arrow_left, keys.arrow_right, paces.framing.pan),
                opposing(keys.arrow_down, keys.arrow_up, paces.framing.tilt),
            )
        } else {
            Velocity::stopped()
        },
        zoom: zoom_drive(opposing(keys.wider, keys.tighter, pace.zoom)),
        focus: focus_drive(opposing(keys.nearer, keys.farther, pace.focus)),
    }
}

/// The drives the held keys are asking for.
pub fn held_drives(keys: KeysDown, shift: bool, paces: Paces) -> (drives: Drives)
    requires
        paces.valid(),
    ensures
        drives == key_drives(keys, shift, paces),
        drives.steerable(),
{
    let pace = if shift {
        paces.fast
    } else {
        paces.framing
    };
    Drives {
        pan_tilt: if shift {
            velocity_from_axes(
                opposed(keys.arrow_left, keys.arrow_right, paces.framing.pan),
                opposed(keys.arrow_down, keys.arrow_up, paces.framing.tilt),
            )
        } else {
            Velocity::stop()
        },
        zoom: ZoomDrive::from_deflection(opposed(keys.wider, keys.tighter, pace.zoom)),
        focus: FocusDrive::from_deflection(opposed(keys.nearer, keys.farther, pace.focus)),
    }
}

/// An arrow on its own drives nothing, and opposed keys cancel rather than
/// pick one.
pub proof fn opposed_keys_cancel(keys: KeysDown, shift: bool, paces: Paces)
    ensures
        !shift ==> key_drives(keys, shift, paces).pan_tilt == Velocity::stopped(),
        keys.arrow_left == keys.arrow_right && keys.arrow_up == keys.arrow_down ==> key_drives(
            keys,
            shift,
            paces,
        ).pan_tilt == Velocity::stopped(),
        key_drives(keys, shift, paces).zoom is None <==> keys.wider == keys.tighter,
        key_drives(keys, shift, paces).focus is None <==> keys.nearer == keys.farther,
{
}

/// The step an arrow key asks for, if it is one.
pub open spec fn arrow_step(key: Key) -> Option<Step> {
    match key {
        Key::ArrowUp => Some(Step::one(PanTiltDirection::Up)),
        Key::ArrowDown => Some(Step::one(PanTiltDirection::Down)),
        Key::ArrowLeft => Some(Step::one(PanTiltDirection::Left)),
        Key::ArrowRight => Some(Step::one(PanTiltDirection::Right)),
        _ => None,
    }
}

/// The step an arrow key asks for, if it is one.
#[verifier::when_used_as_spec(arrow_step)]
pub fn step_for(key: Key) -> (step: Option<Step>)
    ensures
        step == arrow_step(key),
{
    match key {
        Key::ArrowUp => Some(Step::towards(PanTiltDirection::Up)),
        Key::ArrowDown => Some(Step::towards(PanTiltDirection::Down)),
        Key::ArrowLeft => Some(Step::towards(PanTiltDirection::Left)),
        Key::ArrowRight => Some(Step::towards(PanTiltDirection::Right)),
        _ => None,
    }
}

/// One key event of a frame.
#[derive(Debug, Clone, Copy, PartialEq, Eq, Structural)]
pub struct KeyInput {
    /// Which key.
    pub key: Key,
    /// Whether it went down rather than up.
    pub pressed: bool,
    /// Whether it was down already.
    pub repeat: bool,
    /// Whether shift was held.
    pub shift: bool,
}

/// The step that a key event asks for. A repeat asks for none: a finger
/// resting on an arrow is not asking the camera to walk away.
pub open spec fn input_step(input: KeyInput) -> Option<Step> {
    if input.pressed && !input.repeat && !input.shift {
        arrow_step(input.key)
    } else {
        None
    }
}

/// The steps that a run of key events asks for, in order.
pub open spec fn input_steps(inputs: Seq<KeyInput>) -> Seq<Step>
    decreases inputs.len(),
{
    if inputs.len() == 0 {
        Seq::empty()
    } else {
        let before = input_steps(inputs.drop_last());
        match input_step(inputs.last()) {
            Some(step) => before.push(step),
            None => before,
        }
    }
}

/// The steps the arrow keys were just pressed for: one press is one step,
/// however long the key stays down.
pub fn keyboard_steps(inputs: &[KeyInput]) -> (steps: Vec<Step>)
    ensures
        steps@ == input_steps(inputs@),
{
    let mut steps: Vec<Step> = Vec::new();
    let mut index: usize = 0;
    proof {
        assert(inputs@.take(0) =~= Seq::empty());
        assert(steps@ =~= input_steps(inputs@.take(0)));
    }
    while index < inputs.len()
        invariant
            index <= inputs@.len(),
            steps@ == input_steps(inputs@.take(index as int)),
        decreases inputs@.len() - index,
    {
        let input = inputs[index];
        proof {
            let longer = inputs@.take(index + 1);
            assert(longer.drop_last() =~= inputs@.take(index as int));
            assert(longer.last() == input);
        }
        if input.pressed && !input.repeat && !input.shift {
            if let Some(step) = step_for(input.key) {
                steps.push(step);
            }
        }
        index += 1;
    }
    proof {
        assert(inputs@.take(index as int) =~= inputs@);
    }
    steps
}

/// Whether any of the number keys from `place` on was just pressed.
pub open spec fn any_from(pressed: Seq<bool>, place: int) -> bool {
    exists|number: int| place <= number < pressed.len() && #[trigger] pressed[number]
}

/// The preset the first pressed number key stands for, given which of the
/// number keys were just pressed. None, while a text field has the keyboard.
pub fn keyboard_preset(typing: bool, pressed: &[bool]) -> (preset: Option<u8>)
    requires
        pressed@.len() == PRESETS,
    ensures
        match preset {
            Some(preset) => {
                &&& !typing
                &&& 1 <= preset <= PRESETS
                &&& pressed@[preset - 1]
                &&& forall|earlier: int| 0 <= earlier < preset - 1 ==> !#[trigger] pressed@[earlier]
            },
            None => typing || forall|number: int|
                0 <= number < PRESETS ==> !#[trigger] pressed@[number],
        },
        preset is None <==> typing || !any_from(pressed@, 0),
{
    if typing {
        return None;
    }
    let mut number: u8 = 0;
    while number < PRESETS
        invariant
            number <= PRESETS,
            pressed@.len() == PRESETS,
            !typing,
            forall|earlier: int| 0 <= earlier < number ==> !#[trigger] pressed@[earlier],
        decreases PRESETS - number,
    {
        if pressed[number as usize] {
            proof {
                assert(pressed@[number as int]);
            }
            return Some(number + 1);
        }
        number += 1;
    }
    None
}

/// Two opposed keys push their control the way of the one that is down, as fast
/// as they were given, and nowhere when both or neither are.
pub proof fn opposed_keys_push_one_way(negative: bool, positive: bool, speed: u8)
    ensures
        opposing(negative, positive, speed) is None <==> negative == positive,
        opposing(negative, positive, speed) matches Some(push) ==> push.positive == positive
            && push.positive != negative && push.speed == speed,
{
}

/// With shift the arrows drive the head the way they point, at the framing
/// pace, and without it they don't drive. The zoom goes in for the keys that
/// tighten and out for those that widen, and the focus farther and nearer for
/// its two, at the framing pace alone and at the fast one with shift.
pub proof fn a_held_key_drives_its_own_way(keys: KeysDown, shift: bool, paces: Paces)
    ensures
        ({
            let drives = key_drives(keys, shift, paces);
            let way = drives.pan_tilt.direction;
            let pace = if shift {
                paces.fast
            } else {
                paces.framing
            };
            let right = shift && keys.arrow_right && !keys.arrow_left;
            let left = shift && keys.arrow_left && !keys.arrow_right;
            let up = shift && keys.arrow_up && !keys.arrow_down;
            let down = shift && keys.arrow_down && !keys.arrow_up;
            &&& (way is Right || way is UpRight || way is DownRight) <==> right
            &&& (way is Left || way is UpLeft || way is DownLeft) <==> left
            &&& (way is Up || way is UpLeft || way is UpRight) <==> up
            &&& (way is Down || way is DownLeft || way is DownRight) <==> down
            &&& right || left ==> drives.pan_tilt.pan_speed == paces.framing.pan
            &&& up || down ==> drives.pan_tilt.tilt_speed == paces.framing.tilt
            &&& !right && !left ==> drives.pan_tilt.pan_speed == 1
            &&& !up && !down ==> drives.pan_tilt.tilt_speed == 1
            &&& (drives.zoom is Some && drives.zoom->Some_0.direction is In) <==> keys.tighter
                && !keys.wider
            &&& (drives.zoom is Some && drives.zoom->Some_0.direction is Out) <==> keys.wider
                && !keys.tighter
            &&& drives.zoom matches Some(drive) ==> drive.speed == pace.zoom
            &&& (drives.focus is Some && drives.focus->Some_0.direction is Far) <==> keys.farther
                && !keys.nearer
            &&& (drives.focus is Some && drives.focus->Some_0.direction is Near) <==> keys.nearer
                && !keys.farther
            &&& drives.focus matches Some(drive) ==> drive.speed == notch_level(pace.focus as int)
        }),
{
}

/// An arrow on its own that has just gone down is one step, one unit the way it
/// points. A repeat, a release, an arrow with shift and any other key are none.
pub proof fn an_arrow_just_pressed_is_one_step(input: KeyInput)
    ensures
        ({
            let step = input_step(input);
            let fresh = input.pressed && !input.repeat && !input.shift;
            let arrow = input.key is ArrowUp || input.key is ArrowDown || input.key is ArrowLeft
                || input.key is ArrowRight;
            &&& step is Some <==> fresh && arrow
            &&& fresh && input.key is ArrowUp ==> step->Some_0.pan == 0 && step->Some_0.tilt == 1
            &&& fresh && input.key is ArrowDown ==> step->Some_0.pan == 0 && step->Some_0.tilt == -1
            &&& fresh && input.key is ArrowLeft ==> step->Some_0.pan == -1 && step->Some_0.tilt == 0
            &&& fresh && input.key is ArrowRight ==> step->Some_0.pan == 1 && step->Some_0.tilt == 0
        }),
        arrow_step(input.key) is Some <==> input.key is ArrowUp || input.key is ArrowDown
            || input.key is ArrowLeft || input.key is ArrowRight,
{
}

/// The steps of a run of key events are those of its parts one after another.
pub proof fn steps_come_in_the_order_pressed(first: Seq<KeyInput>, second: Seq<KeyInput>)
    ensures
        input_steps(first + second) == input_steps(first) + input_steps(second),
        first.len() == 0 ==> input_steps(first).len() == 0,
        first.len() == 1 ==> input_steps(first) == match input_step(first[0]) {
            Some(step) => seq![step],
            None => Seq::empty(),
        },
    decreases second.len(),
{
    if second.len() == 0 {
        assert(first + second =~= first);
        assert(input_steps(first) + input_steps(second) =~= input_steps(first));
    } else {
        steps_come_in_the_order_pressed(first, second.drop_last());
        assert((first + second).drop_last() =~= first + second.drop_last());
        assert(input_steps(first + second) =~= input_steps(first) + input_steps(second));
    }
    if first.len() == 1 {
        reveal_with_fuel(input_steps, 2);
        assert(first.drop_last() =~= Seq::empty());
        assert(input_steps(first) =~= match input_step(first[0]) {
            Some(step) => seq![step],
            None => Seq::empty(),
        });
    }
}

/// Each key is read as the control it is for: the opening bracket, the minus
/// and page down widen, the closing bracket, the equals sign and page up
/// tighten, the comma focuses nearer and the full stop farther.
pub proof fn each_key_is_read_as_its_own<D: Fn(Key) -> bool>(
    down: D,
    keys: KeysDown,
    pressed: spec_fn(Key) -> bool,
)
    requires
        reports(down, keys),
        forall|key: Key, answer: bool| #[trigger]
            call_ensures(down, (key,), answer) ==> answer == pressed(key),
    ensures
        keys.arrow_up == pressed(Key::ArrowUp),
        keys.arrow_down == pressed(Key::ArrowDown),
        keys.arrow_left == pressed(Key::ArrowLeft),
        keys.arrow_right == pressed(Key::ArrowRight),
        keys.wider == (pressed(Key::OpenBracket) || pressed(Key::Minus) || pressed(Key::PageDown)),
        keys.tighter == (pressed(Key::CloseBracket) || pressed(Key::Equals) || pressed(
            Key::PageUp,
        )),
        keys.nearer == pressed(Key::Comma),
        keys.farther == pressed(Key::Period),
{
}

} // verus!
