use viscous::deflection::Push;
use viscous::drives::Drives;
use viscous::focus::{FocusDirection, FocusDrive};
use viscous::keymap::{map_key, Action, Hold, KeyCode, KeyEvent, KeyEventKind, Pace, Paces};
use viscous::keys::Key;
use viscous::nudge::Step;
use viscous::pan_tilt::{velocity_from_axes, PanTiltDirection, Velocity};
use viscous::taps::{Arrows, HOLD};
use viscous::window_keys::{
    held_drives, keyboard_preset, keyboard_steps, step_for, KeyInput, KeysDown,
};
use viscous::worker::Intent;
use viscous::zoom::{ZoomDirection, ZoomDrive};

/// The paces of a key at just over a third of a control's travel and at all
/// of it.
fn paces() -> Paces {
    Paces {
        framing: Pace {
            pan: 1,
            tilt: 1,
            zoom: 0,
            focus: 1,
        },
        fast: Pace {
            pan: 12,
            tilt: 10,
            zoom: 7,
            focus: 3,
        },
    }
}

fn press(code: KeyCode, shift: bool) -> KeyEvent {
    KeyEvent {
        code,
        shift,
        control: false,
        kind: KeyEventKind::Press,
    }
}

fn mapped(code: KeyCode) -> Option<Action> {
    map_key(press(code, false), paces())
}

fn held_velocity(code: KeyCode, shift: bool) -> Velocity {
    match map_key(press(code, shift), paces()) {
        Some(Action::Hold(Hold::PanTilt(velocity))) => velocity,
        other => panic!("expected a pan/tilt hold, got {other:?}"),
    }
}

#[test]
fn arrows_hold_a_drive_in_their_own_direction() {
    assert_eq!(
        held_velocity(KeyCode::Up, false).direction,
        PanTiltDirection::Up
    );
    assert_eq!(
        held_velocity(KeyCode::Down, false).direction,
        PanTiltDirection::Down
    );
    assert_eq!(
        held_velocity(KeyCode::Left, false).direction,
        PanTiltDirection::Left
    );
    assert_eq!(
        held_velocity(KeyCode::Right, false).direction,
        PanTiltDirection::Right
    );
}

#[test]
fn shift_drives_the_same_direction_faster() {
    let normal = held_velocity(KeyCode::Right, false);
    let fast = held_velocity(KeyCode::Right, true);
    assert_eq!(normal.direction, fast.direction);
    assert!(
        fast.pan_speed > normal.pan_speed,
        "shift should ask for a faster pan ({} vs {})",
        fast.pan_speed,
        normal.pan_speed
    );
}

#[test]
fn an_unmodified_arrow_drives_slowly_enough_to_frame_with() {
    let normal = held_velocity(KeyCode::Right, false);
    let fast = held_velocity(KeyCode::Right, true);
    assert!(
        normal.pan_speed < fast.pan_speed / 2,
        "the plain key should be well under half speed, not a notch off the top"
    );
}

/// Which way a key drives zoom, and how fast.
fn zoom_drive(code: KeyCode) -> ZoomDrive {
    match mapped(code) {
        Some(Action::Hold(Hold::Zoom(drive))) => drive,
        other => panic!("expected a zoom hold, got {other:?}"),
    }
}

/// The same, for focus.
fn focus_drive(code: KeyCode) -> FocusDrive {
    match mapped(code) {
        Some(Action::Hold(Hold::Focus(drive))) => drive,
        other => panic!("expected a focus hold, got {other:?}"),
    }
}

#[test]
fn both_zoom_key_pairs_map_to_the_same_actions() {
    assert_eq!(mapped(KeyCode::Char('[')), mapped(KeyCode::Char('-')));
    assert_eq!(mapped(KeyCode::Char(']')), mapped(KeyCode::Char('=')));
}

#[test]
fn zoom_and_focus_keys_hold_their_own_direction() {
    assert_eq!(zoom_drive(KeyCode::Char(']')).direction, ZoomDirection::In);
    assert_eq!(zoom_drive(KeyCode::Char('[')).direction, ZoomDirection::Out);
    assert_eq!(
        focus_drive(KeyCode::Char(',')).direction,
        FocusDirection::Near
    );
    assert_eq!(
        focus_drive(KeyCode::Char('.')).direction,
        FocusDirection::Far
    );
}

#[test]
fn the_shifted_punctuation_drives_the_same_way_faster() {
    // Deliberately no shift: many terminals fold shift into the character for
    // punctuation and don't also set the modifier bit.
    let (near, fast_near) = (
        focus_drive(KeyCode::Char(',')),
        focus_drive(KeyCode::Char('<')),
    );
    let (wide, fast_wide) = (
        zoom_drive(KeyCode::Char('[')),
        zoom_drive(KeyCode::Char('{')),
    );

    assert_eq!(fast_near.direction, near.direction);
    assert_eq!(fast_wide.direction, wide.direction);
    assert_ne!(fast_near.speed, near.speed);
    assert_ne!(fast_wide.speed, wide.speed);
    assert_eq!(
        zoom_drive(KeyCode::Char('_')),
        zoom_drive(KeyCode::Char('{'))
    );
}

#[test]
fn the_other_shifted_punctuation_goes_the_other_way() {
    assert_eq!(
        zoom_drive(KeyCode::Char('+')),
        zoom_drive(KeyCode::Char('}'))
    );
    assert_eq!(zoom_drive(KeyCode::Char('}')).speed, 7);
    assert_eq!(
        focus_drive(KeyCode::Char('>')).direction,
        FocusDirection::Far
    );
}

#[test]
fn a_hold_starts_and_stops_the_control_it_drives() {
    let drive = zoom_drive(KeyCode::Char(']'));
    let hold = Hold::Zoom(drive);

    assert_eq!(hold.start(), Intent::DriveZoom(Some(drive)));
    assert_eq!(hold.stop(), Intent::DriveZoom(None));
}

#[test]
fn holds_on_the_same_control_share_a_stop_and_holds_on_others_do_not() {
    let tilt = |positive| {
        Hold::PanTilt(velocity_from_axes(
            None,
            Some(Push {
                positive,
                speed: 10,
            }),
        ))
    };
    let up = tilt(true);
    let down = tilt(false);
    let zoom = Hold::Zoom(zoom_drive(KeyCode::Char(']')));
    let focus = Hold::Focus(focus_drive(KeyCode::Char('.')));

    assert_eq!(up.stop(), down.stop());
    assert_ne!(up.stop(), zoom.stop());
    assert_ne!(zoom.stop(), focus.stop());
}

#[test]
fn digit_keys_recall_matching_preset() {
    assert_eq!(
        mapped(KeyCode::Char('3')),
        Some(Action::Camera(Intent::RecallPreset(3)))
    );
}

#[test]
fn only_six_digits_are_presets() {
    assert_eq!(
        mapped(KeyCode::Char('1')),
        Some(Action::Camera(Intent::RecallPreset(1)))
    );
    assert_eq!(
        mapped(KeyCode::Char('6')),
        Some(Action::Camera(Intent::RecallPreset(6)))
    );
    assert_eq!(mapped(KeyCode::Char('0')), None);
    assert_eq!(mapped(KeyCode::Char('7')), None);
}

#[test]
fn f_switches_between_focusing_modes() {
    assert_eq!(mapped(KeyCode::Char('f')), Some(Action::ToggleAutoFocus));
}

#[test]
fn p_switches_the_power() {
    assert_eq!(mapped(KeyCode::Char('p')), Some(Action::TogglePower));
}

#[test]
fn q_quits() {
    assert_eq!(mapped(KeyCode::Char('q')), Some(Action::Quit));
}

#[test]
fn ctrl_d_quits() {
    let ctrl_d = KeyEvent {
        control: true,
        ..press(KeyCode::Char('d'), false)
    };
    assert_eq!(map_key(ctrl_d, paces()), Some(Action::Quit));
}

#[test]
fn plain_d_is_unbound() {
    assert_eq!(mapped(KeyCode::Char('d')), None);
}

#[test]
fn unbound_key_maps_to_nothing() {
    assert_eq!(mapped(KeyCode::Char('z')), None);
    assert_eq!(mapped(KeyCode::Other), None);
}

#[test]
fn a_key_means_the_same_whichever_way_it_is_reported() {
    for kind in [
        KeyEventKind::Press,
        KeyEventKind::Repeat,
        KeyEventKind::Release,
    ] {
        let event = KeyEvent {
            kind,
            ..press(KeyCode::Char('['), false)
        };
        assert_eq!(map_key(event, paces()), mapped(KeyCode::Char('[')));
    }
}

/// The steps that come of holding the right arrow down for `held`.
fn tap_for(held: u64) -> Vec<PanTiltDirection> {
    let mut arrows = Arrows::default();
    let down = 1_000;

    arrows.update(|key| key == Key::ArrowRight, down);
    arrows.update(|_| false, down + held)
}

#[test]
fn a_key_let_go_of_quickly_is_a_step() {
    assert_eq!(tap_for(HOLD / 2), vec![PanTiltDirection::Right]);
}

#[test]
fn a_key_held_and_then_released_has_already_driven_and_does_not_also_step() {
    assert!(
        tap_for(HOLD * 2).is_empty(),
        "a hold that ends is a drive ending, not a step starting"
    );
    assert!(tap_for(HOLD).is_empty(), "the threshold itself is a hold");
}

#[test]
fn a_key_only_just_pressed_is_not_yet_driving() {
    let mut arrows = Arrows::default();

    arrows.update(|key| key == Key::ArrowRight, 0);

    assert!(
        !arrows.driving(Key::ArrowRight),
        "a press that might still turn out to be a tap must not drive"
    );
}

#[test]
fn a_key_held_past_the_threshold_drives() {
    let mut arrows = Arrows::default();
    let down = 5;

    arrows.update(|key| key == Key::ArrowRight, down);
    let steps = arrows.update(|key| key == Key::ArrowRight, down + HOLD);

    assert!(arrows.driving(Key::ArrowRight));
    assert!(!arrows.driving(Key::ArrowLeft));
    assert!(steps.is_empty(), "a key still down has not stepped");
}

#[test]
fn a_keyboard_with_no_hold_at_all_drives_from_the_first_frame() {
    let mut arrows = Arrows::new(0);

    arrows.update(|key| key == Key::ArrowRight, 9);

    assert!(arrows.driving(Key::ArrowRight));
}

#[test]
fn two_arrows_tapped_together_step_both_ways() {
    let mut arrows = Arrows::default();
    let down = 0;

    arrows.update(|key| key == Key::ArrowRight || key == Key::ArrowUp, down);
    let steps = arrows.update(|_| false, down + HOLD / 2);

    assert_eq!(steps.len(), 2);
    assert!(steps.contains(&PanTiltDirection::Right));
    assert!(steps.contains(&PanTiltDirection::Up));
}

#[test]
fn each_arrow_steps_the_way_it_points() {
    for (key, direction) in [
        (Key::ArrowUp, PanTiltDirection::Up),
        (Key::ArrowDown, PanTiltDirection::Down),
        (Key::ArrowLeft, PanTiltDirection::Left),
        (Key::ArrowRight, PanTiltDirection::Right),
    ] {
        let mut arrows = Arrows::default();
        let down = 0;

        arrows.update(|pressed| pressed == key, down);

        assert_eq!(arrows.update(|_| false, down + HOLD / 2), vec![direction]);
    }
}

#[test]
fn a_key_the_camera_stopped_listening_to_does_not_step_when_it_comes_up() {
    let mut arrows = Arrows::default();
    let down = 0;

    arrows.update(|key| key == Key::ArrowRight, down);
    arrows.forget();

    assert!(
        arrows.update(|_| false, down + HOLD / 2).is_empty(),
        "a key that stopped being the camera's mid-press shouldn't step"
    );
}

#[test]
fn the_arrows_are_the_keys_this_owns_and_nothing_else() {
    assert!(Arrows::owns(Key::ArrowLeft));
    assert!(!Arrows::owns(Key::Comma));
}

/// The drives asked for while exactly `keys` is down.
fn held(keys: &[Key]) -> Drives {
    held_drives(KeysDown::read(|key| keys.contains(&key)), false, paces())
}

/// The drives asked for while exactly `keys` is down with shift.
fn shifted(keys: &[Key]) -> Drives {
    held_drives(KeysDown::read(|key| keys.contains(&key)), true, paces())
}

fn framing(positive: bool) -> Option<Push> {
    Some(Push { positive, speed: 1 })
}

#[test]
fn shift_and_the_arrow_keys_drive_pan_and_tilt() {
    assert_eq!(
        shifted(&[Key::ArrowUp]).pan_tilt,
        velocity_from_axes(None, framing(true))
    );
    assert_eq!(
        shifted(&[Key::ArrowLeft, Key::ArrowDown]).pan_tilt,
        velocity_from_axes(framing(false), framing(false))
    );
}

#[test]
fn an_arrow_key_on_its_own_drives_nothing() {
    assert!(held(&[Key::ArrowUp]).pan_tilt.is_stop());
    assert!(held(&[Key::ArrowLeft, Key::ArrowDown]).pan_tilt.is_stop());
}

#[test]
fn shift_drives_zoom_and_focus_at_the_speed_the_camera_is_capable_of() {
    let fast = shifted(&[Key::CloseBracket]);

    assert_eq!(
        fast.zoom,
        ZoomDrive::from_deflection(Some(Push {
            positive: true,
            speed: 7
        }))
    );
    assert!(fast.zoom.unwrap().speed > held(&[Key::CloseBracket]).zoom.unwrap().speed);
}

#[test]
fn opposed_keys_cancel_rather_than_pick_one() {
    let both = held(&[Key::ArrowLeft, Key::ArrowRight, Key::Comma, Key::Period]);

    assert_eq!(both, Drives::stopped());
}

/// Which way a set of held keys drives zoom, and which way focus.
fn zoom_way(keys: &[Key]) -> Option<ZoomDirection> {
    held(keys).zoom.map(|drive| drive.direction)
}

fn focus_way(keys: &[Key]) -> Option<FocusDirection> {
    held(keys).focus.map(|drive| drive.direction)
}

#[test]
fn the_zoom_and_focus_keys_drive_those() {
    assert_eq!(zoom_way(&[Key::CloseBracket]), Some(ZoomDirection::In));
    assert_eq!(zoom_way(&[Key::Minus]), Some(ZoomDirection::Out));
    assert_eq!(zoom_way(&[Key::PageUp]), Some(ZoomDirection::In));
    assert_eq!(zoom_way(&[Key::PageDown]), Some(ZoomDirection::Out));
    assert_eq!(focus_way(&[Key::Comma]), Some(FocusDirection::Near));
    assert_eq!(focus_way(&[Key::Period]), Some(FocusDirection::Far));
}

#[test]
fn every_zoom_key_has_its_opposite() {
    assert_eq!(zoom_way(&[Key::OpenBracket]), Some(ZoomDirection::Out));
    assert_eq!(zoom_way(&[Key::Equals]), Some(ZoomDirection::In));
    assert_eq!(zoom_way(&[Key::OpenBracket, Key::PageUp]), None);
}

#[test]
fn shift_drives_zoom_and_focus_faster_as_it_does_the_pan() {
    let slow = held(&[Key::CloseBracket]).zoom.expect("a held key drives");
    let fast = shifted(&[Key::CloseBracket])
        .zoom
        .expect("a held key drives");

    assert_eq!(fast.direction, slow.direction);
    assert_ne!(fast.speed, slow.speed);
}

fn dragging() -> Drives {
    Drives {
        pan_tilt: velocity_from_axes(
            Some(Push {
                positive: true,
                speed: 12,
            }),
            None,
        ),
        ..Drives::stopped()
    }
}

#[test]
fn a_drag_and_a_held_key_drive_different_controls_at_once() {
    let both = dragging().or(held(&[Key::PageUp]));

    assert_eq!(both.pan_tilt, dragging().pan_tilt);
    assert_eq!(
        both.zoom.map(|drive| drive.direction),
        Some(ZoomDirection::In)
    );
}

#[test]
fn the_pointer_wins_the_control_it_shares_with_the_keyboard() {
    assert_eq!(
        dragging().or(shifted(&[Key::ArrowLeft])).pan_tilt,
        dragging().pan_tilt
    );
}

fn input(key: Key) -> KeyInput {
    KeyInput {
        key,
        pressed: true,
        repeat: false,
        shift: false,
    }
}

#[test]
fn one_press_of_an_arrow_is_one_step() {
    let inputs = [
        input(Key::ArrowRight),
        KeyInput {
            repeat: true,
            ..input(Key::ArrowRight)
        },
        KeyInput {
            pressed: false,
            ..input(Key::ArrowRight)
        },
        KeyInput {
            shift: true,
            ..input(Key::ArrowUp)
        },
        input(Key::Comma),
        input(Key::ArrowDown),
    ];

    assert_eq!(
        keyboard_steps(&inputs),
        vec![
            Step::towards(PanTiltDirection::Right),
            Step::towards(PanTiltDirection::Down)
        ]
    );
    assert_eq!(
        step_for(Key::ArrowLeft),
        Some(Step::towards(PanTiltDirection::Left))
    );
    assert_eq!(step_for(Key::F), None);
}

#[test]
fn the_first_number_key_wins() {
    let pressed = [false, false, true, false, true, false];
    assert_eq!(keyboard_preset(false, &pressed), Some(3));
    assert_eq!(keyboard_preset(true, &pressed), None);
    assert_eq!(keyboard_preset(false, &[false; 6]), None);
}

#[test]
fn holding_an_arrow_key_down_steps_once_rather_than_walking_away() {
    let mut steps = keyboard_steps(&[input(Key::ArrowRight)]);
    for _ in 0..5 {
        steps.extend(keyboard_steps(&[KeyInput {
            repeat: true,
            ..input(Key::ArrowRight)
        }]));
    }

    assert_eq!(steps, vec![Step::towards(PanTiltDirection::Right)]);
}
