use viscous::deflection::Push;
use viscous::drives::Drives;
use viscous::focus::FocusDirection;
use viscous::gamepad::{Buttons, Gamepad, Pad, Press};
use viscous::pan_tilt::PanTiltDirection;
use viscous::zoom::ZoomDirection;

/// Where the sticks and triggers are, as fractions of their travel.
#[derive(Clone, Copy, Default)]
struct Sticks {
    left_stick: (f32, f32),
    right_stick: (f32, f32),
    left_trigger: f32,
    right_trigger: f32,
}

fn travel(deflection: f32) -> Option<f32> {
    if deflection.abs() <= 0.1 {
        return None;
    }
    Some(((deflection.abs() - 0.1) / (1.0 - 0.1)).clamp(0.0, 1.0))
}

fn push(deflection: f32, least: u8, most: u8) -> Option<Push> {
    travel(deflection).map(|travel| Push {
        positive: deflection > 0.0,
        speed: least + (travel.powf(4.0) * f32::from(most - least)).round() as u8,
    })
}

fn pad(sticks: Sticks) -> Pad {
    let trigger = sticks.right_trigger - sticks.left_trigger;
    Pad {
        pan: push(sticks.left_stick.0, 1, 12),
        tilt: push(sticks.left_stick.1, 1, 10),
        zoom: push(sticks.right_stick.1, 0, 7),
        focus: travel(trigger).map(|travel| Push {
            positive: trigger > 0.0,
            speed: (travel * 3.0).round() as u8,
        }),
        buttons: Buttons::default(),
    }
}

/// A controller nobody is touching.
fn resting() -> Pad {
    Pad::default()
}

/// What a pad asks for, from rest, with nothing pressed before it.
fn asked_for(pad: Pad) -> (Drives, Vec<Press>) {
    Gamepad::default().update(pad)
}

fn pressing(set: fn(&mut Buttons)) -> Pad {
    let mut pad = resting();
    set(&mut pad.buttons);
    pad
}

#[test]
fn a_controller_nobody_is_touching_asks_for_nothing() {
    let (drives, presses) = asked_for(resting());

    assert_eq!(drives, Drives::stopped());
    assert!(presses.is_empty());
}

#[test]
fn the_left_stick_pans_and_tilts() {
    let right = pad(Sticks {
        left_stick: (1.0, 0.0),
        ..Sticks::default()
    });
    assert_eq!(
        asked_for(right).0.pan_tilt.direction,
        PanTiltDirection::Right
    );

    let up = pad(Sticks {
        left_stick: (0.0, 1.0),
        ..Sticks::default()
    });
    assert_eq!(asked_for(up).0.pan_tilt.direction, PanTiltDirection::Up);
}

#[test]
fn the_right_stick_zooms_tighter_pushed_up_and_wider_pushed_down() {
    let up = pad(Sticks {
        right_stick: (0.0, 1.0),
        ..Sticks::default()
    });
    let down = pad(Sticks {
        right_stick: (0.0, -1.0),
        ..Sticks::default()
    });

    assert_eq!(
        asked_for(up).0.zoom.map(|drive| drive.direction),
        Some(ZoomDirection::In)
    );
    assert_eq!(
        asked_for(down).0.zoom.map(|drive| drive.direction),
        Some(ZoomDirection::Out)
    );
}

#[test]
fn the_triggers_focus_near_and_far() {
    let near = pad(Sticks {
        left_trigger: 1.0,
        ..Sticks::default()
    });
    let far = pad(Sticks {
        right_trigger: 1.0,
        ..Sticks::default()
    });

    assert_eq!(
        asked_for(near).0.focus.map(|drive| drive.direction),
        Some(FocusDirection::Near)
    );
    assert_eq!(
        asked_for(far).0.focus.map(|drive| drive.direction),
        Some(FocusDirection::Far)
    );
}

#[test]
fn both_triggers_at_once_cancel_rather_than_fighting() {
    let both = pad(Sticks {
        left_trigger: 1.0,
        right_trigger: 1.0,
        ..Sticks::default()
    });

    assert_eq!(asked_for(both).0.focus, None);
}

#[test]
fn a_stick_barely_off_centre_asks_for_nothing() {
    let barely = pad(Sticks {
        left_stick: (0.04, -0.03),
        right_stick: (0.0, 0.05),
        ..Sticks::default()
    });
    let (drives, _) = asked_for(barely);

    assert!(drives.pan_tilt.is_stop());
    assert_eq!(drives.zoom, None);
}

#[test]
fn pushing_a_stick_further_asks_for_more_speed() {
    let gentle = pad(Sticks {
        left_stick: (0.4, 0.0),
        ..Sticks::default()
    });
    let firm = pad(Sticks {
        left_stick: (1.0, 0.0),
        ..Sticks::default()
    });

    assert!(asked_for(gentle).0.pan_tilt.pan_speed < asked_for(firm).0.pan_tilt.pan_speed);
}

#[test]
fn each_preset_button_recalls_its_own_preset() {
    let recalled = |set: fn(&mut Buttons)| asked_for(pressing(set)).1;

    assert_eq!(recalled(|b| b.south = true), vec![Press::Recall(1)]);
    assert_eq!(recalled(|b| b.east = true), vec![Press::Recall(2)]);
    assert_eq!(recalled(|b| b.west = true), vec![Press::Recall(3)]);
    assert_eq!(recalled(|b| b.north = true), vec![Press::Recall(4)]);
    assert_eq!(recalled(|b| b.left_bumper = true), vec![Press::Recall(5)]);
    assert_eq!(recalled(|b| b.right_bumper = true), vec![Press::Recall(6)]);
}

#[test]
fn start_turns_a_preset_button_into_a_mark() {
    let both = pressing(|buttons| {
        buttons.start = true;
        buttons.south = true;
    });

    assert_eq!(asked_for(both).1, vec![Press::Mark(1)]);
}

#[test]
fn a_held_preset_button_recalls_once_rather_than_every_frame() {
    let mut gamepad = Gamepad::default();
    let held = pressing(|buttons| buttons.south = true);

    assert_eq!(gamepad.update(held).1, vec![Press::Recall(1)]);
    assert!(
        gamepad.update(held).1.is_empty(),
        "holding it is not asking again"
    );
    assert!(gamepad.update(resting()).1.is_empty(), "nor is letting go");
    assert_eq!(
        gamepad.update(held).1,
        vec![Press::Recall(1)],
        "but pressing it again is"
    );
}

#[test]
fn the_sticks_click_to_do_what_each_stick_is_already_about() {
    assert_eq!(
        asked_for(pressing(|b| b.left_stick = true)).1,
        vec![Press::Home]
    );
    assert_eq!(
        asked_for(pressing(|b| b.right_stick = true)).1,
        vec![Press::ToggleAutoFocus]
    );
}

#[test]
fn power_takes_both_centre_buttons_and_recalls_nothing_on_the_way() {
    let both = pressing(|buttons| {
        buttons.start = true;
        buttons.back = true;
    });

    assert_eq!(asked_for(both).1, vec![Press::TogglePower]);
}

#[test]
fn either_centre_button_alone_does_not_switch_the_camera_off() {
    assert!(!asked_for(pressing(|b| b.start = true))
        .1
        .contains(&Press::TogglePower));
    assert!(!asked_for(pressing(|b| b.back = true))
        .1
        .contains(&Press::TogglePower));
}

#[test]
fn holding_the_power_combo_switches_once() {
    let mut gamepad = Gamepad::default();
    let combo = pressing(|buttons| {
        buttons.start = true;
        buttons.back = true;
    });

    assert_eq!(gamepad.update(combo).1, vec![Press::TogglePower]);
    assert!(
        gamepad.update(combo).1.is_empty(),
        "holding the combo is not asking again"
    );
}

#[test]
fn the_sticks_keep_driving_while_a_button_is_pressed() {
    let mut driving = pad(Sticks {
        left_stick: (1.0, 0.0),
        ..Sticks::default()
    });
    driving.buttons.south = true;
    let (drives, presses) = asked_for(driving);

    assert!(!drives.pan_tilt.is_stop());
    assert_eq!(presses, vec![Press::Recall(1)]);
}

#[test]
fn buttons_pressed_together_come_in_order() {
    let all = pressing(|buttons| {
        buttons.right_stick = true;
        buttons.left_stick = true;
        buttons.right_bumper = true;
        buttons.east = true;
    });

    assert_eq!(
        asked_for(all).1,
        vec![
            Press::Recall(2),
            Press::Recall(6),
            Press::Home,
            Press::ToggleAutoFocus
        ]
    );
}

#[test]
fn letting_go_of_one_button_presses_nothing_while_others_stay_down() {
    let mut gamepad = Gamepad::default();
    gamepad.update(pressing(|buttons| {
        buttons.start = true;
        buttons.south = true;
        buttons.left_stick = true;
    }));

    let eased = pressing(|buttons| {
        buttons.south = true;
        buttons.left_stick = true;
    });
    assert!(gamepad.update(eased).1.is_empty());
    let eased = pressing(|buttons| buttons.left_stick = true);
    assert!(gamepad.update(eased).1.is_empty());
}
