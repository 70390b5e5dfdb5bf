use std::cell::Cell;

use viscous::deflection::Push;
use viscous::drive::timed_drive;
use viscous::drives::Drives;
use viscous::error::Error;
use viscous::focus::{drive_focus, set_auto_focus, FocusCommand, FocusDirection, FocusDrive};
use viscous::nudge::{nudge, twos_complement, RelativeMove, Step, STEP_SPEED, STEP_UNITS};
use viscous::pan_tilt::{
    drive, velocity_from_axes, PanTiltDirection, Velocity, MAX_PAN_SPEED, MAX_TILT_SPEED,
    MIN_SPEED, TOP_PAN_SPEED, TOP_TILT_SPEED,
};
use viscous::power::{set_power, PowerCommand, PowerOn};
use viscous::preset::{preset_number, recall_preset, save_preset, PresetCommand};
use viscous::rocker::{self, SpeedLevel, LAST_NOTCH};
use viscous::shot::{go_to, nibbles, AbsolutePosition, Travel};
use viscous::state::Position;
use viscous::zoom::{drive_zoom, ZoomCommand, ZoomDirection, ZoomDrive, MAX_ZOOM_SPEED};

/// How far the controls below have to be pushed before they drive at all. What
/// a fraction of a control's travel comes to is settled where it is read; these
/// stand in for that.
const DEADZONE: f32 = 0.1;

fn travel(magnitude: f32) -> Option<f32> {
    if magnitude <= DEADZONE {
        return None;
    }
    Some(((magnitude - DEADZONE) / (1.0 - DEADZONE)).clamp(0.0, 1.0))
}

/// The push that a control read as a fraction of its travel amounts to.
fn push(deflection: f32, least: u8, most: u8) -> Option<Push> {
    let span = f32::from(most - least);
    travel(deflection.abs()).map(|travel| Push {
        positive: deflection > 0.0,
        speed: least + (travel.powf(4.0) * span).round() as u8,
    })
}

fn notch(deflection: f32) -> Option<Push> {
    travel(deflection.abs()).map(|travel| Push {
        positive: deflection > 0.0,
        speed: (travel * f32::from(LAST_NOTCH)).round() as u8,
    })
}

fn axes(pan: f32, tilt: f32) -> Velocity {
    velocity_from_axes(
        push(pan, MIN_SPEED, TOP_PAN_SPEED),
        push(tilt, MIN_SPEED, TOP_TILT_SPEED),
    )
}

fn zoom_push(deflection: f32) -> Option<ZoomDrive> {
    ZoomDrive::from_deflection(push(deflection, 0, MAX_ZOOM_SPEED))
}

fn focus_push(deflection: f32) -> Option<FocusDrive> {
    FocusDrive::from_deflection(notch(deflection))
}

#[test]
fn a_centered_control_stops() {
    assert_eq!(axes(0.0, 0.0), Velocity::stop());
    assert!(Velocity::stop().is_stop());
}

#[test]
fn a_single_axis_drives_a_cardinal_direction() {
    assert_eq!(axes(1.0, 0.0).direction, PanTiltDirection::Right);
    assert_eq!(axes(-1.0, 0.0).direction, PanTiltDirection::Left);
    assert_eq!(axes(0.0, 1.0).direction, PanTiltDirection::Up);
    assert_eq!(axes(0.0, -1.0).direction, PanTiltDirection::Down);
}

#[test]
fn both_axes_drive_a_diagonal() {
    assert_eq!(axes(1.0, 1.0).direction, PanTiltDirection::UpRight);
    assert_eq!(axes(1.0, -1.0).direction, PanTiltDirection::DownRight);
    assert_eq!(axes(-1.0, 1.0).direction, PanTiltDirection::UpLeft);
    assert_eq!(axes(-1.0, -1.0).direction, PanTiltDirection::DownLeft);
}

#[test]
fn full_deflection_asks_for_the_top_speed_of_each_axis() {
    let velocity = axes(1.0, 1.0);
    assert_eq!(velocity.pan_speed, TOP_PAN_SPEED);
    assert_eq!(velocity.tilt_speed, TOP_TILT_SPEED);
}

#[test]
fn the_fastest_a_control_asks_for_is_well_short_of_what_the_camera_can_do() {
    assert!(
        TOP_PAN_SPEED <= MAX_PAN_SPEED / 2,
        "pushing the pad flat out asked for {} of the camera's {MAX_PAN_SPEED}",
        TOP_PAN_SPEED
    );
    assert!(
        TOP_TILT_SPEED <= MAX_TILT_SPEED / 2,
        "pushing the pad flat out asked for {} of the camera's {MAX_TILT_SPEED}",
        TOP_TILT_SPEED
    );
}

#[test]
fn each_axis_takes_its_own_way_and_speed() {
    let push = |positive, speed| Some(Push { positive, speed });
    assert_eq!(
        velocity_from_axes(push(false, 5), push(true, 10)),
        Velocity {
            direction: PanTiltDirection::UpLeft,
            pan_speed: 5,
            tilt_speed: 10,
        }
    );
    assert_eq!(
        velocity_from_axes(push(true, TOP_PAN_SPEED), None),
        Velocity {
            direction: PanTiltDirection::Right,
            pan_speed: TOP_PAN_SPEED,
            tilt_speed: MIN_SPEED,
        }
    );
}

#[test]
fn the_axes_scale_independently_so_diagonals_are_not_fixed_at_45_degrees() {
    let velocity = axes(1.0, 0.2);
    assert_eq!(velocity.pan_speed, TOP_PAN_SPEED);
    assert!(
        velocity.tilt_speed < TOP_TILT_SPEED / 2,
        "tilt should stay slow when the control is barely deflected up"
    );
}

#[test]
fn an_unused_axis_still_carries_a_speed_the_camera_will_accept() {
    assert!(axes(0.0, 1.0).pan_speed >= MIN_SPEED);
}

#[test]
fn a_signed_speed_is_held_to_what_the_camera_has() {
    let velocity = Velocity::from_signed(-7, 3);
    assert_eq!(velocity.direction, PanTiltDirection::UpLeft);
    assert_eq!((velocity.pan_speed, velocity.tilt_speed), (7, 3));

    let fast = Velocity::from_signed(i32::MAX, i32::MIN);
    assert_eq!(fast.direction, PanTiltDirection::DownRight);
    assert_eq!(
        (fast.pan_speed, fast.tilt_speed),
        (MAX_PAN_SPEED, MAX_TILT_SPEED)
    );

    assert_eq!(Velocity::from_signed(0, 0), Velocity::stop());
}

#[test]
fn a_drive_the_camera_takes_goes_out_as_it_is() {
    assert!(matches!(drive(axes(1.0, 1.0)), Ok(sent) if sent == axes(1.0, 1.0)));
    assert!(matches!(drive(Velocity::stop()), Ok(sent) if sent.is_stop()));
}

#[test]
fn drive_reports_an_out_of_range_speed_rather_than_sending_it() {
    let too_fast = Velocity {
        pan_speed: MAX_PAN_SPEED + 1,
        ..axes(1.0, 0.0)
    };
    assert!(drive(too_fast).is_err());
}

#[test]
fn a_refused_speed_is_named() {
    let refused = drive(Velocity {
        pan_speed: 25,
        tilt_speed: 21,
        ..Velocity::stop()
    });
    assert!(matches!(
        refused,
        Err(Error::ParameterOutOfRange { parameter: "PanSpeed", value: 25, min: 0, max: 24 })
    ));

    let refused = drive(Velocity {
        tilt_speed: 21,
        ..Velocity::stop()
    });
    assert!(matches!(
        refused,
        Err(Error::ParameterOutOfRange { parameter: "TiltSpeed", value: 21, min: 0, max: 20 })
    ));
}

#[test]
fn a_rocker_at_rest_asks_for_no_zoom_and_either_way_off_centre_zooms() {
    assert_eq!(zoom_push(0.0), None);
    assert_eq!(
        zoom_push(1.0).map(|drive| drive.direction),
        Some(ZoomDirection::In)
    );
    assert_eq!(
        zoom_push(-1.0).map(|drive| drive.direction),
        Some(ZoomDirection::Out)
    );
}

#[test]
fn a_zoom_drive_is_a_command_with_its_speed() {
    let drive = |direction| Some(ZoomDrive { direction, speed: 4 });
    assert!(matches!(drive_zoom(drive(ZoomDirection::In)), Ok(ZoomCommand::Tele(4))));
    assert!(matches!(drive_zoom(drive(ZoomDirection::Out)), Ok(ZoomCommand::Wide(4))));
    assert!(matches!(drive_zoom(None), Ok(ZoomCommand::Stop)));
}

#[test]
fn a_zoom_the_camera_has_no_speed_for_is_refused_by_name() {
    let drive = |speed| {
        drive_zoom(Some(ZoomDrive {
            direction: ZoomDirection::In,
            speed,
        }))
    };
    assert!(matches!(drive(MAX_ZOOM_SPEED), Ok(ZoomCommand::Tele(7))));
    assert!(matches!(
        drive(MAX_ZOOM_SPEED + 1),
        Err(Error::ParameterOutOfRange { parameter: "ZoomSpeed", value: 8, min: 0, max: 7 })
    ));
}

#[test]
fn a_rocker_at_rest_asks_for_no_focus_and_either_way_off_centre_focuses() {
    assert_eq!(focus_push(0.0), None);
    assert_eq!(
        focus_push(1.0).map(|drive| drive.direction),
        Some(FocusDirection::Far)
    );
    assert_eq!(
        focus_push(-1.0).map(|drive| drive.direction),
        Some(FocusDirection::Near)
    );
}

#[test]
fn pushing_the_rocker_further_focuses_faster() {
    let nudged = focus_push(0.2).expect("past the deadzone should drive");
    let pushed = focus_push(1.0).expect("past the deadzone should drive");

    assert_ne!(nudged.speed, pushed.speed);
}

#[test]
fn a_focus_drive_is_a_command_with_its_level() {
    let drive = |direction, speed| drive_focus(Some(FocusDrive { direction, speed }));
    assert_eq!(
        drive(FocusDirection::Near, SpeedLevel::Slow),
        FocusCommand::Near(SpeedLevel::Slow)
    );
    assert_eq!(
        drive(FocusDirection::Far, SpeedLevel::Fastest),
        FocusCommand::Far(SpeedLevel::Fastest)
    );
    assert_eq!(drive_focus(None), FocusCommand::Stop);
    assert_eq!(set_auto_focus(true), FocusCommand::Auto);
    assert_eq!(set_auto_focus(false), FocusCommand::Manual);
}

fn rocker_speed(magnitude: f32) -> Option<SpeedLevel> {
    rocker::speed(notch(magnitude).map(|push| push.speed))
}

#[test]
fn a_rocker_at_rest_asks_for_nothing() {
    assert_eq!(rocker_speed(0.0), None);
    assert_eq!(rocker_speed(DEADZONE), None);
}

#[test]
fn pushing_further_asks_for_more_speed() {
    let nudged = rocker_speed(0.2).expect("past the deadzone should drive");
    let pushed = rocker_speed(0.6).expect("past the deadzone should drive");

    assert_eq!(rocker_speed(1.0), Some(SpeedLevel::Fastest));
    assert_ne!(nudged, pushed);
    assert_ne!(pushed, SpeedLevel::Fastest);
}

#[test]
fn no_notch_of_the_rocker_stands_still() {
    // From the first notch past the deadzone to the end of the travel.
    for step in 2..=10 {
        let magnitude = step as f32 / 10.0;
        let level = rocker_speed(magnitude).expect("past the deadzone should drive");
        assert_ne!(level, SpeedLevel::Slowest, "at {magnitude} of full push");
    }
}

#[test]
fn rocker_a_push_past_the_end_is_no_faster_than_the_end() {
    assert_eq!(rocker_speed(2.0), rocker_speed(1.0));
    assert_eq!(rocker::speed(Some(200)), rocker::speed(Some(LAST_NOTCH)));
}

fn panning() -> Drives {
    Drives {
        pan_tilt: axes(1.0, 0.0),
        ..Drives::stopped()
    }
}

fn zooming() -> Drives {
    Drives {
        zoom: zoom_push(1.0),
        ..Drives::stopped()
    }
}

#[test]
fn nothing_asked_for_leaves_every_control_at_rest() {
    assert!(Drives::stopped().pan_tilt.is_stop());
    assert_eq!(Drives::stopped().zoom, None);
    assert_eq!(Drives::stopped().focus, None);
}

#[test]
fn two_surfaces_driving_different_controls_both_get_through() {
    let both = panning().or(zooming());

    assert!(!both.pan_tilt.is_stop(), "the pan should survive");
    assert!(both.zoom.is_some(), "and so should the zoom");
}

#[test]
fn the_first_surface_wins_a_control_they_both_ask_for() {
    let left = Drives {
        pan_tilt: axes(-1.0, 0.0),
        ..Drives::stopped()
    };

    assert_eq!(panning().or(left).pan_tilt, panning().pan_tilt);
}

#[test]
fn a_surface_asking_for_nothing_yields_to_one_that_is() {
    assert_eq!(Drives::stopped().or(panning()), panning());
}

#[test]
fn three_surfaces_come_to_the_same_however_they_are_joined() {
    let focusing = Drives {
        focus: focus_push(-1.0),
        ..Drives::stopped()
    };
    assert_eq!(
        panning().or(zooming()).or(focusing),
        panning().or(zooming().or(focusing))
    );
}

#[test]
fn steps_the_same_way_add_up_into_one_longer_move() {
    let three = Step::towards(PanTiltDirection::Right)
        + Step::towards(PanTiltDirection::Right)
        + Step::towards(PanTiltDirection::Right);

    assert_eq!(three.pan, 3 * STEP_UNITS);
    assert_eq!(three.direction(), PanTiltDirection::Right);
}

#[test]
fn steps_that_undo_each_other_come_to_nothing() {
    let there_and_back =
        Step::towards(PanTiltDirection::Right) + Step::towards(PanTiltDirection::Left);

    assert!(there_and_back.is_still());
}

#[test]
fn steps_on_different_axes_make_a_diagonal() {
    let corner = Step::towards(PanTiltDirection::Right) + Step::towards(PanTiltDirection::Up);

    assert_eq!(corner, Step::towards(PanTiltDirection::UpRight));
    assert_eq!(corner.direction(), PanTiltDirection::UpRight);
}

#[test]
fn a_diagonal_step_moves_both_axes() {
    assert_eq!(
        Step::towards(PanTiltDirection::UpRight),
        Step {
            pan: STEP_UNITS,
            tilt: STEP_UNITS
        }
    );
    assert_eq!(
        Step::towards(PanTiltDirection::DownLeft),
        Step {
            pan: -STEP_UNITS,
            tilt: -STEP_UNITS
        }
    );
}

#[test]
fn every_direction_names_itself_again_from_its_offsets() {
    for direction in [
        PanTiltDirection::Up,
        PanTiltDirection::Down,
        PanTiltDirection::Left,
        PanTiltDirection::Right,
        PanTiltDirection::UpLeft,
        PanTiltDirection::UpRight,
        PanTiltDirection::DownLeft,
        PanTiltDirection::DownRight,
    ] {
        assert_eq!(Step::towards(direction).direction(), direction);
    }
}

#[test]
fn a_step_is_as_small_as_the_camera_can_be_asked_for() {
    assert_eq!(STEP_UNITS, 1);
    assert_eq!(STEP_SPEED, 1);
}

#[test]
fn a_step_past_the_end_of_an_axis_stays_there() {
    let far = Step {
        pan: i16::MAX,
        tilt: i16::MIN,
    };
    assert_eq!(far + Step::towards(PanTiltDirection::DownRight), far);
    assert_eq!(Step::towards(PanTiltDirection::DownRight) + far, far);
    assert_eq!(far + Step::still(), far);
    assert_eq!(Step::default(), Step::still());
}

#[test]
fn a_step_is_a_move_in_twos_complement() {
    let left = nudge(Step::towards(PanTiltDirection::Left));
    assert!(matches!(
        left,
        Ok(Some(RelativeMove { pan: 0xFFFF, tilt: 0, pan_speed: 1, tilt_speed: 1 }))
    ));
    assert!(matches!(nudge(Step::still()), Ok(None)));
    assert_eq!(twos_complement(-32768), 0x8000);
    assert_eq!(twos_complement(32767), 0x7FFF);
}

#[test]
fn preset_number_converts_from_one_based_display() {
    assert_eq!(preset_number(1).unwrap(), 0);
    assert_eq!(preset_number(6).unwrap(), 5);
}

#[test]
fn preset_number_rejects_zero() {
    assert!(matches!(
        preset_number(0),
        Err(Error::ParameterOutOfRange {
            value: 0,
            min: 1,
            ..
        })
    ));
}

#[test]
fn a_preset_is_recalled_and_saved_by_the_cameras_own_number() {
    assert!(matches!(recall_preset(3), Ok(PresetCommand::Recall(2))));
    assert!(matches!(save_preset(255), Ok(PresetCommand::Save(254))));
    assert!(recall_preset(0).is_err());
    assert!(save_preset(0).is_err());
}

#[test]
fn waking_up_is_a_message_of_its_own() {
    assert_eq!(set_power(true), PowerCommand::On(PowerOn));
    assert_eq!(set_power(false), PowerCommand::Off);

    let mut buffer = [0; 6];
    assert!(matches!(PowerOn.write_into(3, &mut buffer), Ok(6)));
    assert_eq!(buffer, [0x83, 0x01, 0x04, 0x00, 0x02, 0xFF]);
    let mut short = [0; 5];
    assert!(matches!(
        PowerOn.write_into(1, &mut short),
        Err(Error::BufferTooSmall {
            required: 6,
            actual: 5
        })
    ));
}

fn somewhere() -> Position {
    Position {
        pan: 0x0123,
        tilt: 0x0456,
        zoom: 0x1000,
        focus: 0x2000,
    }
}

#[test]
fn a_shot_is_a_position_at_two_speeds() {
    let command = go_to(
        somewhere(),
        Travel {
            pan_speed: 24,
            tilt_speed: 20,
        },
    )
    .expect("the fastest speeds are accepted");
    assert_eq!(
        command,
        AbsolutePosition {
            position: somewhere(),
            pan_speed: 24,
            tilt_speed: 20
        }
    );
    let refused = go_to(
        somewhere(),
        Travel {
            pan_speed: 1,
            tilt_speed: 21,
        },
    );
    assert!(matches!(
        refused,
        Err(Error::ParameterOutOfRange { parameter: "TiltSpeed", value: 21, .. })
    ));

    let mut short = [7; 14];
    assert!(command.write_into(1, &mut short).is_err());
    assert_eq!(short, [7; 14]);
}

#[test]
fn four_nibbles_carry_a_number() {
    assert_eq!(nibbles(0x1234), [1, 2, 3, 4]);
    assert_eq!(nibbles(0xFFFF), [0xF, 0xF, 0xF, 0xF]);
    assert_eq!(nibbles(0x00A0), [0, 0, 0xA, 0]);
}

#[test]
fn timed_drive_calls_start_then_stop() {
    let started = Cell::new(false);
    let waited = Cell::new(0);
    let stopped = Cell::new(false);

    let result = timed_drive(
        || {
            started.set(true);
            Ok(())
        },
        |duration| waited.set(duration),
        || {
            assert!(started.get(), "stop should be called after start");
            stopped.set(true);
            Ok(())
        },
        7,
    );

    assert!(result.is_ok());
    assert!(started.get());
    assert_eq!(waited.get(), 7);
    assert!(stopped.get());
}

#[test]
fn timed_drive_skips_stop_when_start_fails() {
    let stopped = Cell::new(false);

    let result = timed_drive(
        || Err(Error::Other("Operation timed out".to_string())),
        |_| panic!("nothing to wait for"),
        || {
            stopped.set(true);
            Ok(())
        },
        0,
    );

    assert!(result.is_err());
    assert!(!stopped.get(), "stop should not be called when start fails");
}
