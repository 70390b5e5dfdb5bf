use viscous::deflection::Push;
use viscous::error::Error;
use viscous::focus::{FocusDirection, FocusDrive};
use viscous::nudge::Step;
use viscous::pan_tilt::{velocity_from_axes, PanTiltDirection, Velocity};
use viscous::preset::PresetCommand;
use viscous::rocker::SpeedLevel;
use viscous::state::{CameraState, Lens, Position};
use viscous::title::Title;
use viscous::worker::{
    coalesced, command, confirms, control, describe, describe_busy, describe_outcome,
    direction_label, is_movement, is_title, Command, Control, Intent, Outcome,
};
use viscous::zoom::{ZoomDirection, ZoomDrive};

fn zoom_in() -> ZoomDrive {
    ZoomDrive {
        direction: ZoomDirection::In,
        speed: 4,
    }
}

fn full(positive: bool, speed: u8) -> Option<Push> {
    Some(Push { positive, speed })
}

fn drive_right() -> Intent {
    Intent::DrivePanTilt(velocity_from_axes(full(true, 12), None))
}

fn drive_left() -> Intent {
    Intent::DrivePanTilt(velocity_from_axes(full(false, 12), None))
}

fn timeout() -> Error {
    Error::Other("Operation timed out".to_string())
}

#[test]
fn every_step_asked_for_is_a_step_taken() {
    // The opposite of what happens to a queued run of drives, and the whole
    // reason a step isn't one: five presses are five steps.
    let taps = [Intent::Nudge(Step::towards(PanTiltDirection::Right)); 5];

    assert_eq!(coalesced(&taps), taps);
}

#[test]
fn a_step_is_movement_so_it_keeps_out_of_the_status_line() {
    assert!(is_movement(Intent::Nudge(Step::towards(
        PanTiltDirection::Up
    ))));
    assert!(!is_movement(Intent::RecallPreset(1)));
}

#[test]
fn describe_says_which_way_a_step_went() {
    assert_eq!(
        describe(Intent::Nudge(Step::towards(PanTiltDirection::UpLeft))),
        "step up-left"
    );
}

#[test]
fn coalescing_keeps_only_the_last_drive_for_each_control() {
    let batch = [
        drive_right(),
        Intent::DriveZoom(Some(zoom_in())),
        drive_left(),
        Intent::DriveZoom(None),
    ];
    assert_eq!(
        coalesced(&batch),
        vec![drive_left(), Intent::DriveZoom(None)]
    );
}

#[test]
fn coalescing_leaves_one_off_commands_alone_and_in_order() {
    let batch = [
        Intent::RecallPreset(1),
        Intent::SavePreset(2),
        Intent::QueryState,
    ];
    assert_eq!(coalesced(&batch), batch.to_vec());
}

#[test]
fn coalescing_keeps_a_drive_that_nothing_supersedes_in_place() {
    let batch = [drive_right(), Intent::RecallPreset(1)];
    assert_eq!(coalesced(&batch), batch.to_vec());
}

#[test]
fn coalescing_twice_changes_nothing_more() {
    let batch = [
        Intent::DriveFocus(None),
        drive_right(),
        Intent::Nudge(Step::towards(PanTiltDirection::Up)),
        drive_left(),
        Intent::DriveFocus(None),
        Intent::Home,
    ];
    let once = coalesced(&batch);
    assert_eq!(
        once,
        vec![
            Intent::Nudge(Step::towards(PanTiltDirection::Up)),
            drive_left(),
            Intent::DriveFocus(None),
            Intent::Home
        ]
    );
    assert_eq!(coalesced(&once), once);
    assert_eq!(coalesced(&[]), vec![]);
}

#[test]
fn the_title_commands_are_the_ones_a_camera_may_not_have() {
    assert!(is_title(Intent::SetTitle(Title::new("PODIUM"))));
    assert!(is_title(Intent::ShowTitle(true)));
    assert!(!is_title(Intent::RecallPreset(1)));
    assert!(!is_title(drive_right()));
}

#[test]
fn only_drives_belong_to_a_control() {
    assert_eq!(control(drive_right()), Some(Control::PanTilt));
    assert_eq!(control(Intent::DriveZoom(None)), Some(Control::Zoom));
    assert_eq!(control(Intent::DriveFocus(None)), Some(Control::Focus));
    assert_eq!(control(Intent::Home), None);
    assert_eq!(control(Intent::Nudge(Step::still())), None);
}

#[test]
fn only_the_stops_own_answer_confirms_it() {
    let stop = Intent::DrivePanTilt(Velocity::stop());

    assert!(confirms(&Outcome::Done(stop, Ok(())), stop));
    assert!(confirms(&Outcome::Done(stop, Err(timeout())), stop));
    assert!(!confirms(
        &Outcome::Done(Intent::RecallPreset(1), Ok(())),
        stop
    ));
    assert!(!confirms(&Outcome::Done(drive_left(), Ok(())), stop));
    assert!(!confirms(&Outcome::State(Err(timeout())), stop));
}

fn sample_camera_state() -> CameraState {
    CameraState {
        power_on: true,
        lens: Some(Lens {
            position: Position::default(),
            auto_focus: false,
        }),
    }
}

#[test]
fn describe_names_the_pan_tilt_direction() {
    assert_eq!(
        describe(Intent::DrivePanTilt(velocity_from_axes(
            full(true, 12),
            full(true, 10)
        ))),
        "pan/tilt up-right"
    );
}

#[test]
fn every_direction_has_its_words() {
    assert_eq!(direction_label(PanTiltDirection::Up), "up");
    assert_eq!(direction_label(PanTiltDirection::Down), "down");
    assert_eq!(direction_label(PanTiltDirection::Left), "left");
    assert_eq!(direction_label(PanTiltDirection::Right), "right");
    assert_eq!(direction_label(PanTiltDirection::DownLeft), "down-left");
    assert_eq!(direction_label(PanTiltDirection::DownRight), "down-right");
}

#[test]
fn describe_calls_a_pan_tilt_stop_a_stop() {
    assert_eq!(
        describe(Intent::DrivePanTilt(Velocity::stop())),
        "pan/tilt stop"
    );
}

#[test]
fn describe_distinguishes_starting_a_drive_from_stopping_it() {
    assert_eq!(describe(Intent::DriveZoom(Some(zoom_in()))), "zoom in");
    assert_eq!(describe(Intent::DriveZoom(None)), "zoom stop");
    assert_eq!(
        describe(Intent::DriveFocus(Some(FocusDrive {
            direction: FocusDirection::Near,
            speed: SpeedLevel::Medium,
        }))),
        "focus near"
    );
    assert_eq!(describe(Intent::DriveFocus(None)), "focus stop");
}

#[test]
fn describe_says_which_way_a_two_state_setting_was_switched() {
    assert_eq!(describe(Intent::SetPower(true)), "power on");
    assert_eq!(describe(Intent::SetPower(false)), "power off");
    assert_eq!(describe(Intent::SetAutoFocus(true)), "auto focus");
    assert_eq!(describe(Intent::SetAutoFocus(false)), "manual focus");
}

#[test]
fn describe_tells_home_apart_from_the_reset_that_ends_there() {
    assert_eq!(describe(Intent::Home), "home");
    assert_eq!(describe(Intent::ResetPanTilt), "pan/tilt reset");
}

#[test]
fn describe_distinguishes_save_from_recall() {
    assert_eq!(describe(Intent::RecallPreset(2)), "recall preset 2");
    assert_eq!(describe(Intent::SavePreset(2)), "save preset 2");
}

#[test]
fn describe_quotes_a_title_as_the_camera_will_draw_it() {
    assert_eq!(
        describe(Intent::SetTitle(Title::new("Hymn 123"))),
        "set title \"HYMN 123\""
    );
    assert_eq!(describe(Intent::ShowTitle(true)), "show title");
    assert_eq!(describe(Intent::ShowTitle(false)), "hide title");
    assert_eq!(describe(Intent::QueryState), "state query");
}

#[test]
fn describe_busy_marks_the_intent_as_in_progress() {
    assert_eq!(describe_busy(Intent::RecallPreset(2)), "recall preset 2...");
}

#[test]
fn describe_outcome_confirms_a_successful_command() {
    assert_eq!(
        describe_outcome(&Outcome::Done(Intent::RecallPreset(2), Ok(()))),
        "OK: recall preset 2"
    );
}

#[test]
fn describe_outcome_reports_a_failed_command() {
    let text = describe_outcome(&Outcome::Done(
        Intent::DriveZoom(Some(zoom_in())),
        Err(timeout()),
    ));
    assert!(text.contains("error"));
    assert!(text.contains("zoom in"));
    assert_eq!(text, "error (zoom in): Operation timed out");
}

#[test]
fn describe_outcome_formats_a_successful_state_query() {
    let text = describe_outcome(&Outcome::State(Ok(sample_camera_state())));
    assert!(text.contains("power=on"));
}

#[test]
fn describe_outcome_reports_a_failed_state_query() {
    let text = describe_outcome(&Outcome::State(Err(timeout())));
    assert!(text.contains("state query failed"));
}

#[test]
fn a_preset_that_gave_up_its_place_is_described_like_one_that_did_not() {
    let found = Outcome::Preset(Intent::SavePreset(9), Ok(Some(Position::default())));
    let lost = Outcome::Preset(Intent::SavePreset(9), Ok(None));
    assert_eq!(describe_outcome(&found), "OK: save preset 9");
    assert_eq!(describe_outcome(&lost), "OK: save preset 9");
    assert_eq!(
        describe_outcome(&Outcome::Preset(Intent::RecallPreset(0), Err(timeout()))),
        "error (recall preset 0): Operation timed out"
    );
}

#[test]
fn an_intent_with_a_number_the_camera_has_not_is_refused() {
    assert!(matches!(
        command(Intent::RecallPreset(0)),
        Err(Error::ParameterOutOfRange { parameter: "preset", value: 0, min: 1, max: 255 })
    ));
    assert!(matches!(
        command(Intent::SavePreset(7)),
        Ok(Command::Preset(PresetCommand::Save(6)))
    ));
    let too_fast = Velocity {
        tilt_speed: 21,
        ..Velocity::stop()
    };
    assert!(matches!(
        command(Intent::DrivePanTilt(too_fast)),
        Err(Error::ParameterOutOfRange { parameter: "TiltSpeed", .. })
    ));
    assert!(matches!(
        command(Intent::Nudge(Step::still())),
        Ok(Command::Nothing)
    ));
}

#[test]
fn intents_are_equal_when_everything_in_them_is() {
    assert_eq!(
        Intent::SetTitle(Title::new("a")),
        Intent::SetTitle(Title::new("A"))
    );
    assert_ne!(Intent::Home, Intent::ResetPanTilt);
    assert_ne!(Intent::SetPower(true), Intent::SetPower(false));
    assert_ne!(drive_left(), drive_right());
}
