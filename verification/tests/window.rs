use std::cell::RefCell;
use std::collections::BTreeMap;

use viscous::config::{load, save, written, Config, ConfigError, Reading};
use viscous::deflection::Push;
use viscous::drives::Drives;
use viscous::error::Error;
use viscous::focus::{FocusDirection, FocusDrive};
use viscous::gamepad::{Buttons, Pad, Press};
use viscous::labels::{fit_requests, repaint_after, takes_the_room, FitRequest};
use viscous::nudge::Step;
use viscous::pan_tilt::{velocity_from_axes, PanTiltDirection, Velocity};
use viscous::session::{NO_ANSWER_HINT, POLL_INTERVAL, QUIESCENCE_INTERVAL, RETRY_INTERVAL};
use viscous::state::{CameraState, Lens, Position};
use viscous::title::Title;
use viscous::window::{
    App, Connection, Hands, Link, Status, AUTO_FOCUS_HINT, CONTROLLER_INTERVAL, LOCKED_HINT,
    NO_TITLES_HINT, STANDBY_HINT,
};
use viscous::worker::{Intent, Outcome};
use viscous::zoom::ZoomDrive;

const FIRST_GUESS: &str = "/dev/ttyUSB0";
const NOW: u64 = 5_000_000_000;

/// An app already connected to a camera.
fn connected_app(camera_state: Option<CameraState>) -> App {
    App {
        connection: Connection::Connected {
            link: "COM3 at 9600 baud".to_string(),
            summary: "Sony".to_string(),
            details: "vendor=Sony (0x0020) model=0x040F".to_string(),
        },
        camera_state,
        ..App::new(FIRST_GUESS)
    }
}

fn test_link() -> Link {
    Link {
        link: "COM3 at 9600 baud".to_string(),
        summary: "Sony".to_string(),
        details: "vendor=Sony (0x0020) model=0x040F".to_string(),
        titles: true,
    }
}

fn camera_state(power_on: bool, auto_focus: bool) -> CameraState {
    CameraState {
        power_on,
        lens: Some(Lens {
            position: Position::default(),
            auto_focus,
        }),
    }
}

fn hands() -> Hands {
    Hands {
        pointed: Drives::stopped(),
        typed: Drives::stopped(),
        held: Drives::stopped(),
        presses: Vec::new(),
        typing: false,
        steps: Vec::new(),
        preset: None,
        focus_key: false,
        power_key: false,
    }
}

fn panning(positive: bool) -> Drives {
    Drives {
        pan_tilt: velocity_from_axes(Some(Push { positive, speed: 1 }), None),
        ..Drives::stopped()
    }
}

fn focusing(direction: FocusDirection) -> Drives {
    Drives {
        focus: FocusDrive::from_deflection(Some(Push {
            positive: direction == FocusDirection::Far,
            speed: 1,
        })),
        ..Drives::stopped()
    }
}

fn zooming() -> Drives {
    Drives {
        zoom: ZoomDrive::from_deflection(Some(Push {
            positive: true,
            speed: 3,
        })),
        ..Drives::stopped()
    }
}

fn syntax_error() -> Error {
    Error::SyntaxError
}

fn timeout() -> Error {
    Error::Other("Operation timed out".to_string())
}

#[test]
fn a_held_shifted_arrow_key_drives_the_camera_and_releasing_it_stops() {
    let mut app = connected_app(None);

    let driving = app.apply_hands(
        &Hands {
            typed: panning(true),
            ..hands()
        },
        NOW,
    );
    assert_eq!(driving, vec![Intent::DrivePanTilt(panning(true).pan_tilt)]);

    let stopping = app.apply_hands(&hands(), NOW);
    assert_eq!(stopping, vec![Intent::DrivePanTilt(Velocity::stop())]);
}

#[test]
fn pressing_an_arrow_key_steps_the_camera_without_driving_it() {
    let mut app = connected_app(None);
    let right = Step::towards(PanTiltDirection::Right);

    let sent = app.apply_hands(
        &Hands {
            steps: vec![right],
            ..hands()
        },
        NOW,
    );

    assert_eq!(sent, vec![Intent::Nudge(right)]);
    assert!(app.apply_hands(&hands(), NOW).is_empty());
}

#[test]
fn pressing_an_arrow_key_at_a_sleeping_camera_asks_it_for_nothing() {
    let mut app = connected_app(Some(CameraState {
        power_on: false,
        lens: None,
    }));

    let sent = app.apply_hands(
        &Hands {
            steps: vec![Step::towards(PanTiltDirection::Right)],
            ..hands()
        },
        NOW,
    );

    assert!(
        sent.is_empty(),
        "a camera drawn as asleep shouldn't be stepped either"
    );
}

#[test]
fn a_step_is_movement_and_so_says_nothing_in_the_status_line() {
    let mut app = connected_app(None);

    app.send_intent(
        Intent::Nudge(Step::towards(PanTiltDirection::Right)),
        NOW,
    );

    assert!(app.status.is_none());
}

#[test]
fn main_driving_leaves_the_status_line_to_say_something_else() {
    let mut app = connected_app(None);

    app.apply_hands(
        &Hands {
            typed: panning(true),
            ..hands()
        },
        NOW,
    );
    app.apply_hands(&hands(), NOW);
    app.apply_outcome(
        &Outcome::Done(Intent::DrivePanTilt(Velocity::stop()), Ok(())),
        NOW,
    );

    assert!(
        app.status.is_none(),
        "a move is its own report: {:?}",
        app.status.as_ref().map(|status| &status.text)
    );
}

#[test]
fn a_drive_that_failed_is_reported_as_a_failure() {
    let mut app = connected_app(None);

    app.apply_outcome(
        &Outcome::Done(Intent::DrivePanTilt(Velocity::stop()), Err(timeout())),
        NOW,
    );

    let status = app.status.expect("a failed drive should be reported");
    assert!(status.failed);
    assert!(status.text.contains("error"));
}

#[test]
fn a_one_off_command_says_it_is_under_way() {
    let mut app = connected_app(None);

    app.send_intent(Intent::RecallPreset(3), NOW);

    assert_eq!(app.next_query_at, Some(NOW + QUIESCENCE_INTERVAL));
    let status = app.status.expect("a preset recall should be reported");
    assert!(!status.failed);
    assert!(status.text.contains("preset 3"));
}

#[test]
fn a_number_key_goes_to_that_preset() {
    let mut app = connected_app(None);

    let sent = app.apply_hands(
        &Hands {
            preset: Some(4),
            ..hands()
        },
        NOW,
    );

    assert_eq!(sent, vec![Intent::RecallPreset(4)]);
}

#[test]
fn keys_meant_for_a_description_do_not_reach_the_camera() {
    let mut app = connected_app(None);

    let sent = app.apply_hands(
        &Hands {
            typing: true,
            typed: panning(true),
            steps: vec![Step::towards(PanTiltDirection::Right)],
            preset: Some(3),
            focus_key: true,
            power_key: true,
            ..hands()
        },
        NOW,
    );

    assert!(sent.is_empty(), "a field being typed into owns the keyboard");
}

#[test]
fn a_controller_still_drives_while_a_description_is_typed() {
    let mut app = connected_app(None);

    let sent = app.apply_hands(
        &Hands {
            typing: true,
            preset: Some(3),
            held: panning(true),
            presses: vec![Press::Recall(5)],
            ..hands()
        },
        NOW,
    );

    assert_eq!(
        sent,
        vec![
            Intent::DrivePanTilt(panning(true).pan_tilt),
            Intent::RecallPreset(5)
        ]
    );
}

#[test]
fn showing_a_title_sends_it_to_the_camera_and_turns_it_on() {
    let mut app = connected_app(None);
    app.titles.insert(2, "Hymn 123".to_string());

    assert_eq!(
        app.show_title(Some(2), NOW),
        vec![
            Intent::SetTitle(Title::new("Hymn 123")),
            Intent::ShowTitle(true)
        ]
    );
}

#[test]
fn only_one_title_can_be_on_screen_because_the_camera_holds_one() {
    let mut app = connected_app(None);
    app.titles.insert(1, "Podium".to_string());
    app.titles.insert(2, "Choir".to_string());

    app.show_title(Some(1), NOW);
    let sent = app.show_title(Some(2), NOW);

    assert_eq!(app.shown_title, Some(2));
    assert_eq!(
        sent.last(),
        Some(&Intent::ShowTitle(true)),
        "switching titles should leave the new one showing"
    );
}

#[test]
fn unchecking_the_shown_title_hides_it() {
    let mut app = connected_app(None);
    app.titles.insert(1, "Podium".to_string());

    app.show_title(Some(1), NOW);
    let sent = app.show_title(None, NOW);

    assert_eq!(app.shown_title, None);
    assert_eq!(sent, vec![Intent::ShowTitle(false)]);
}

#[test]
fn a_title_that_was_never_written_hides_what_is_showing() {
    let mut app = connected_app(None);

    assert_eq!(app.show_title(Some(3), NOW), vec![Intent::ShowTitle(false)]);
    assert_eq!(app.shown_title, Some(3));
}

#[test]
fn a_camera_that_refuses_a_title_stops_being_offered_one() {
    let mut app = connected_app(Some(camera_state(true, false)));
    app.titles.insert(1, "Podium".to_string());
    app.show_title(Some(1), NOW);

    // Both halves are already on their way when the first is refused.
    for intent in [
        Intent::SetTitle(Title::new("Podium")),
        Intent::ShowTitle(true),
    ] {
        app.apply_outcome(&Outcome::Done(intent, Err(syntax_error())), NOW);
    }

    let status = app.status.as_ref().expect("a refusal is news");
    assert!(status.failed);
    assert_eq!(status.text, NO_TITLES_HINT);
    assert_eq!(
        app.shown_title, None,
        "nothing is on screen, so no box should be ticked"
    );
    assert!(!app.titles_offered());
    assert_eq!(app.title_hint(), NO_TITLES_HINT);
}

#[test]
fn a_syntax_error_to_anything_else_is_an_ordinary_failure() {
    let mut app = connected_app(None);

    app.apply_outcome(&Outcome::Done(Intent::Home, Err(syntax_error())), NOW);

    assert!(app.titles_supported);
    assert_eq!(
        app.status_line(),
        ("error (home): Syntax error in VISCA command", true)
    );
}

#[test]
fn a_camera_that_says_at_connect_it_has_no_titles_is_never_offered_one() {
    let mut app = connected_app(Some(camera_state(true, false)));
    app.titles.insert(1, "Podium".to_string());

    app.poll_connect_result(
        Ok(Link {
            titles: false,
            ..test_link()
        }),
        NOW,
    );

    assert_eq!(app.titles_note(), NO_TITLES_HINT);
    assert!(!app.titles_offered());
}

#[test]
fn a_camera_that_has_titles_is_offered_them_from_the_start() {
    let mut app = connected_app(Some(camera_state(true, false)));

    assert!(app.poll_connect_result(Ok(test_link()), NOW));

    assert!(app.titles_offered());
    assert_eq!(
        app.titles_note(),
        "Up to 20 uppercase characters, drawn over the picture"
    );
    assert_eq!(app.next_query_at, Some(NOW));
}

#[test]
fn a_title_is_kept_between_runs_like_a_preset_description() {
    let mut app = connected_app(None);
    app.titles.insert(3, "Sister Jones".to_string());

    let reopened = App::with_config(FIRST_GUESS, app.save_config().map(Ok));

    assert_eq!(
        reopened.titles.get(&3).map(String::as_str),
        Some("Sister Jones")
    );
}

#[test]
fn marking_starts_locked_so_a_stray_click_costs_nothing() {
    let app = connected_app(None);

    assert!(!app.marking());
    assert_eq!(app.mark_hint(), LOCKED_HINT);
}

#[test]
fn the_switch_at_the_head_of_the_column_arms_it() {
    let mut app = connected_app(None);
    app.marking_locked = false;

    assert!(app.marking());
    app.camera_state = Some(camera_state(false, false));
    assert!(!app.marking(), "a sleeping camera stores nothing");
    assert_eq!(app.mark_hint(), STANDBY_HINT);
}

#[test]
fn a_typed_preset_description_is_there_again_next_run() {
    let mut app = connected_app(None);
    app.preset_labels.insert(2, "Chorister".to_string());

    let reopened = App::with_config(FIRST_GUESS, app.save_config().map(Ok));

    assert_eq!(
        reopened.preset_labels.get(&2).map(String::as_str),
        Some("Chorister")
    );
}

#[test]
fn the_camera_that_connected_is_there_again_next_run() {
    let mut app = connected_app(None);
    app.port_input = " tcp://camera.local:5678 ".to_string();

    assert_eq!(app.start_connect(), "tcp://camera.local:5678");
    assert!(app.poll_connect_result(Ok(test_link()), NOW));
    let reopened = App::with_config(FIRST_GUESS, app.save_config().map(Ok));

    assert_eq!(reopened.port_input, "tcp://camera.local:5678");
}

#[test]
fn a_camera_that_never_answered_is_not_remembered() {
    let mut app = connected_app(None);
    app.port_input = "COM99".to_string();

    assert!(!app.poll_connect_result(Err("no response".to_string()), NOW));
    assert!(matches!(&app.connection, Connection::Failed(why) if why == "no response"));
    let reopened = App::with_config(FIRST_GUESS, app.save_config().map(Ok));

    assert_eq!(reopened.port_input, FIRST_GUESS);
}

#[test]
fn preset_slots_left_blank_are_not_written_out() {
    let mut app = connected_app(None);
    app.preset_labels.insert(1, "Podium".to_string());
    app.preset_labels.insert(2, "   ".to_string());
    app.preset_positions.insert(2, Position::default());

    let config = app.save_config().expect("there is nothing to write over");

    assert_eq!(config.presets.len(), 1);
    assert_eq!(config.presets.get(&1).map(String::as_str), Some("Podium"));
    assert_eq!(config.preset_positions.len(), 1);
}

#[test]
fn writing_the_slots_down_twice_changes_nothing() {
    let mut slots: BTreeMap<u8, String> = BTreeMap::new();
    slots.insert(0, "first".to_string());
    slots.insert(9, "\u{3000}".to_string());
    slots.insert(255, " last ".to_string());

    let once = written(&slots);
    assert_eq!(once.len(), 2);
    assert_eq!(once.get(&255).map(String::as_str), Some(" last "));
    assert_eq!(written(&once), once);
}

#[test]
fn a_config_file_that_will_not_load_is_reported_rather_than_overwritten() {
    let app = App::with_config(
        FIRST_GUESS,
        Some(Err(ConfigError::Parse("expected a key".to_string()))),
    );

    assert_eq!(
        app.status_line(),
        ("failed to parse config file: expected a key", true)
    );
    assert!(app.preset_labels.is_empty());

    let mut still_there = "not valid toml [[[".to_string();
    if let Some(config) = app.save_config() {
        still_there = format!("{config:?}");
    }
    assert_eq!(still_there, "not valid toml [[[");
}

#[test]
fn a_config_that_would_not_load_gives_way_to_something_worth_keeping() {
    let unread = || {
        App::with_config(
            FIRST_GUESS,
            Some(Err(ConfigError::Parse("expected a key".to_string()))),
        )
    };

    let mut app = unread();
    app.send_intent(Intent::Home, NOW);
    app.poll_connect_result(Err("no response".to_string()), NOW);
    assert!(!app.may_save());
    assert!(app.save_config().is_none());

    app.preset_labels.insert(1, "Podium".to_string());
    app.edited();
    assert!(app.may_save());
    assert_eq!(
        app.save_config().map(|config| config.presets),
        Some(BTreeMap::from([(1, "Podium".to_string())]))
    );

    let mut app = unread();
    assert!(app.poll_connect_result(Ok(test_link()), NOW));
    assert!(app.may_save());

    assert!(App::with_config(FIRST_GUESS, None).may_save());
}

#[test]
fn a_preset_is_remembered_where_it_was_seen_to_point() {
    let mut app = connected_app(None);
    let here = Position {
        pan: 1,
        tilt: -2,
        zoom: 3,
        focus: 4,
    };
    let there = Position { pan: 9, ..here };

    app.apply_outcome(
        &Outcome::Preset(Intent::SavePreset(2), Ok(Some(here))),
        NOW,
    );
    assert_eq!(app.preset_positions.get(&2), Some(&here));
    app.apply_outcome(
        &Outcome::Preset(Intent::RecallPreset(2), Ok(Some(there))),
        NOW,
    );
    assert_eq!(app.preset_positions.get(&2), Some(&there));

    app.apply_outcome(&Outcome::Preset(Intent::RecallPreset(2), Ok(None)), NOW);
    app.apply_outcome(
        &Outcome::Preset(Intent::SavePreset(3), Err(Error::SyntaxError)),
        NOW,
    );
    app.apply_outcome(&Outcome::Done(Intent::Home, Ok(())), NOW);
    assert_eq!(app.preset_positions.len(), 1);

    let reopened = App::with_config(FIRST_GUESS, app.save_config().map(Ok));
    assert_eq!(reopened.preset_positions.get(&2), Some(&there));
}

#[test]
fn editing_the_title_that_is_showing_shows_it_again() {
    let mut app = connected_app(None);
    app.titles.insert(1, "PODIUM".to_string());
    app.titles.insert(2, "CHOIR".to_string());
    app.show_title(Some(1), NOW);

    app.titles.insert(1, "PULPIT".to_string());
    assert_eq!(
        app.title_edited(1, NOW),
        vec![
            Intent::SetTitle(Title::new("PULPIT")),
            Intent::ShowTitle(true)
        ]
    );
    assert!(app.title_edited(2, NOW).is_empty());
    assert_eq!(app.shown_title, Some(1));
}

#[test]
fn the_focus_rocker_says_who_is_in_its_way() {
    assert_eq!(
        connected_app(Some(camera_state(true, false))).focus_rocker().0,
        true
    );
    assert_eq!(
        connected_app(Some(camera_state(true, true))).focus_rocker(),
        (false, AUTO_FOCUS_HINT)
    );
    assert_eq!(
        connected_app(Some(camera_state(false, false))).focus_rocker(),
        (false, STANDBY_HINT)
    );
    assert!(connected_app(None).focus_rocker().0);
}

#[test]
fn the_power_button_offers_whichever_state_the_camera_is_not_in() {
    assert_eq!(
        connected_app(Some(camera_state(true, false))).power_button(),
        ("Power off", Intent::SetPower(false)),
        "a camera that is on should be offered standby"
    );
    assert_eq!(
        connected_app(Some(camera_state(false, false))).power_button(),
        ("Power on", Intent::SetPower(true)),
        "a camera in standby should be offered waking up"
    );
}

#[test]
fn the_power_button_offers_to_wake_a_camera_that_has_not_answered_yet() {
    assert_eq!(
        connected_app(None).power_button(),
        ("Power on", Intent::SetPower(true))
    );
}

#[test]
fn f_switches_focus_mode_as_it_does_in_the_tui() {
    let mut app = connected_app(Some(camera_state(true, true)));

    let sent = app.apply_hands(
        &Hands {
            focus_key: true,
            ..hands()
        },
        NOW,
    );

    assert_eq!(sent, vec![Intent::SetAutoFocus(false)]);
}

#[test]
fn a_sleeping_camera_is_not_driven() {
    let asleep = connected_app(Some(camera_state(false, false)));
    let awake = connected_app(Some(camera_state(true, false)));

    assert_eq!(asleep.drivable(zooming()), Drives::stopped());
    assert_eq!(awake.drivable(zooming()), zooming());
}

#[test]
fn the_keys_stay_quiet_while_the_camera_sleeps_too() {
    let mut app = connected_app(Some(camera_state(false, false)));

    let (drives, sent) = app.keyboard_drives(false, &[], panning(true), NOW);

    assert_eq!(drives, Drives::stopped());
    assert!(sent.is_empty());
}

#[test]
fn the_camera_confirming_the_switch_is_what_flips_what_it_offers() {
    let mut app = connected_app(Some(camera_state(true, false)));

    app.apply_outcome(&Outcome::Done(Intent::SetPower(false), Ok(())), NOW);

    assert_eq!(app.camera_state.map(|state| state.power_on), Some(false));
    assert!(
        app.asleep(),
        "a camera confirmed into standby should draw its controls dead"
    );
    assert_eq!(app.status_line(), ("OK: power off", false));
}

#[test]
fn waking_the_camera_does_not_claim_the_lens_is_where_it_was() {
    let mut app = connected_app(Some(camera_state(false, false)));

    app.apply_outcome(&Outcome::Done(Intent::SetPower(true), Ok(())), NOW);

    assert_eq!(
        app.camera_state,
        Some(CameraState {
            power_on: true,
            lens: None
        })
    );
}

#[test]
fn the_power_switch_still_works_while_everything_else_is_dead() {
    let mut app = connected_app(Some(camera_state(false, false)));

    let sent = app.apply_hands(
        &Hands {
            power_key: true,
            focus_key: true,
            preset: Some(1),
            typed: panning(true),
            ..hands()
        },
        NOW,
    );

    assert_eq!(sent, vec![Intent::SetPower(true)]);
}

#[test]
fn the_focus_keys_stay_out_of_a_cameras_way_while_it_focuses_itself() {
    let mut app = connected_app(Some(camera_state(true, true)));

    let sent = app.apply_hands(
        &Hands {
            typed: focusing(FocusDirection::Far),
            ..hands()
        },
        NOW,
    );

    assert!(
        sent.is_empty(),
        "a camera focusing for itself ignores a manual focus drive"
    );
}

#[test]
fn main_the_focus_keys_drive_once_the_camera_stops_focusing_itself() {
    let mut app = connected_app(Some(camera_state(true, false)));

    let sent = app.apply_hands(
        &Hands {
            typed: focusing(FocusDirection::Far),
            ..hands()
        },
        NOW,
    );

    assert_eq!(
        sent,
        vec![Intent::DriveFocus(focusing(FocusDirection::Far).focus)]
    );
}

/// What one frame with a controller held like `pad` asks of a camera in
/// `state`.
fn controller_asks(state: CameraState, pad: Pad) -> Vec<Intent> {
    let mut app = connected_app(Some(state));
    let (held, presses) = app.controller_input(Some(pad));
    app.apply_hands(
        &Hands {
            held,
            presses,
            ..hands()
        },
        NOW,
    )
}

/// The same, of a camera that is awake and focusing by hand.
fn controller_asks_awake(pad: Pad) -> Vec<Intent> {
    controller_asks(camera_state(true, false), pad)
}

fn pressing(set: fn(&mut Buttons)) -> Pad {
    let mut pad = Pad::default();
    set(&mut pad.buttons);
    pad
}

fn full(positive: bool, speed: u8) -> Option<Push> {
    Some(Push { positive, speed })
}

#[test]
fn a_stick_on_the_controller_drives_the_camera() {
    let intents = controller_asks_awake(Pad {
        pan: full(true, 12),
        ..Pad::default()
    });

    let panning = intents.iter().any(|intent| {
        matches!(intent, Intent::DrivePanTilt(velocity)
            if velocity.direction == PanTiltDirection::Right)
    });
    assert!(panning, "the stick should pan: {intents:?}");
}

#[test]
fn a_button_on_the_controller_goes_to_its_preset() {
    assert!(controller_asks_awake(pressing(|buttons| buttons.south = true))
        .contains(&Intent::RecallPreset(1)));
}

#[test]
fn start_and_a_button_stores_the_shot_instead_of_going_to_it() {
    let intents = controller_asks_awake(pressing(|buttons| {
        buttons.start = true;
        buttons.south = true;
    }));

    assert!(intents.contains(&Intent::SavePreset(1)));
    assert!(!intents.contains(&Intent::RecallPreset(1)));
}

#[test]
fn the_stick_clicks_send_the_camera_home_and_switch_focus_mode() {
    assert!(
        controller_asks_awake(pressing(|buttons| buttons.left_stick = true))
            .contains(&Intent::Home)
    );
    assert!(
        controller_asks_awake(pressing(|buttons| buttons.right_stick = true))
            .contains(&Intent::SetAutoFocus(true))
    );
}

#[test]
fn the_centre_buttons_together_switch_the_power() {
    let combo = pressing(|buttons| {
        buttons.start = true;
        buttons.back = true;
    });

    assert!(controller_asks_awake(combo).contains(&Intent::SetPower(false)));
    // The way back out of standby, where nothing else on the controller
    // reaches the camera.
    assert_eq!(
        controller_asks(camera_state(false, false), combo),
        vec![Intent::SetPower(true)]
    );
}

#[test]
fn a_sleeping_camera_takes_nothing_else_from_the_controller() {
    let pad = Pad {
        pan: full(true, 12),
        tilt: full(true, 10),
        zoom: full(true, 7),
        focus: full(true, 3),
        ..pressing(|buttons| buttons.south = true)
    };

    assert!(
        controller_asks(camera_state(false, false), pad).is_empty(),
        "the controls are drawn dead; the stick has to agree with them"
    );
}

#[test]
fn the_triggers_stay_out_of_a_cameras_way_while_it_focuses_itself() {
    let pad = Pad {
        focus: full(true, 3),
        ..Pad::default()
    };

    assert!(
        controller_asks(camera_state(true, true), pad).is_empty(),
        "the focus rocker is drawn dead while the camera focuses itself"
    );
    assert!(
        !controller_asks_awake(pad).is_empty(),
        "and live again once it stops"
    );
}

#[test]
fn a_press_can_ask_for_a_step() {
    let mut app = connected_app(None);

    assert_eq!(
        app.apply_presses(&[Press::Nudge(PanTiltDirection::Up), Press::Home], NOW),
        vec![
            Intent::Nudge(Step::towards(PanTiltDirection::Up)),
            Intent::Home
        ]
    );
    assert_eq!(app.status_line(), ("home...", false));
}

#[test]
fn an_empty_socket_asks_for_nothing_and_forgets_nothing() {
    let mut app = connected_app(None);
    app.controller_input(Some(pressing(|buttons| buttons.south = true)));

    let (drives, presses) = app.controller_input(None);
    assert_eq!(drives, Drives::stopped());
    assert!(presses.is_empty());

    let (_, presses) = app.controller_input(Some(pressing(|buttons| buttons.south = true)));
    assert!(presses.is_empty(), "the button never came up");
}

#[test]
fn the_pointer_wins_over_the_keys_and_both_over_the_stick() {
    let mut app = connected_app(None);

    let sent = app.apply_hands(
        &Hands {
            pointed: panning(true),
            typed: Drives {
                zoom: zooming().zoom,
                ..panning(false)
            },
            held: Drives {
                focus: focusing(FocusDirection::Near).focus,
                ..panning(false)
            },
            ..hands()
        },
        NOW,
    );

    assert_eq!(
        sent,
        vec![
            Intent::DrivePanTilt(panning(true).pan_tilt),
            Intent::DriveZoom(zooming().zoom),
            Intent::DriveFocus(focusing(FocusDirection::Near).focus)
        ]
    );
}

#[test]
fn a_drive_is_sent_once_however_many_frames_it_runs() {
    let mut app = connected_app(None);

    assert_eq!(app.apply_drives(zooming(), NOW).len(), 1);
    assert!(app.apply_drives(zooming(), NOW).is_empty());
    assert!(app.driving());
    assert_eq!(
        app.stop_all_drives(),
        vec![Intent::DriveZoom(None)],
        "only what is running needs stopping"
    );
    assert_eq!(
        app.apply_drives(Drives::stopped(), NOW),
        vec![Intent::DriveZoom(None)]
    );
    assert!(app.stop_all_drives().is_empty());
}

#[test]
fn no_snapshot_is_asked_for_while_something_is_driven() {
    let mut app = connected_app(None);
    app.next_query_at = Some(NOW);
    app.apply_drives(panning(true), NOW);
    assert!(!app.send_query_state_if_due(u64::MAX));

    app.apply_drives(Drives::stopped(), NOW);
    assert!(!app.send_query_state_if_due(NOW + QUIESCENCE_INTERVAL - 1));
    assert!(app.send_query_state_if_due(NOW + QUIESCENCE_INTERVAL));
    assert!(!app.send_query_state_if_due(u64::MAX), "and only once");
}

#[test]
fn a_camera_that_is_coming_up_is_asked_again() {
    let mut app = connected_app(None);
    app.apply_outcome(
        &Outcome::State(Ok(CameraState {
            power_on: true,
            lens: None,
        })),
        NOW,
    );
    assert_eq!(app.next_query_at, Some(NOW + RETRY_INTERVAL));
    assert!(app.status.is_none());

    app.apply_outcome(&Outcome::State(Err(timeout())), NOW + 1);
    assert_eq!(app.next_query_at, Some(NOW + 1 + RETRY_INTERVAL));
    assert_eq!(app.status_line(), (NO_ANSWER_HINT, false));

    let mut settled = connected_app(None);
    settled.apply_outcome(&Outcome::State(Ok(camera_state(true, true))), NOW);
    assert_eq!(settled.next_query_at, None);
    assert!(settled.auto_focusing());
}

#[test]
fn a_preset_that_failed_is_reported_as_a_failure() {
    let mut app = connected_app(None);
    app.apply_outcome(
        &Outcome::Preset(Intent::RecallPreset(2), Err(timeout())),
        NOW,
    );
    assert_eq!(
        app.status_line(),
        ("error (recall preset 2): Operation timed out", true)
    );
    app.apply_outcome(&Outcome::Preset(Intent::RecallPreset(2), Ok(None)), NOW);
    assert_eq!(app.status_line(), ("OK: recall preset 2", false));
}

#[test]
fn a_status_says_whether_it_is_a_failure() {
    assert!(!Status::ok("fine".to_string()).failed);
    assert!(Status::failed("broken".to_string()).failed);
    assert_eq!(connected_app(None).status_line(), ("Ready", false));
}

#[test]
fn the_window_is_left_alone_while_the_contents_stay_put() {
    assert_eq!(fit_requests(false, true, true, false), vec![]);
    assert_eq!(fit_requests(true, false, false, true), vec![]);
}

#[test]
fn the_window_is_shown_once_it_has_been_fitted() {
    assert_eq!(
        fit_requests(false, false, false, false),
        vec![FitRequest::InnerSize, FitRequest::Show]
    );
    assert_eq!(
        fit_requests(false, true, false, true),
        vec![FitRequest::InnerSize, FitRequest::MinInnerSize]
    );
}

#[test]
fn the_pad_takes_the_room_from_the_frame_after_the_fit() {
    assert!(!takes_the_room(None, 9));
    assert!(!takes_the_room(Some(9), 9));
    assert!(takes_the_room(Some(9), 10));
}

#[test]
fn a_stick_is_read_far_more_often_than_the_camera() {
    assert_eq!(repaint_after(true), CONTROLLER_INTERVAL);
    assert_eq!(repaint_after(false), POLL_INTERVAL);
}

fn remembering() -> Config {
    let mut config = Config::default();
    config.presets.insert(1, "wide shot".to_string());
    config.camera = Some("COM3".to_string());
    config
}

fn words<E: ToString>(error: E) -> String {
    error.to_string()
}

/// Slots as a TOML table, whose keys are texts.
fn table_of<T>(slots: &BTreeMap<u8, T>, value: impl Fn(&T) -> toml::Value) -> toml::Value {
    let entries = slots
        .iter()
        .map(|(number, slot)| (number.to_string(), value(slot)));
    toml::Value::Table(entries.collect())
}

fn text_value(text: &String) -> toml::Value {
    toml::Value::from(text.clone())
}

/// A config as the text of a TOML file.
fn to_toml(config: &Config) -> Result<String, String> {
    let mut table = toml::Table::new();
    if let Some(camera) = &config.camera {
        table.insert("camera".to_string(), text_value(camera));
    }
    table.insert("presets".to_string(), table_of(&config.presets, text_value));
    let positions = table_of(&config.preset_positions, |position| {
        let mut fields = toml::Table::new();
        fields.insert("pan".to_string(), toml::Value::from(i64::from(position.pan)));
        fields.insert("tilt".to_string(), toml::Value::from(i64::from(position.tilt)));
        fields.insert("zoom".to_string(), toml::Value::from(i64::from(position.zoom)));
        fields.insert("focus".to_string(), toml::Value::from(i64::from(position.focus)));
        toml::Value::Table(fields)
    });
    table.insert("preset_positions".to_string(), positions);
    table.insert("titles".to_string(), table_of(&config.titles, text_value));
    toml::to_string(&table).map_err(words)
}

/// The slots that a part of a TOML file holds: none, if it is absent.
fn slots_of<T>(
    table: &toml::Table,
    part: &str,
    slot: impl Fn(&toml::Value) -> Option<T>,
) -> Result<BTreeMap<u8, T>, String> {
    let mut slots = BTreeMap::new();
    if let Some(entries) = table.get(part) {
        let entries = entries.as_table().ok_or(format!("{part} is no table"))?;
        for (number, value) in entries {
            let held = slot(value).ok_or(format!("{part}.{number} is malformed"))?;
            slots.insert(number.parse().map_err(words)?, held);
        }
    }
    Ok(slots)
}

fn text_of(value: &toml::Value) -> Option<String> {
    value.as_str().map(str::to_string)
}

fn position_of(value: &toml::Value) -> Option<Position> {
    let field = |name: &str| value.get(name).and_then(|field| field.as_integer());
    Some(Position {
        pan: field("pan")?.try_into().ok()?,
        tilt: field("tilt")?.try_into().ok()?,
        zoom: field("zoom")?.try_into().ok()?,
        focus: field("focus")?.try_into().ok()?,
    })
}

/// The config that the text of a TOML file holds. Whatever is absent is empty.
fn from_toml(contents: String) -> Result<Config, String> {
    let table = contents.parse::<toml::Table>().map_err(words)?;
    Ok(Config {
        camera: table.get("camera").and_then(text_of),
        presets: slots_of(&table, "presets", text_of)?,
        preset_positions: slots_of(&table, "preset_positions", position_of)?,
        titles: slots_of(&table, "titles", text_of)?,
    })
}

/// What a config loads back as from the file it was saved to.
fn saved_and_loaded(config: &Config) -> Config {
    let file = RefCell::new(None);
    save(
        config,
        to_toml,
        || Ok(()),
        |contents| {
            file.replace(Some(contents));
            Ok(())
        },
    )
    .expect("save should succeed");
    let contents = file.into_inner().expect("the file should be there");
    load(Reading::Contents(contents), from_toml).expect("load should succeed")
}

#[test]
fn load_missing_file_returns_default_config() {
    let config = load(Reading::Missing, |_| panic!("nothing to parse"))
        .expect("a missing file should not be an error");

    assert_eq!(config, Config::default());
}

#[test]
fn save_then_load_round_trips_what_a_preset_is_and_where_it_points() {
    let mut config = Config::default();
    config.presets.insert(1, "wide shot".to_string());
    config.presets.insert(3, "podium".to_string());
    config.preset_positions.insert(
        1,
        Position {
            pan: -120,
            tilt: 45,
            zoom: 0x1000,
            focus: 0x2000,
        },
    );

    assert_eq!(saved_and_loaded(&config), config);
}

#[test]
fn a_camera_and_titles_load_back_too() {
    let mut config = remembering();
    config.titles.insert(2, "HYMN 123".to_string());

    assert_eq!(saved_and_loaded(&config), config);
}

#[test]
fn a_config_written_before_cameras_were_remembered_still_loads() {
    let contents = "[presets]\n1 = \"wide shot\"\n".to_string();
    let config = load(Reading::Contents(contents), from_toml)
        .expect("an older config should still load");

    assert_eq!(config.camera, None);
    assert_eq!(
        config.presets.get(&1).map(String::as_str),
        Some("wide shot")
    );
    assert!(config.preset_positions.is_empty());
}

#[test]
fn parsing_rejects_malformed_toml() {
    let result = load(Reading::Contents("not valid toml [[[".to_string()), from_toml);

    assert!(matches!(result, Err(ConfigError::Parse(_))));
}

#[test]
fn a_config_file_is_parsed_or_says_why_not() {
    let config = load(Reading::Contents("wide shot".to_string()), |contents| {
        assert_eq!(contents, "wide shot");
        Ok(remembering())
    });
    assert_eq!(config.unwrap(), remembering());

    let refused = load(Reading::Contents("[[[".to_string()), |_| {
        Err("invalid table".to_string())
    });
    assert!(matches!(&refused, Err(ConfigError::Parse(_))));

    let unread = load(Reading::Failed("denied".to_string()), |_| {
        panic!("nothing to parse")
    });
    assert_eq!(
        unread.unwrap_err().message(),
        "failed to read config file: denied"
    );
}

#[test]
fn saving_goes_as_far_as_it_can() {
    let saved = save(
        &remembering(),
        |_| Ok("wide shot".to_string()),
        || Ok(()),
        |contents| {
            assert_eq!(contents, "wide shot");
            Ok(())
        },
    );
    assert!(saved.is_ok());

    let unserialized = save(
        &remembering(),
        |_| Err("unsupported".to_string()),
        || panic!("nothing to write"),
        |_| panic!("nothing to write"),
    );
    assert_eq!(
        unserialized.unwrap_err().message(),
        "failed to serialize config: unsupported"
    );

    let homeless = save(
        &remembering(),
        |_| Ok(String::new()),
        || Err("read-only".to_string()),
        |_| panic!("nowhere to write"),
    );
    assert_eq!(
        homeless.unwrap_err().message(),
        "failed to write config file: read-only"
    );

    let full = save(
        &remembering(),
        |_| Ok(String::new()),
        || Ok(()),
        |_| Err("disk full".to_string()),
    );
    assert!(matches!(full, Err(ConfigError::Write(_))));
    assert_eq!(
        ConfigError::NoConfigDir.message(),
        "couldn't determine a config directory for this platform"
    );
}

#[test]
fn the_titles_a_camera_cannot_draw_say_so_where_the_length_would_be() {
    let mut app = connected_app(Some(camera_state(true, false)));
    app.titles_supported = false;

    assert_eq!(app.titles_note(), NO_TITLES_HINT);
}
