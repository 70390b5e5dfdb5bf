use std::cell::RefCell;

use viscous::args::parse_args;
use viscous::bridge::{next_update, subscribe_status, Coordinator, Direction8, StatusEvent};
use viscous::cli::{write_line, Transcript};
use viscous::connection::Target;
use viscous::error::Error;
use viscous::pan_tilt::PanTiltDirection;
use viscous::session::{Report, QUIESCENCE_INTERVAL};
use viscous::state::{CameraState, Lens, Position};
use viscous::ui::{AppState, Connection, KEY_LEGEND, MIN_COLUMNS};
use viscous::worker::{Intent, Outcome};

#[test]
fn write_line_terminates_with_a_full_carriage_return_and_newline() {
    let mut stdout = Vec::new();
    write_line(&mut stdout, "hello");
    assert_eq!(stdout, b"hello\r\n");
}

#[test]
fn every_kind_of_message_becomes_a_line_of_transcript() {
    let mut transcript = Transcript { stdout: Vec::new() };
    transcript.refresh().unwrap();
    transcript.status("pan/tilt right...").unwrap();
    transcript.camera_state("power=on pan=0 tilt=0").unwrap();

    assert_eq!(
        String::from_utf8(transcript.stdout).unwrap(),
        "pan/tilt right...\r\npower=on pan=0 tilt=0\r\n"
    );
}

#[test]
fn a_transcript_opens_with_the_camera_and_the_keys() {
    let transcript = Transcript::opening("COM3 \u{2014} Sony");

    assert_eq!(
        String::from_utf8(transcript.stdout).unwrap(),
        format!("COM3 \u{2014} Sony\r\n{KEY_LEGEND}\r\n")
    );
}

#[test]
fn the_key_legend_fits_a_narrow_terminal_whole() {
    let width = KEY_LEGEND.chars().count();
    assert!(
        width <= MIN_COLUMNS,
        "the legend shares the footer with the status line and gets clipped \
         rather than wrapped: {width} columns"
    );
}

#[test]
fn shows_connecting_by_default() {
    assert!(AppState::default().header().contains("Connecting"));
    assert_eq!(AppState::default().body(), "(no state yet)");
}

#[test]
fn shows_the_link_and_version_once_connected() {
    let state = AppState {
        connection: Connection::Connected {
            link: "Connected at 9600 baud".to_string(),
            version: "vendor=0x0001".to_string(),
        },
        ..AppState::default()
    };
    assert_eq!(
        state.header(),
        "Connected at 9600 baud \u{2014} vendor=0x0001"
    );
}

#[test]
fn shows_failure_reason() {
    let state = AppState {
        connection: Connection::Failed("no response".to_string()),
        ..AppState::default()
    };
    assert_eq!(state.header(), "Connection failed: no response");
}

#[test]
fn shows_key_legend_when_no_status_set() {
    assert_eq!(AppState::default().footer(), KEY_LEGEND);
}

#[test]
fn shows_status_in_place_of_key_legend_when_set() {
    let state = AppState {
        status: Some("preset 3 saved".to_string()),
        ..AppState::default()
    };
    assert!(state.footer().contains("preset 3 saved"));
    assert!(!state.footer().contains("hold to move"));
}

#[test]
fn shows_camera_state_when_present() {
    let state = AppState {
        camera_state: Some("power=on pan=0 tilt=0".to_string()),
        ..AppState::default()
    };
    assert!(state.body().contains("power=on"));
}

#[test]
fn a_result_becomes_the_status_line_and_leaves_the_state_panel_alone() {
    let mut state = AppState::default();

    state.status("recall preset 3...").unwrap();

    assert_eq!(state.status.as_deref(), Some("recall preset 3..."));
    assert_eq!(state.camera_state, None);
}

#[test]
fn a_state_snapshot_becomes_the_state_panel_and_leaves_the_status_alone() {
    let mut state = AppState {
        status: Some("stale".to_string()),
        ..AppState::default()
    };

    state.camera_state("power=on pan=0 tilt=0").unwrap();

    assert_eq!(state.camera_state.as_deref(), Some("power=on pan=0 tilt=0"));
    assert_eq!(state.status.as_deref(), Some("stale"));
}

#[test]
fn a_tcp_url_names_a_network_target() {
    assert_eq!(
        Target::from("tcp://192.168.1.5:5678"),
        Target::Tcp("192.168.1.5:5678".to_string())
    );
    assert_eq!(
        Target::from("tcp://camera.local"),
        Target::Tcp("camera.local".to_string())
    );
}

#[test]
fn anything_else_names_a_serial_port() {
    assert_eq!(
        Target::from("/dev/ttyUSB0"),
        Target::Serial("/dev/ttyUSB0".to_string())
    );
    assert_eq!(Target::from("COM3"), Target::Serial("COM3".to_string()));
}

#[test]
fn a_scheme_that_is_cut_short_is_no_scheme() {
    assert_eq!(Target::from("tcp:/"), Target::Serial("tcp:/".to_string()));
    assert_eq!(Target::from("tcp://"), Target::Tcp(String::new()));
    assert_eq!(
        Target::from(" tcp://host"),
        Target::Serial(" tcp://host".to_string())
    );
}

fn arguments(words: &[&str]) -> Vec<String> {
    words.iter().map(|word| word.to_string()).collect()
}

#[test]
fn the_first_argument_that_is_no_flag_is_the_camera() {
    assert_eq!(
        parse_args(&arguments(&["COM3"])),
        Some((false, "COM3".to_string()))
    );
    assert_eq!(
        parse_args(&arguments(&["--cli", "COM3"])),
        Some((true, "COM3".to_string()))
    );
    assert_eq!(
        parse_args(&arguments(&["COM3", "COM4", "--cli"])),
        Some((true, "COM3".to_string()))
    );
}

#[test]
fn a_command_line_without_a_camera_is_no_command_line() {
    assert_eq!(parse_args(&[]), None);
    assert_eq!(parse_args(&arguments(&["--cli", "--cli"])), None);
}

#[test]
fn the_eight_directions_are_the_heads_own() {
    assert_eq!(
        PanTiltDirection::from(Direction8::UpLeft),
        PanTiltDirection::UpLeft
    );
    assert_eq!(
        PanTiltDirection::from(Direction8::Down),
        PanTiltDirection::Down
    );
}

fn reporting() -> CameraState {
    CameraState {
        power_on: true,
        lens: Some(Lens {
            position: Position {
                pan: -5,
                tilt: 6,
                zoom: 7,
                focus: 8,
            },
            auto_focus: true,
        }),
    }
}

#[test]
fn a_snapshot_is_mirrored_and_everything_else_is_described() {
    let event = StatusEvent::of(&Outcome::State(Ok(reporting())));
    match event {
        StatusEvent::State(mirror) => {
            assert!(mirror.power_on);
            assert_eq!((mirror.pan, mirror.tilt), (-5, 6));
            assert_eq!((mirror.zoom, mirror.focus), (7, 8));
        }
        StatusEvent::Command(text) => panic!("expected a snapshot, got {text}"),
    }

    let event = StatusEvent::of(&Outcome::Done(Intent::Home, Ok(())));
    assert!(matches!(event, StatusEvent::Command(text) if text == "OK: home"));

    let asleep = CameraState {
        power_on: false,
        lens: None,
    };
    let event = StatusEvent::of(&Outcome::State(Ok(asleep)));
    assert!(
        matches!(event, StatusEvent::Command(text) if text == "power=off (lens not reporting)")
    );
}

#[test]
fn updates_are_handed_on_until_the_subscriber_takes_no_more() {
    let results = Some(vec![
        Outcome::Done(Intent::Home, Ok(())),
        Outcome::State(Err(Error::SyntaxError)),
        Outcome::State(Ok(reporting())),
    ]);
    let heard = RefCell::new(Vec::new());

    let taken = subscribe_status(&results, |event| {
        if let StatusEvent::Command(text) = event {
            heard.borrow_mut().push(text);
            true
        } else {
            false
        }
    });

    assert_eq!(taken, 2);
    assert_eq!(
        heard.into_inner(),
        vec![
            "OK: home".to_string(),
            "state query failed: Syntax error in VISCA command".to_string()
        ]
    );
    assert_eq!(subscribe_status(&None, |_| true), 0);
}

#[test]
fn each_outcome_is_handed_on_once_and_in_order() {
    let results = Some(vec![
        Outcome::Done(Intent::Home, Ok(())),
        Outcome::Done(Intent::ResetPanTilt, Ok(())),
        Outcome::State(Err(Error::SyntaxError)),
    ]);
    for limit in 0..3 {
        let heard = RefCell::new(Vec::new());
        let taken = subscribe_status(&results, |event| {
            let StatusEvent::Command(text) = event else {
                panic!("no snapshot came back")
            };
            heard.borrow_mut().push(text);
            heard.borrow().len() <= limit
        });

        let expected = [
            "OK: home",
            "OK: pan/tilt reset",
            "state query failed: Syntax error in VISCA command",
        ];
        assert_eq!(taken, limit);
        assert_eq!(heard.into_inner(), expected[..limit + 1].to_vec());
    }
}

#[test]
fn an_update_follows_only_one_that_was_taken() {
    let outcome = Outcome::Done(Intent::Home, Ok(()));

    assert!(matches!(
        next_update(true, Some(&outcome)),
        Some(StatusEvent::Command(text)) if text == "OK: home"
    ));
    assert!(next_update(false, Some(&outcome)).is_none());
    assert!(next_update(true, None).is_none());
}

#[test]
fn a_remote_query_follows_once_commands_have_settled() {
    let mut coordinator = Coordinator::new();
    assert!(coordinator.query_due(0), "the first is due at once");
    assert!(!coordinator.query_due(QUIESCENCE_INTERVAL), "and only once");

    coordinator.sent(1000);
    assert!(!coordinator.query_due(1000 + QUIESCENCE_INTERVAL - 1));
    assert!(coordinator.query_due(1000 + QUIESCENCE_INTERVAL));
    assert!(!coordinator.query_due(u64::MAX));
}
