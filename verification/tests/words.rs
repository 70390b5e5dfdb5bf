use viscous::connection::{format_camera, format_version, vendor_name, VersionInfo};
use viscous::error::Error;
use viscous::labels::{
    camera_line, lamp_tooltip, mark_tooltip, marking_tooltip, power_words, recall_tooltip,
};
use viscous::padlock::tooltip;
use viscous::rocker::{focus_marks, zoom_marks};
use viscous::state::{format_position, format_state, CameraState, Lens, Position};
use viscous::text::{push_decimal, push_hex, push_signed, trim, trim_end, trim_start};

fn sample_position() -> Position {
    Position {
        pan: -120,
        tilt: 45,
        zoom: 0x1000,
        focus: 0x2000,
    }
}

fn sample_lens() -> Lens {
    Lens {
        position: sample_position(),
        auto_focus: false,
    }
}

fn sample_state() -> CameraState {
    CameraState {
        power_on: true,
        lens: Some(sample_lens()),
    }
}

#[test]
fn format_state_renders_all_fields() {
    let text = format_state(&sample_state());
    assert!(text.contains("power=on"));
    assert!(text.contains("pan=-120"));
    assert!(text.contains("tilt=45"));
    assert!(text.contains("zoom=0x1000"));
    assert!(text.contains("focus=0x2000"));
    assert!(text.contains("manual"));
}

#[test]
fn format_state_says_which_way_focus_is_being_driven() {
    let auto = CameraState {
        lens: Some(Lens {
            auto_focus: true,
            ..sample_lens()
        }),
        ..sample_state()
    };

    assert!(format_state(&auto).contains("auto"));
}

#[test]
fn format_state_reports_a_sleeping_camera_without_inventing_a_position() {
    let asleep = CameraState {
        power_on: false,
        lens: None,
    };
    let text = format_state(&asleep);

    assert!(text.contains("power=off"));
    assert!(!text.contains("pan="));
}

#[test]
fn format_position_leaves_out_what_a_control_already_shows() {
    let text = format_position(&sample_position());

    assert!(text.contains("pan=-120"));
    assert!(text.contains("zoom=0x1000"));
    assert!(!text.contains("power"));
    assert!(!text.contains("manual"));
}

#[test]
fn the_whole_state_line_is_spelled_out() {
    assert_eq!(
        format_state(&sample_state()),
        "power=on pan=-120 tilt=45 zoom=0x1000 focus=0x2000 (manual)"
    );
    assert_eq!(
        format_state(&CameraState {
            power_on: true,
            lens: None
        }),
        "power=on (lens not reporting)"
    );
    assert_eq!(
        format_position(&Position {
            pan: i16::MIN,
            tilt: i16::MAX,
            zoom: 0xABCD,
            focus: 0x000F,
        }),
        "pan=-32768 tilt=32767 zoom=0xABCD focus=0x000F"
    );
}

#[test]
fn a_preset_button_offers_the_shot_it_was_described_as() {
    assert_eq!(
        recall_tooltip(3, Some("Wide shot of stand")),
        "Go to preset 3: Wide shot of stand"
    );
    assert_eq!(recall_tooltip(3, None), "Go to preset 3");
    assert_eq!(recall_tooltip(3, Some("   ")), "Go to preset 3");
}

#[test]
fn a_description_is_offered_without_the_space_round_it() {
    assert_eq!(recall_tooltip(1, Some(" Podium\t")), "Go to preset 1: Podium");
    assert_eq!(
        mark_tooltip(2),
        "Store where the camera is pointing now as preset 2"
    );
}

#[test]
fn the_hover_text_says_both_where_it_is_and_what_a_click_does() {
    for locked in [true, false] {
        let text = tooltip(locked);
        assert!(
            text.contains("Click to"),
            "the action should be spelled out: {text}"
        );
    }
    assert_ne!(tooltip(true), tooltip(false));
}

#[test]
fn the_marking_switch_says_what_it_holds_off() {
    assert!(marking_tooltip(true).starts_with("Off"));
    assert!(marking_tooltip(false).starts_with("On"));
}

#[test]
fn the_camera_row_says_in_words_what_the_lamp_says_in_colour() {
    let asleep = CameraState {
        power_on: false,
        lens: Some(sample_lens()),
    };
    assert_eq!(power_words(Some(sample_state())), "Camera is on");
    assert_eq!(power_words(Some(asleep)), "Camera is in standby");
    assert_eq!(power_words(None), "Waiting for the camera");
    assert_eq!(lamp_tooltip(Some(true)), "Camera is on");
    assert_eq!(lamp_tooltip(Some(false)), "Camera is in standby");
    assert_eq!(lamp_tooltip(None), "Waiting for the camera");
}

#[test]
fn a_camera_that_is_awake_but_not_answering_yet_is_not_called_ready() {
    let starting_up = CameraState {
        power_on: true,
        lens: None,
    };
    assert_eq!(power_words(Some(starting_up)), "Camera is starting up");
}

#[test]
fn the_rockers_are_marked_as_a_lens_is() {
    assert_eq!(zoom_marks().label, "Zoom");
    assert_eq!(zoom_marks().ends, ("W", "T"));
    assert_eq!(focus_marks().label, "Focus");
    assert_eq!(focus_marks().ends, ("\u{273F}", "\u{221E}"));
}

#[test]
fn the_camera_is_introduced_by_its_link_and_its_maker() {
    assert_eq!(
        camera_line("COM3 at 9600 baud", "Sony"),
        "COM3 at 9600 baud \u{2014} Sony"
    );
}

fn sample_version() -> VersionInfo {
    VersionInfo {
        vendor: 0x0001,
        model: 0x0002,
        rom_version: 0x0304,
        max_socket: 2,
    }
}

#[test]
fn format_version_renders_fields_as_hex() {
    assert_eq!(
        format_version(&sample_version()),
        "vendor=0x0001 model=0x0002 rom=0x00000304 max_socket=2"
    );
}

#[test]
fn format_version_names_a_known_vendor() {
    let info = VersionInfo {
        vendor: 0x0020,
        ..sample_version()
    };
    assert_eq!(
        format_version(&info),
        "vendor=Sony (0x0020) model=0x0002 rom=0x00000304 max_socket=2"
    );
}

#[test]
fn a_header_says_who_made_the_camera() {
    let sony = VersionInfo {
        vendor: 0x0020,
        ..sample_version()
    };
    assert_eq!(vendor_name(0x0020), Some("Sony"));
    assert_eq!(vendor_name(0x0021), None);
    assert_eq!(format_camera(&sony), "Sony");
    assert_eq!(format_camera(&sample_version()), "0x0001");
}

#[test]
fn numbers_are_spelled_in_full() {
    let mut text = String::new();
    push_decimal(&mut text, 0);
    text.push(' ');
    push_decimal(&mut text, u64::MAX);
    text.push(' ');
    push_signed(&mut text, -1);
    text.push(' ');
    push_signed(&mut text, 10);
    text.push(' ');
    push_hex(&mut text, 0xDEAD_BEEF, 8);
    text.push(' ');
    push_hex(&mut text, 0x12345, 4);
    assert_eq!(text, "0 18446744073709551615 -1 10 DEADBEEF 2345");
}

#[test]
fn white_space_of_every_script_is_trimmed() {
    assert_eq!(trim("\u{3000} a\u{00A0}b \t\r\n\u{2003}"), "a\u{00A0}b");
    assert_eq!(trim_start("  x "), "x ");
    assert_eq!(trim_end("  x "), "  x");
    assert_eq!(trim("\u{200B}x"), "\u{200B}x");
    assert_eq!(trim(" \u{85}\u{1680}\u{2028}\u{2029}\u{202F}\u{205F}"), "");
}

#[test]
fn an_error_says_what_went_wrong() {
    assert_eq!(Error::SyntaxError.message(), "Syntax error in VISCA command");
    assert_eq!(
        Error::BufferTooSmall {
            required: 16,
            actual: 3
        }
        .message(),
        "Buffer too small: required 16 bytes, but only 3 available"
    );
    assert_eq!(
        Error::ParameterOutOfRange {
            parameter: "preset",
            value: 0,
            min: 1,
            max: 255
        }
        .message(),
        "Parameter out of range: preset = 0 (valid range: 1..255)"
    );
    assert_eq!(
        Error::Other("Operation timed out".to_string()).message(),
        "Operation timed out"
    );
}
