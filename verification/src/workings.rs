//! What the library's smaller operations, and those that are handed the work of
//! others, promise whoever calls them.
//!
//! As with the larger ones, each law is about a call: what was given, what came
//! back, and how they stand to each other.

use vstd::prelude::*;

use crate::args::{is_flag, names_target, only_flags, parse_args};
use crate::bridge::{
    answered, mirrored, next_update, subscribe_status, updates, Coordinator, StatusEvent,
};
use crate::cli::{line, write_line, Transcript};
use crate::clock::time_since;
use crate::config::{load, save, written, Config, ConfigError, Reading};
use crate::connection::{
    after_attempt, answers_first, connect_tcp, connected_at, discover_baud_rate, first_answer,
    format_camera, format_version, names, none_answers, unanswered, vendor_name, version_words,
    Connected, ProbeOutcome, ProbeStep, Target, VersionInfo,
};
use crate::deflection::Push;
use crate::drive::timed_drive;
use crate::drives::Drives;
use crate::error::{error_message, Error};
use crate::focus::FocusDrive;
use crate::gamepad::{drives, pad_drives, pressed, Pad, Press};
use crate::keymap::{Hold, Paces};
use crate::keys::Key;
use crate::labels::{
    camera_line, fit_requests, mark_tooltip, recall_tooltip, takes_the_room, FitRequest,
};
use crate::nudge::{distance, twos_complement, Step};
use crate::padlock::tooltip;
use crate::pan_tilt::{accepted_speeds, direction_towards, PanTiltDirection, Velocity};
use crate::power::PowerOn;
use crate::rocker::{focus_marks, speed, zoom_marks, Marks, SpeedLevel};
use crate::session::{Report, LATEST};
use crate::shot::{nibbles, nibbles_carry_the_number, quad_value};
use crate::state::{
    format_position, format_state, position_text, query_lens, query_position, query_state,
    state_text, CameraState, Lens, Position,
};
use crate::taps::{
    a_press_is_measured_from_when_it_went_down, a_tapped_arrow_steps_once, arrow_key, arrow_way,
    down_since, is_driving, watches, Arrows, ARROWS,
};
use crate::text::{
    decimal, hex, joined, push_decimal, push_hex, push_signed, signed, trim, trimmed,
};
use crate::title::{
    after_message, decode, drawable, drawn, sends, set_title, sets_title, title_messages,
    title_text, Title, TitleSet, CHARACTERS, REPLACEMENT,
};
use crate::turns::{rests, runs};
use crate::ui::{AppState, KEY_LEGEND};
use crate::window::{said, shown, taken, App, Status};
use crate::window_keys::{
    any_from, held_drives, key_drives, keyboard_preset, opposed, step_for, KeysDown,
};
use crate::wire::write_message;
use crate::worker::{
    after_delivery, all_delivered, coalesce, delivered, direction_label, dispatch, harvest,
    run_batch, Command, Intent, Outcome,
};
use crate::zoom::{ZoomCommand, ZoomDrive};

verus! {

/// Time passes from the earlier moment to the later and never runs backwards.
pub proof fn time_never_runs_backwards(earlier: u64, later: u64, passed: u64)
    requires
        call_ensures(time_since, (earlier, later), passed),
    ensures
        earlier <= later ==> earlier + passed == later,
        later <= earlier ==> passed == 0,
{
}

/// A number is written after whatever stood before it, in the digits of its
/// base, and two texts are joined in the order given.
pub proof fn numbers_are_written_at_the_end(first: &str, second: &str, text: String, kept: &str)
    requires
        call_ensures(joined, (first, second), text),
        call_ensures(trim, (first,), kept),
    ensures
        text@ == first@ + second@,
        kept@ == trimmed(first@),
        forall|line: &mut String, value: u64| #[trigger]
            call_ensures(push_decimal, (line, value), ()) ==> final(line)@ == line@ + decimal(
                value as nat,
            ),
        forall|line: &mut String, value: i64| #[trigger]
            call_ensures(push_signed, (line, value), ()) ==> final(line)@ == line@ + signed(
                value as int,
            ),
        forall|line: &mut String, value: u32, width: u8| #[trigger]
            call_ensures(push_hex, (line, value, width), ()) ==> final(line)@ == line@ + hex(
                value as nat,
                width as nat,
            ),
{
}

/// A message that fits stands at the front of the buffer, byte for byte, and
/// leaves the rest of it alone. One that doesn't fit changes nothing.
pub proof fn a_message_stands_at_the_front()
    ensures
        forall|message: &[u8], buffer: &mut [u8], written: Result<usize, Error>| #[trigger]
            call_ensures(write_message, (message, buffer), written) ==> {
                let size = message@.len() as int;
                &&& final(buffer)@.len() == buffer@.len()
                &&& written is Ok <==> size <= buffer@.len()
                &&& written is Ok ==> {
                    &&& written->Ok_0 == message@.len() as usize
                    &&& final(buffer)@.subrange(0, size) == message@
                    &&& final(buffer)@.subrange(size, buffer@.len() as int) == buffer@.subrange(
                        size,
                        buffer@.len() as int,
                    )
                }
                &&& written is Err ==> final(buffer)@ == buffer@
            },
        forall|command: &PowerOn, camera: u8, buffer: &mut [u8], written: Result<usize, Error>|
            #[trigger]
            call_ensures(PowerOn::write_into, (command, camera, buffer), written) && 1 <= camera
                <= 8 && buffer@.len() >= 6 ==> {
                &&& written == Ok::<usize, Error>(6)
                &&& final(buffer)@[0] == 0x80 + camera
                &&& final(buffer)@[1] == 0x01 && final(buffer)@[2] == 0x04
                &&& final(buffer)@[3] == 0x00 && final(buffer)@[4] == 0x02
                &&& final(buffer)@[5] == 0xFF
            },
{
    assert forall|message: &[u8], buffer: &mut [u8], written: Result<usize, Error>| #[trigger]
        call_ensures(write_message, (message, buffer), written) implies {
        let size = message@.len() as int;
        &&& final(buffer)@.len() == buffer@.len()
        &&& written is Ok <==> size <= buffer@.len()
        &&& written is Ok ==> {
            &&& written->Ok_0 == message@.len() as usize
            &&& final(buffer)@.subrange(0, size) == message@
            &&& final(buffer)@.subrange(size, buffer@.len() as int) == buffer@.subrange(
                size,
                buffer@.len() as int,
            )
        }
        &&& written is Err ==> final(buffer)@ == buffer@
    } by {
        let size = message@.len() as int;
        if size <= buffer@.len() {
            assert(final(buffer)@.subrange(0, size) =~= message@);
            assert(final(buffer)@.subrange(size, buffer@.len() as int) =~= buffer@.subrange(
                size,
                buffer@.len() as int,
            ));
        }
    }
}

/// A push drives the way it points at its own speed, and no push drives nothing.
pub proof fn a_push_drives_its_own_way(
    push: Option<Push>,
    zoom: Option<ZoomDrive>,
    focus: Option<FocusDrive>,
    negative: bool,
    positive: bool,
    pace: u8,
    opposing: Option<Push>,
)
    requires
        call_ensures(ZoomDrive::from_deflection, (push,), zoom),
        call_ensures(FocusDrive::from_deflection, (push,), focus),
        call_ensures(opposed, (negative, positive, pace), opposing),
    ensures
        zoom is Some <==> push is Some,
        focus is Some <==> push is Some,
        push matches Some(push) ==> {
            &&& zoom->Some_0.speed == push.speed
            &&& zoom->Some_0.direction is In <==> push.positive
            &&& focus->Some_0.direction is Far <==> push.positive
        },
        opposing is Some <==> negative != positive,
        opposing matches Some(push) ==> push.speed == pace && push.positive == positive,
{
}

/// A rocker's notches run from slow to fast, and its marks name its own control.
pub proof fn a_rocker_is_marked_for_its_control(
    notch: u8,
    level: Option<SpeedLevel>,
    none: Option<SpeedLevel>,
    zoom: Marks<'static>,
    focus: Marks<'static>,
)
    requires
        call_ensures(speed, (Some(notch),), level),
        call_ensures(speed, (None,), none),
        call_ensures(zoom_marks, (), zoom),
        call_ensures(focus_marks, (), focus),
    ensures
        none is None,
        level is Some,
        level != Some(SpeedLevel::Slowest),
        zoom.label@ == "Zoom"@ && zoom.ends.0@ == "W"@ && zoom.ends.1@ == "T"@,
        focus.label@ == "Focus"@ && focus.ends.0@ == "\u{273F}"@ && focus.ends.1@ == "\u{221E}"@,
{
}

/// Two signed speeds make a velocity of their signs and sizes, within what the
/// head can do; a stop goes no way; and speeds too fast are refused.
pub proof fn signed_speeds_make_a_velocity(
    pan: i32,
    tilt: i32,
    velocity: Velocity,
    way: PanTiltDirection,
    stop: Velocity,
    fast: u8,
    slow: u8,
    taken: Result<(u8, u8), Error>,
    stopped: bool,
)
    requires
        call_ensures(Velocity::from_signed, (pan, tilt), velocity),
        call_ensures(direction_towards, (pan, tilt), way),
        call_ensures(Velocity::stop, (), stop),
        call_ensures(accepted_speeds, (fast, slow), taken),
        call_ensures(Velocity::is_stop, (velocity,), stopped),
    ensures
        velocity.direction == way,
        way.pan_sign() > 0 <==> pan > 0,
        way.pan_sign() < 0 <==> pan < 0,
        way.tilt_sign() > 0 <==> tilt > 0,
        way.tilt_sign() < 0 <==> tilt < 0,
        1 <= velocity.pan_speed <= 24 && 1 <= velocity.tilt_speed <= 20,
        1 <= pan <= 24 ==> velocity.pan_speed == pan,
        -24 <= pan <= -1 ==> velocity.pan_speed == -pan,
        pan > 24 || pan < -24 ==> velocity.pan_speed == 24,
        1 <= tilt <= 20 ==> velocity.tilt_speed == tilt,
        -20 <= tilt <= -1 ==> velocity.tilt_speed == -tilt,
        tilt > 20 || tilt < -20 ==> velocity.tilt_speed == 20,
        stopped <==> pan == 0 && tilt == 0,
        stop.direction is Stop,
        taken is Ok <==> fast <= 24 && slow <= 20,
        taken is Ok ==> taken->Ok_0 == (fast, slow),
{
}

/// One step goes one place the way it is named, standing still is going no way,
/// and the bits of a distance read back as that distance.
pub proof fn a_step_goes_one_place(
    direction: PanTiltDirection,
    step: Step,
    way: PanTiltDirection,
    none: Step,
    still: bool,
    value: i16,
    bits: u16,
)
    requires
        call_ensures(Step::towards, (direction,), step),
        call_ensures(Step::direction, (step,), way),
        call_ensures(Step::still, (), none),
        call_ensures(Step::is_still, (step,), still),
        call_ensures(twos_complement, (value,), bits),
    ensures
        way == direction,
        step.pan == direction.pan_sign() && step.tilt == direction.tilt_sign(),
        none.pan == 0 && none.tilt == 0,
        still <==> step.pan == 0 && step.tilt == 0,
        distance(bits) == value,
{
}

/// A number is split into four digits of sixteen that read back as it.
pub proof fn four_digits_read_back(value: u16, digits: [u8; 4])
    requires
        call_ensures(nibbles, (value,), digits),
    ensures
        digits@.len() == 4,
        quad_value(digits@) == value,
        forall|place: int| 0 <= place < 4 ==> #[trigger] digits@[place] < 16,
{
    nibbles_carry_the_number(value);
}

/// A hold starts what it holds and stops the same.
pub proof fn a_hold_starts_what_it_stops(hold: Hold, start: Intent, stop: Intent)
    requires
        call_ensures(Hold::start, (hold,), start),
        call_ensures(Hold::stop, (hold,), stop),
    ensures
        runs(start, hold),
        rests(stop, hold),
{
}

/// What one hand leaves alone is filled in from the other, control by control,
/// and nothing is filled in from nothing.
pub proof fn one_hand_fills_in_for_another(first: Drives, second: Drives, both: Drives, none: Drives)
    requires
        call_ensures(Drives::or, (first, second), both),
        call_ensures(Drives::stopped, (), none),
    ensures
        both.pan_tilt == if first.pan_tilt.direction is Stop {
            second.pan_tilt
        } else {
            first.pan_tilt
        },
        both.zoom == if first.zoom is Some {
            first.zoom
        } else {
            second.zoom
        },
        both.focus == if first.focus is Some {
            first.focus
        } else {
            second.focus
        },
        none.pan_tilt.direction is Stop && none.zoom is None && none.focus is None,
{
}

/// The sticks drive what they are pushed to, and the keys what they stand for.
pub proof fn sticks_and_keys_drive(
    pad: &Pad,
    from_pad: Drives,
    keys: KeysDown,
    shift: bool,
    paces: Paces,
    from_keys: Drives,
    key: Key,
    step: Option<Step>,
)
    requires
        call_ensures(drives, (pad,), from_pad),
        call_ensures(held_drives, (keys, shift, paces), from_keys),
        call_ensures(step_for, (key,), step),
    ensures
        from_pad.zoom is Some <==> pad.zoom is Some,
        from_pad.focus is Some <==> pad.focus is Some,
        pad.zoom matches Some(push) ==> (from_pad.zoom->Some_0.direction is In <==> push.positive)
            && from_pad.zoom->Some_0.speed == push.speed,
        pad.focus matches Some(push) ==> (from_pad.focus->Some_0.direction is Far <==> push.positive),
        from_pad.pan_tilt.direction.pan_sign() > 0 <==> pad.pan is Some && pad.pan->Some_0.positive,
        from_pad.pan_tilt.direction.pan_sign() < 0 <==> pad.pan is Some && !pad.pan->Some_0.positive,
        from_pad.pan_tilt.direction.tilt_sign() > 0 <==> pad.tilt is Some
            && pad.tilt->Some_0.positive,
        from_pad.pan_tilt.direction.tilt_sign() < 0 <==> pad.tilt is Some
            && !pad.tilt->Some_0.positive,
        from_keys == key_drives(keys, shift, paces),
        key is ArrowUp ==> step == Some(Step { pan: 0, tilt: 1 }),
        key is ArrowDown ==> step == Some(Step { pan: 0, tilt: (-1) as i16 }),
        key is ArrowLeft ==> step == Some(Step { pan: (-1) as i16, tilt: 0 }),
        key is ArrowRight ==> step == Some(Step { pan: 1, tilt: 0 }),
        step is Some <==> key is ArrowUp || key is ArrowDown || key is ArrowLeft || key
            is ArrowRight,
{
}

/// A digit recalls the first preset whose key is down, and only while nobody is
/// typing.
pub proof fn the_first_digit_down_recalls(
    typing: bool,
    down: &[bool],
    preset: Option<u8>,
    number: u8,
)
    requires
        down@.len() == 6,
        1 <= number <= 6,
        call_ensures(keyboard_preset, (typing, down), preset),
    ensures
        typing ==> preset is None,
        preset == Some(number) <==> !typing && down@[number - 1] && forall|earlier: int|
            0 <= earlier < number - 1 ==> !#[trigger] down@[earlier],
        preset matches Some(number) ==> 1 <= number <= 6 && down@[number - 1],
{
    let chosen = number - 1;
    if preset is Some {
        assert(down@[preset->Some_0 - 1]);
        assert(chosen < preset->Some_0 - 1 ==> !down@[chosen]);
    } else if !typing {
        assert(!any_from(down@, 0));
        assert(!down@[chosen]);
    }
}

/// Codes are drawn one by one, a title reads as its codes are drawn, and only
/// what can be drawn is offered.
pub proof fn codes_are_drawn_one_by_one(
    codes: &[u8],
    text: String,
    title: &Title,
    shown: String,
    offered: Vec<char>,
    character: char,
)
    requires
        call_ensures(decode, (codes,), text),
        call_ensures(Title::text, (title,), shown),
        call_ensures(drawable, (), offered),
    ensures
        text@.len() == codes@.len(),
        forall|place: int|
            0 <= place < codes@.len() ==> #[trigger] text@[place] == drawn(codes@[place]),
        shown@ == title_text(title.0@),
        offered@.contains(character) <==> CHARACTERS@.contains(character) && character
            != REPLACEMENT,
{
    let draws = |one: char| one != REPLACEMENT;
    if offered@.contains(character) {
        let place = choose|place: int| 0 <= place < offered@.len() && offered@[place] == character;
        CHARACTERS@.lemma_filter_contains_rev(draws, offered@[place]);
    }
    if CHARACTERS@.contains(character) && character != REPLACEMENT {
        let place = choose|place: int|
            0 <= place < CHARACTERS@.len() && CHARACTERS@[place] == character;
        CHARACTERS@.lemma_filter_contains(draws, place);
    }
}

/// A title is set by three messages: how it looks, and its two halves in order.
/// One that is refused ends it.
pub proof fn a_title_is_set_by_three_messages(
    title: Title,
    messages: Vec<TitleSet>,
    sent: usize,
    answer: Result<(), Error>,
    next: Result<Option<TitleSet>, Error>,
)
    requires
        sent < 3,
        call_ensures(title_messages, (title,), messages),
        call_ensures(after_message, (title, sent, answer), next),
    ensures
        messages@.len() == 3,
        answer is Err ==> next is Err && next->Err_0 == answer->Err_0,
        answer is Ok ==> next is Ok && (next->Ok_0 is Some <==> sent < 2),
        answer is Ok && sent < 2 ==> next->Ok_0->Some_0.part == messages@[sent + 1].part
            && next->Ok_0->Some_0.payload@ == messages@[sent + 1].payload@,
{
}

/// Of what is still to be done the first is handed out, while anyone listens.
pub proof fn the_first_is_handed_out(direction: PanTiltDirection, label: &'static str)
    requires
        call_ensures(direction_label, (direction,), label),
    ensures
        direction is Up ==> label@ == "up"@,
        direction is Down ==> label@ == "down"@,
        direction is Left ==> label@ == "left"@,
        direction is Right ==> label@ == "right"@,
        direction is UpLeft ==> label@ == "up-left"@,
        direction is UpRight ==> label@ == "up-right"@,
        direction is DownLeft ==> label@ == "down-left"@,
        direction is DownRight ==> label@ == "down-right"@,
        forall|pending: &mut Vec<Intent>, listening: bool, next: Option<Intent>| #[trigger]
            call_ensures(after_delivery, (pending, listening), next) ==> {
                &&& next is Some <==> listening && pending@.len() > 0
                &&& next matches Some(intent) ==> pending@ == seq![intent] + final(pending)@
                &&& next is None ==> final(pending)@ == pending@
            },
{
    assert forall|pending: &mut Vec<Intent>, listening: bool, next: Option<Intent>| #[trigger]
        call_ensures(after_delivery, (pending, listening), next) implies {
        &&& next is Some <==> listening && pending@.len() > 0
        &&& next matches Some(intent) ==> pending@ == seq![intent] + final(pending)@
        &&& next is None ==> final(pending)@ == pending@
    } by {
        if let Some(intent) = next {
            assert(pending@ =~= seq![intent] + pending@.drop_first());
        }
    }
}

/// A preset that was carried out says where it points when the camera will say,
/// and one that wasn't says why.
pub proof fn a_preset_says_where_it_points<P: FnOnce() -> Result<Position, Error>>(
    done: Result<(), Error>,
    position: P,
    found: Position,
    learned: Result<Option<Position>, Error>,
)
    requires
        call_ensures(harvest::<P>, (done, position), learned),
    ensures
        done is Err ==> learned is Err && learned->Err_0 == done->Err_0,
        done is Ok ==> learned is Ok,
        learned == Ok::<Option<Position>, Error>(Some(found)) ==> call_ensures(
            position,
            (),
            Ok::<Position, Error>(found),
        ),
        done is Ok && (forall|answer: Result<Position, Error>| #[trigger]
            call_ensures(position, (), answer) ==> answer == Ok::<Position, Error>(found))
            ==> learned == Ok::<Option<Position>, Error>(Some(found)),
{
}

/// Carrying out an intent gives the kind of answer it is asked for: a snapshot
/// to a query, where it points to a preset, and whether it was done to the rest.
/// A command the camera takes is answered by what the camera answered.
pub proof fn an_intent_is_answered_in_kind<
    E: FnOnce(Command) -> Result<(), Error>,
    P: FnOnce() -> Result<Position, Error>,
    S: FnOnce() -> Result<CameraState, Error>,
>(intent: Intent, execute: E, position: P, state: S, outcome: Outcome)
    requires
        call_ensures(dispatch::<E, P, S>, (intent, execute, position, state), outcome),
    ensures
        intent is QueryState <==> outcome is State,
        intent is RecallPreset || intent is SavePreset <==> outcome is Preset,
        outcome matches Outcome::State(answer) ==> call_ensures(state, (), answer),
        outcome matches Outcome::Done(done, _) ==> done == intent,
        outcome matches Outcome::Preset(done, _) ==> done == intent,
        intent matches Intent::DriveZoom(Some(drive)) ==> (drive.speed <= 7 ==> call_ensures(
            execute,
            (Command::Zoom(
                if drive.direction is In {
                    ZoomCommand::Tele(drive.speed)
                } else {
                    ZoomCommand::Wide(drive.speed)
                },
            ),),
            outcome->Done_1,
        )),
        intent matches Intent::DriveZoom(Some(drive)) ==> (drive.speed > 7 ==> outcome->Done_1
            is Err),
{
}

/// What is kept of the slots is what is written in them.
pub proof fn blank_slots_are_dropped(
    slots: &std::collections::BTreeMap<u8, String>,
    kept: std::collections::BTreeMap<u8, String>,
    slot: u8,
)
    requires
        call_ensures(written, (slots,), kept),
    ensures
        kept@.contains_key(slot) <==> slots@.contains_key(slot) && trimmed(slots@[slot]@).len() > 0,
        kept@.contains_key(slot) ==> kept@[slot]@ == slots@[slot]@,
{
}

/// A file that isn't there is an empty config, one that can't be read or parsed
/// is an error that says so, and any other is what it parses to.
pub proof fn a_config_is_what_its_file_parses_to<P: FnOnce(String) -> Result<Config, String>>(
    reading: Reading,
    parse: P,
    config: Result<Config, ConfigError>,
)
    requires
        call_ensures(load::<P>, (reading, parse), config),
    ensures
        reading is Missing ==> config is Ok && config->Ok_0.is_empty(),
        reading matches Reading::Failed(reason) ==> config is Err && config->Err_0 is Read,
        reading matches Reading::Contents(contents) ==> {
            &&& config is Ok ==> call_ensures(
                parse,
                (contents,),
                Ok::<Config, String>(config->Ok_0),
            )
            &&& config is Err ==> config->Err_0 is Parse
        },
{
}

/// The next rate is tried when one doesn't answer, the first to answer is taken,
/// and when none is left nothing answered.
pub proof fn rates_are_tried_in_turn(
    candidates: &[u32],
    tried: usize,
    answer: Result<VersionInfo, Error>,
    next: ProbeStep,
)
    requires
        tried < candidates@.len(),
        call_ensures(after_attempt, (candidates, tried, answer), next),
    ensures
        answer matches Ok(version) ==> next == ProbeStep::Done(
            ProbeOutcome::Connected {
                baud_rate: candidates@[tried as int],
                version,
            },
        ),
        answer is Err && tried + 1 < candidates@.len() ==> next == ProbeStep::Try(
            candidates@[tried + 1],
        ),
        answer is Err && tried + 1 == candidates@.len() ==> next == ProbeStep::Done(
            ProbeOutcome::NoResponse,
        ),
{
}

/// A camera that was found and opened is the one opened, at the rate found; one
/// that couldn't be opened again is reported with the reason.
pub proof fn a_camera_found_is_the_one_opened<C>(
    baud_rate: u32,
    version: VersionInfo,
    opened: Result<C, Error>,
    connected: Result<Connected<C>, String>,
)
    requires
        call_ensures(connected_at::<C>, (baud_rate, version, opened), connected),
    ensures
        connected is Ok <==> opened is Ok,
        opened matches Ok(camera) ==> {
            &&& connected->Ok_0.camera == camera
            &&& connected->Ok_0.version == version
            &&& connected->Ok_0.link@ == "Connected at "@ + decimal(baud_rate as nat) + " baud"@
        },
        opened matches Err(error) ==> connected->Err_0@
            == "Connected during discovery but the follow-up connection failed: "@ + error_message(
            error,
        ),
{
}

/// A camera's make is its vendor's name where that is known, and its number
/// where it isn't.
pub proof fn a_camera_is_known_by_its_vendor(
    text: &str,
    target: Target,
    vendor: u16,
    name: Option<&'static str>,
    info: &VersionInfo,
    make: String,
    full: String,
    error: &Error,
    message: String,
)
    requires
        call_ensures(Target::named, (text,), target),
        call_ensures(vendor_name, (vendor,), name),
        call_ensures(format_camera, (info,), make),
        call_ensures(format_version, (info,), full),
        call_ensures(Error::message, (error,), message),
    ensures
        names(text@, target),
        name is Some ==> info.vendor == vendor ==> make@ == name->Some_0@,
        full@ == version_words(*info),
        message@ == error_message(*error),
{
}

/// A position is read from three answers, each in its own place.
pub proof fn a_position_is_read_in_its_places<
    P: FnOnce() -> Result<(i16, i16), Error>,
    Z: FnOnce() -> Result<u16, Error>,
    F: FnOnce() -> Result<u16, Error>,
>(pan_tilt: P, zoom: Z, focus: F, position: Result<Position, Error>)
    requires
        call_ensures(query_position::<P, Z, F>, (pan_tilt, zoom, focus), position),
    ensures
        position matches Ok(found) ==> {
            &&& call_ensures(pan_tilt, (), Ok::<(i16, i16), Error>((found.pan, found.tilt)))
            &&& call_ensures(zoom, (), Ok::<u16, Error>(found.zoom))
            &&& call_ensures(focus, (), Ok::<u16, Error>(found.focus))
        },
        position matches Err(error) ==> {
            ||| call_ensures(pan_tilt, (), Err::<(i16, i16), Error>(error))
            ||| call_ensures(zoom, (), Err::<u16, Error>(error))
            ||| call_ensures(focus, (), Err::<u16, Error>(error))
        },
{
}

/// The lens is asked for its place and its mode, and a camera in standby isn't
/// asked for its lens.
pub proof fn a_lens_is_asked_for_of_a_camera_that_is_on<
    P: FnOnce() -> Result<Position, Error>,
    F: FnOnce() -> Result<bool, Error>,
    W: FnOnce() -> Result<bool, Error>,
    L: FnOnce() -> Result<Lens, Error>,
>(
    position: P,
    auto_focus: F,
    read: Result<Lens, Error>,
    power: W,
    lens: L,
    state: Result<CameraState, Error>,
)
    requires
        call_ensures(query_lens::<P, F>, (position, auto_focus), read),
        call_ensures(query_state::<W, L>, (power, lens), state),
    ensures
        read matches Ok(found) ==> {
            &&& call_ensures(position, (), Ok::<Position, Error>(found.position))
            &&& call_ensures(auto_focus, (), Ok::<bool, Error>(found.auto_focus))
        },
        state matches Ok(known) ==> {
            &&& call_ensures(power, (), Ok::<bool, Error>(known.power_on))
            &&& known.lens is Some ==> known.power_on
            &&& known.lens matches Some(found) ==> call_ensures(lens, (), Ok::<Lens, Error>(found))
        },
        state matches Err(error) ==> call_ensures(power, (), Err::<bool, Error>(error)),
{
}

/// A timed drive that was started waits its time before it is stopped, and one
/// that couldn't be started is never waited for.
pub proof fn a_timed_drive_ends_when_its_time_is_up<
    S: FnOnce() -> Result<(), Error>,
    W: FnOnce(u64),
    T: FnOnce() -> Result<(), Error>,
>(start: S, wait: W, stop: T, duration: u64, done: Result<(), Error>)
    requires
        call_ensures(timed_drive::<S, W, T>, (start, wait, stop, duration), done),
    ensures
        done == Ok::<(), Error>(()) ==> {
            &&& call_ensures(start, (), Ok::<(), Error>(()))
            &&& call_ensures(wait, (duration,), ())
            &&& call_ensures(stop, (), Ok::<(), Error>(()))
        },
        done matches Err(error) ==> call_ensures(start, (), Err::<(), Error>(error))
            || call_ensures(stop, (), Err::<(), Error>(error)),
{
}

/// A position and a state read as their texts.
pub proof fn a_state_is_put_into_words(
    position: &Position,
    place: String,
    state: &CameraState,
    text: String,
)
    requires
        call_ensures(format_position, (position,), place),
        call_ensures(format_state, (state,), text),
    ensures
        place@ == position_text(*position),
        text@ == state_text(*state),
{
}

/// A mirror of the camera starts with a query to make, makes one once the last
/// command has settled for 300 milliseconds, and none again until another is sent.
pub proof fn a_query_waits_for_the_last_command(first: Coordinator)
    requires
        call_ensures(Coordinator::new, (), first),
    ensures
        first.pending_state_query && first.last_command_at is None,
        forall|coordinator: &mut Coordinator, now: u64| #[trigger]
            call_ensures(Coordinator::sent, (coordinator, now), ()) ==> {
                &&& final(coordinator).pending_state_query
                &&& final(coordinator).last_command_at == Some(now)
            },
        forall|coordinator: &mut Coordinator, now: u64, due: bool| #[trigger]
            call_ensures(Coordinator::query_due, (coordinator, now), due) ==> {
                &&& due ==> coordinator.pending_state_query
                &&& due ==> !final(coordinator).pending_state_query
                &&& !due ==> *final(coordinator) == *coordinator
                &&& final(coordinator).last_command_at == coordinator.last_command_at
                &&& coordinator.pending_state_query && coordinator.last_command_at is None ==> due
                &&& coordinator.pending_state_query && coordinator.last_command_at is Some
                    && coordinator.last_command_at->Some_0 <= now ==> (due <==> now
                    >= coordinator.last_command_at->Some_0 + 300_000_000)
            },
{
}

/// An outcome is told to a listener as what it is.
pub proof fn an_outcome_is_told_as_it_is(
    outcome: &Outcome,
    event: StatusEvent,
    update: Option<StatusEvent>,
    nothing: Option<StatusEvent>,
    state: &CameraState,
    mirror: Option<crate::bridge::CameraState>,
)
    requires
        call_ensures(StatusEvent::of, (outcome,), event),
        call_ensures(next_update, (true, Some(outcome)), update),
        call_ensures(next_update, (false, Some(outcome)), nothing),
        call_ensures(crate::bridge::CameraState::of, (state,), mirror),
    ensures
        updates(*outcome, event),
        update is Some && updates(*outcome, update->Some_0),
        nothing is None,
        mirror == mirrored(*state),
{
}

/// What a button and a status line say of a preset, a camera and the window.
pub proof fn labels_say_what_they_stand_for(
    number: u8,
    shot: &str,
    recall: String,
    plain: String,
    mark: String,
    link: &str,
    summary: &str,
    line: String,
    locked: bool,
    lock: &'static str,
)
    requires
        call_ensures(recall_tooltip, (number, Some(shot)), recall),
        call_ensures(recall_tooltip, (number, None), plain),
        call_ensures(mark_tooltip, (number,), mark),
        call_ensures(camera_line, (link, summary), line),
        call_ensures(tooltip, (locked,), lock),
    ensures
        plain@ == "Go to preset "@ + decimal(number as nat),
        trimmed(shot@).len() > 0 ==> recall@ == plain@ + (": "@ + trimmed(shot@)),
        trimmed(shot@).len() == 0 ==> recall@ == plain@,
        mark@ == "Store where the camera is pointing now as preset "@ + decimal(number as nat),
        line@ == link@ + " \u{2014} "@ + summary@,
        locked ==> lock@
            == "Marking is locked, so a stray click can't overwrite a preset. Click to allow storing shots."@,
        !locked ==> lock@
            == "Marking is on: the Mark buttons will overwrite presets. Click to lock them again."@,
{
}

/// A window asks for its size and shows itself, asks again only while its size
/// changes, and for no more once it is fitted. A frame after the one it was
/// fitted in takes the room it has.
pub proof fn a_later_frame_takes_the_room(
    fitted_at: u64,
    frame: u64,
    taken: bool,
    before: bool,
    connected: bool,
    same_size: bool,
    first: Vec<FitRequest>,
    again: Vec<FitRequest>,
    done: Vec<FitRequest>,
)
    requires
        call_ensures(takes_the_room, (Some(fitted_at), frame), taken),
        call_ensures(takes_the_room, (None, frame), before),
        call_ensures(fit_requests, (false, false, same_size, connected), first),
        call_ensures(fit_requests, (false, true, same_size, connected), again),
        call_ensures(fit_requests, (true, true, same_size, connected), done),
    ensures
        taken <==> frame > fitted_at,
        !before,
        done@.len() == 0,
        same_size ==> again@.len() == 0,
        first@.len() == 2 + if connected {
            1int
        } else {
            0
        },
        first@[0] is InnerSize && first@[1] is Show,
        connected ==> first@[2] is MinInnerSize,
        !same_size ==> again@.len() == first@.len() - 1 && again@[0] is InnerSize && (connected
            ==> again@[1] is MinInnerSize),
{
}

/// A status says its text, and that it failed exactly when it did; the window's
/// line shows it, and reads ready when there is none.
pub proof fn a_status_says_its_text(
    text: String,
    fine: Status,
    failure: Status,
    app: &App,
    line: (&str, bool),
)
    requires
        call_ensures(Status::ok, (text,), fine),
        call_ensures(Status::failed, (text,), failure),
        call_ensures(App::status_line, (app,), line),
    ensures
        fine.text == text && !fine.failed,
        failure.text == text && failure.failed,
        app.status is None ==> line.0@ == "Ready"@ && !line.1,
        app.status matches Some(status) ==> line.0@ == status.text@ && line.1 == status.failed,
{
}

/// A pad that is in hand drives what its sticks say, as far as the camera takes
/// it, and is remembered; none in hand asks for nothing. Keys drive and step
/// while nobody types.
pub proof fn what_is_in_hand_is_what_drives()
    ensures
        forall|app: &mut App, read: Option<Pad>, asked: (Drives, Vec<Press>)| #[trigger]
            call_ensures(App::controller_input, (app, read), asked) ==> {
                &&& read is None ==> *final(app) == *app && asked.1@.len() == 0 && asked.0
                    == Drives::at_rest()
                &&& read matches Some(pad) ==> {
                    &&& final(app).gamepad.previous == pad.buttons
                    &&& asked.0 == taken(app.camera_state, pad_drives(pad))
                    &&& asked.1@ == pressed(app.gamepad.previous, pad.buttons)
                    &&& final(app).camera_state == app.camera_state
                    &&& final(app).pan_tilt == app.pan_tilt
                }
            },
        forall|
            app: &mut App,
            typing: bool,
            steps: &[Step],
            held: Drives,
            now: u64,
            asked: (Drives, Vec<Intent>),
        | #[trigger]
            call_ensures(App::keyboard_drives, (app, typing, steps, held, now), asked) ==> {
                &&& typing ==> asked.0 == Drives::at_rest() && asked.1@.len() == 0
                &&& !typing ==> asked.0 == taken(app.camera_state, held)
                &&& !typing && app.camera_state is None ==> asked.1@.len() == steps@.len()
                    && forall|place: int|
                    0 <= place < steps@.len() ==> #[trigger] asked.1@[place] == Intent::Nudge(
                        steps@[place],
                    )
                &&& final(app).camera_state == app.camera_state
                &&& final(app).gamepad == app.gamepad
            },
        forall|app: &mut App| #[trigger]
            call_ensures(App::edited, (app,), ()) ==> !final(app).config_unread
                && final(app).camera_state == app.camera_state && final(app).titles == app.titles
                && final(app).preset_labels == app.preset_labels && final(app).connection
                == app.connection,
        forall|app: &mut App, intent: Intent, now: u64| #[trigger]
            call_ensures(App::send_intent, (app, intent, now), ()) && now <= LATEST ==> {
                &&& final(app).next_query_at == Some((now + 300_000_000) as u64)
                &&& final(app).camera_state == app.camera_state
                &&& intent is Home ==> shown(final(app).status) == Some(("home"@ + "..."@, false))
                &&& intent is Nudge ==> shown(final(app).status) == shown(app.status)
            },
{
    reveal_with_fuel(said, 2);
}

/// What a screen says where nothing has been said yet, and how lines are written
/// one under another.
pub proof fn a_screen_says_what_it_was_told(
    state: &AppState,
    body: &str,
    footer: &str,
    summary: &str,
    transcript: Transcript,
)
    requires
        call_ensures(AppState::body, (state,), body),
        call_ensures(AppState::footer, (state,), footer),
        call_ensures(Transcript::opening, (summary,), transcript),
    ensures
        state.camera_state is None ==> body@ == "(no state yet)"@,
        state.camera_state matches Some(text) ==> body@ == text@,
        state.status is None ==> footer@ == KEY_LEGEND@,
        state.status matches Some(text) ==> footer@ == text@,
        transcript.stdout@ == line(summary@) + line(KEY_LEGEND@),
        forall|stdout: &mut Vec<u8>, text: &str| #[trigger]
            call_ensures(write_line, (stdout, text), ()) ==> final(stdout)@ == stdout@ + line(
                text@,
            ),
{
}

/// The flag is seen wherever it stands, and the target is the first argument
/// that isn't it.
pub proof fn arguments_are_told_apart(
    arguments: &[String],
    parsed: Option<(bool, String)>,
    place: int,
)
    requires
        0 <= place < arguments@.len(),
        call_ensures(parse_args, (arguments,), parsed),
    ensures
        !is_flag(arguments@[place]) ==> parsed is Some,
        parsed is Some && is_flag(arguments@[place]) ==> parsed->Some_0.0,
        parsed is Some && !is_flag(arguments@[place]) && (forall|earlier: int|
            0 <= earlier < place ==> is_flag(#[trigger] arguments@[earlier]))
            ==> parsed->Some_0.1@ == arguments@[place]@,
{
    if parsed is None {
        assert(only_flags(arguments@));
        assert(is_flag(arguments@[place]));
    } else {
        assert(exists|found: int| #[trigger]
            names_target(arguments@, found) && parsed->Some_0.1@ == arguments@[found]@);
        let found = choose|found: int| #[trigger]
            names_target(arguments@, found) && parsed->Some_0.1@ == arguments@[found]@;
        assert(!is_flag(arguments@[found]));
    }
}

/// A camera reached over the network is the one opened, with the version it
/// gave, and is known by its address. One that can't be reached, or doesn't say
/// what it is, is reported by the address and the reason.
pub proof fn a_camera_on_the_network_is_known_by_its_address<
    C,
    O: FnOnce() -> Result<C, Error>,
    V: FnOnce(&C) -> Result<VersionInfo, Error>,
>(address: &str, open: O, version: V, error: Error, connected: Result<Connected<C>, String>)
    requires
        call_ensures(connect_tcp::<C, O, V>, (address, open, version), connected),
    ensures
        connected matches Ok(found) ==> {
            &&& call_ensures(open, (), Ok::<C, Error>(found.camera))
            &&& call_ensures(version, (&found.camera,), Ok::<VersionInfo, Error>(found.version))
            &&& found.link@ == "Connected to "@ + address@ + " over TCP"@
        },
        (forall|answer: Result<C, Error>| #[trigger]
            call_ensures(open, (), answer) ==> answer == Err::<C, Error>(error)) ==> connected
            is Err && connected->Err_0@ == "Could not reach "@ + address@ + " over TCP: "@
            + error_message(error),
        (forall|camera: C, answer: Result<VersionInfo, Error>| #[trigger]
            call_ensures(version, (&camera,), answer) ==> answer == Err::<VersionInfo, Error>(
                error,
            )) && (forall|answer: Result<C, Error>| #[trigger]
            call_ensures(open, (), answer) ==> answer is Ok) ==> connected is Err
            && connected->Err_0@ == "Connected to "@ + address@
            + ", but it didn't answer a version inquiry: "@ + error_message(error),
{
}

/// A screen shows what it is told and keeps the rest.
pub proof fn a_screen_shows_what_it_is_told()
    ensures
        forall|state: &mut AppState, text: &str, told: Result<(), Error>| #[trigger]
            call_ensures(<AppState as Report>::status, (state, text), told) ==> {
                &&& told is Ok
                &&& final(state).status is Some ==> final(state).status->Some_0@ == text@
                &&& final(state).camera_state == state.camera_state
            },
{
}

/// An arrow that is seen down keeps the moment it went down and drives once its
/// hold is over; one that is seen up drives nothing, and steps the way it points
/// exactly when it comes up before its hold was over.
pub proof fn an_arrow_is_watched_by_itself<D: Fn(Key) -> bool>(down: D, index: int, held: bool)
    requires
        0 <= index < ARROWS,
        forall|answer: bool| #[trigger]
            call_ensures(down, (arrow_key(index),), answer) ==> answer == held,
    ensures
        forall|arrows: &mut Arrows, now: u64, steps: Vec<PanTiltDirection>| #[trigger]
            call_ensures(Arrows::update::<D>, (arrows, down, now), steps) && (arrows.since@[index]
                matches Some(at) ==> at <= now) ==> {
                let since = arrows.since@[index];
                &&& final(arrows).hold == arrows.hold
                &&& final(arrows).since@[index] == if !held {
                    None
                } else if since is Some {
                    since
                } else {
                    Some(now)
                }
                &&& since is Some ==> (final(arrows).driving@[index] <==> held && since->Some_0
                    + arrows.hold <= now)
                &&& since is None ==> (final(arrows).driving@[index] <==> held && arrows.hold == 0)
                &&& steps@.contains(arrow_way(index)) <==> !held && since is Some && now
                    < since->Some_0 + arrows.hold
            },
{
    assert forall|arrows: &mut Arrows, now: u64, steps: Vec<PanTiltDirection>| #[trigger]
        call_ensures(Arrows::update::<D>, (arrows, down, now), steps) && (arrows.since@[index]
            matches Some(at) ==> at <= now) implies {
        let since = arrows.since@[index];
        &&& final(arrows).hold == arrows.hold
        &&& final(arrows).since@[index] == if !held {
            None
        } else if since is Some {
            since
        } else {
            Some(now)
        }
        &&& since is Some ==> (final(arrows).driving@[index] <==> held && since->Some_0
            + arrows.hold <= now)
        &&& since is None ==> (final(arrows).driving@[index] <==> held && arrows.hold == 0)
        &&& steps@.contains(arrow_way(index)) <==> !held && since is Some && now < since->Some_0
            + arrows.hold
    } by {
        let seen = choose|seen: Seq<bool>| #[trigger]
            watches(*arrows, *final(arrows), down, seen, now, steps@);
        assert(call_ensures(down, (arrow_key(index),), seen[index]));
        assert(final(arrows).since@[index] == down_since(arrows.since@[index], held, now));
        assert(final(arrows).driving@[index] == is_driving(
            arrows.since@[index],
            held,
            arrows.hold,
            now,
        ));
        a_tapped_arrow_steps_once(*arrows, seen, now, ARROWS as nat, index);
        a_press_is_measured_from_when_it_went_down(
            arrows.since@[index],
            held,
            arrows.hold,
            now,
        );
    }
}

/// Arrows start out up and are up again once forgotten, and the four of them are
/// the ones that are watched.
pub proof fn arrows_start_out_up(hold: u64, arrows: Arrows, key: Key, owned: bool, driving: bool)
    requires
        call_ensures(Arrows::new, (hold,), arrows),
        call_ensures(Arrows::owns, (key,), owned),
        call_ensures(Arrows::driving, (&arrows, key), driving),
    ensures
        arrows.hold == hold,
        arrows.all_up(),
        !driving,
        owned <==> key is ArrowUp || key is ArrowDown || key is ArrowLeft || key is ArrowRight,
        forall|watched: &mut Arrows| #[trigger]
            call_ensures(Arrows::forget, (watched,), ()) ==> final(watched).all_up()
                && final(watched).hold == watched.hold,
{
    assert(arrow_key(0) is ArrowUp && arrow_key(1) is ArrowDown && arrow_key(2) is ArrowLeft
        && arrow_key(3) is ArrowRight);
    if driving {
        let index = choose|index: int|
            0 <= index < ARROWS && arrow_key(index) == key && #[trigger] arrows.driving@[index];
        assert(arrows.since@[index] is None);
    }
}

/// A title that was given was taken in three parts, each by the one who sends it:
/// its looks, its first ten characters and its last ten.
pub proof fn a_title_given_was_taken_in_parts<
    A: FnOnce(TitleSet) -> Result<(), Error>,
    F: FnOnce(TitleSet) -> Result<(), Error>,
    S: FnOnce(TitleSet) -> Result<(), Error>,
>(title: Title, appearance: A, first: F, second: S)
    requires
        call_ensures(
            set_title::<A, F, S>,
            (title, appearance, first, second),
            Ok::<(), Error>(()),
        ),
    ensures
        exists|looks: TitleSet, start: TitleSet, end: TitleSet|
            {
                &&& #[trigger] call_ensures(appearance, (looks,), Ok::<(), Error>(()))
                &&& #[trigger] call_ensures(first, (start,), Ok::<(), Error>(()))
                &&& #[trigger] call_ensures(second, (end,), Ok::<(), Error>(()))
                &&& looks.part == 0 && start.part == 1 && end.part == 2
                &&& start.payload@ + end.payload@ == title.0@
            },
{
    let messages = choose|messages: Seq<TitleSet>| #[trigger]
        sets_title(messages, title.0@) && sends(
            messages,
            appearance,
            first,
            second,
            Ok::<(), Error>(()),
        );
    assert(call_ensures(appearance, (messages[0],), Ok::<(), Error>(())));
    assert(call_ensures(first, (messages[1],), Ok::<(), Error>(())));
    assert(call_ensures(second, (messages[2],), Ok::<(), Error>(())));
    assert(messages[1].payload@ + messages[2].payload@ =~= title.0@);
}

/// A config that was saved was put into words, and those words were written once
/// there was a directory to write them in.
pub proof fn a_config_saved_was_written<
    S: FnOnce(&Config) -> Result<String, String>,
    D: FnOnce() -> Result<(), String>,
    W: FnOnce(String) -> Result<(), String>,
>(config: &Config, serialize: S, make_directory: D, write: W, saved: Result<(), ConfigError>)
    requires
        call_ensures(save::<S, D, W>, (config, serialize, make_directory, write), saved),
    ensures
        saved is Ok ==> call_ensures(make_directory, (), Ok::<(), String>(())) && exists|
            contents: String,
        |
            {
                &&& call_ensures(serialize, (config,), Ok::<String, String>(contents))
                &&& #[trigger] call_ensures(write, (contents,), Ok::<(), String>(()))
            },
        saved matches Err(error) ==> error is Serialize || error is Write,
        (forall|answer: Result<String, String>| #[trigger]
            call_ensures(serialize, (config,), answer) ==> answer is Err) ==> saved is Err
            && saved->Err_0 is Serialize,
        (forall|answer: Result<(), String>| #[trigger]
            call_ensures(make_directory, (), answer) ==> answer is Err) ==> saved is Err,
{
}

/// A probe finds the first rate that answers, and gives up only on a list none
/// of whose rates always does.
pub proof fn a_probe_finds_the_first_that_answers<A: Fn(u32) -> Result<VersionInfo, Error>>(
    candidates: &[u32],
    attempt: A,
    place: int,
    outcome: ProbeOutcome,
)
    requires
        0 <= place < candidates@.len(),
        forall|answer: Result<VersionInfo, Error>| #[trigger]
            call_ensures(attempt, (candidates@[place],), answer) ==> answer is Ok,
        call_ensures(discover_baud_rate::<A>, (candidates, attempt), outcome),
    ensures
        outcome is Connected,
        call_ensures(
            attempt,
            (outcome->baud_rate,),
            Ok::<VersionInfo, Error>(outcome->version),
        ),
        exists|found: int| 0 <= found <= place && #[trigger] candidates@[found]
            == outcome->baud_rate,
{
    match outcome {
        ProbeOutcome::Connected { baud_rate, version } => {
            assert(answers_first(candidates@, attempt, baud_rate, version));
            let found = choose|found: int| #[trigger]
                first_answer(candidates@, attempt, found, version) && candidates@[found]
                    == baud_rate;
            if place < found {
                assert(unanswered(attempt, candidates@[place]));
            }
            assert(candidates@[found] == baud_rate);
        },
        ProbeOutcome::NoResponse => {
            assert(none_answers(candidates@, attempt));
            assert(unanswered(attempt, candidates@[place]));
        },
    }
}

/// Everything is handed on to a listener that takes everything, and nothing to
/// one that takes nothing or to a second one.
pub proof fn a_listener_is_handed_what_it_takes<S: Fn(StatusEvent) -> bool>(
    results: &Option<Vec<Outcome>>,
    sink: S,
    answer: bool,
    taken: usize,
)
    requires
        forall|event: StatusEvent, came: bool| #[trigger]
            call_ensures(sink, (event,), came) ==> came == answer,
        call_ensures(subscribe_status::<S>, (results, sink), taken),
    ensures
        results is None ==> taken == 0,
        results matches Some(outcomes) ==> taken == if answer {
            outcomes@.len()
        } else {
            0
        },
{
    if let Some(outcomes) = results {
        if answer {
            if taken < outcomes@.len() {
                assert(answered(sink, outcomes@[taken as int], false));
            }
        } else if taken > 0 {
            assert(answered(sink, outcomes@[0], true));
        }
    }
}

/// A batch goes on to its end while its answers are taken.
pub proof fn a_batch_goes_on_while_it_is_heard<
    C: Fn(Intent) -> Outcome,
    D: Fn(Outcome) -> bool,
>(batch: &[Intent], carry_out: C, deliver: D, answer: bool, listening: bool)
    requires
        forall|outcome: Outcome, came: bool| #[trigger]
            call_ensures(deliver, (outcome,), came) ==> came == answer,
        call_ensures(run_batch::<C, D>, (batch, carry_out, deliver), listening),
    ensures
        answer ==> listening,
        !answer && coalesce(batch@).len() > 0 ==> !listening,
{
    let kept = coalesce(batch@);
    if !listening {
        let refused = choose|refused: int|
            0 <= refused < kept.len() && delivered(
                #[trigger] kept[refused],
                carry_out,
                deliver,
                false,
            );
        assert(delivered(kept[refused], carry_out, deliver, false));
    } else if kept.len() > 0 {
        assert(all_delivered(kept, carry_out, deliver));
        assert(delivered(kept[0], carry_out, deliver, true));
    }
}

} // verus!
