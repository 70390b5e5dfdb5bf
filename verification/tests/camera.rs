use std::cell::{Cell, RefCell};
use std::time::Duration;

use grafton_visca::camera::profiles::GenericVisca;
use grafton_visca::command::PanTiltDirection as Head;
use grafton_visca::command::{
    CommandBehavior, FocusMode, InquiryResponseSpec, PanTilt, PresetNumber,
    ViscaCommand,
};
use grafton_visca::mode::BlockingFutureExt;
use grafton_visca::testing::testkit::{helpers, ScriptedBlockingTransport, Step as Scripted};
use grafton_visca::timeout::Deadline;
use grafton_visca::types::{PanSpeed, TiltSpeed, ZoomSpeed};
use grafton_visca::{BlockingClient, CameraId};

use viscous::connection::{
    after_attempt, connect_serial, connect_tcp, connected_at, discover_baud_rate, no_response,
    ProbeOutcome, ProbeStep, VersionInfo,
};
use viscous::deflection::Push;
use viscous::error::Error;
use viscous::focus::{FocusCommand, FocusDirection, FocusDrive};
use viscous::nudge::Step;
use viscous::pan_tilt::{velocity_from_axes, PanTiltDirection, Velocity, MAX_PAN_SPEED};
use viscous::power::{PowerCommand, PowerOn};
use viscous::preset::PresetCommand;
use viscous::rocker::SpeedLevel;
use viscous::shot::{go_to, AbsolutePosition, Travel};
use viscous::state::{query_lens, query_position, query_state, CameraState, Lens, Position};
use viscous::title::{
    after_message, set_title, show_title, supported, Title, TitleDisplay, TitleDisplayInquiry, TitleSet, SPACE,
};
use viscous::worker::{after_delivery, command, dispatch, run_batch, Command, Intent, Outcome};
use viscous::zoom::{ZoomCommand, ZoomDirection, ZoomDrive};

type Camera = BlockingClient<GenericVisca, ScriptedBlockingTransport>;

fn scripted(replies: Vec<Scripted>) -> (Camera, ScriptedBlockingTransport) {
    let transport = ScriptedBlockingTransport::new(replies);
    let camera = grafton_visca::CameraBuilder::new()
        .build_blocking::<GenericVisca, _>(transport.clone())
        .expect("camera should build from a scripted transport");
    (camera, transport)
}

fn acknowledging(count: usize) -> (Camera, ScriptedBlockingTransport) {
    scripted(
        (0..count)
            .map(|_| helpers::standard_command_response(1))
            .collect(),
    )
}

/// The reply a camera gives to something it won't do in its current state.
fn refusal() -> Scripted {
    Scripted::OnSend {
        matches: None,
        responses: vec![helpers::not_executable(1)],
    }
}

fn plain(error: grafton_visca::Error) -> Error {
    match error {
        grafton_visca::Error::SyntaxError => Error::SyntaxError,
        other => Error::Other(other.to_string()),
    }
}

fn outside(error: Error) -> grafton_visca::Error {
    match error {
        Error::BufferTooSmall { required, actual } => {
            grafton_visca::Error::BufferTooSmall { required, actual }
        }
        _ => grafton_visca::Error::SyntaxError,
    }
}

/// A message that the library writes.
enum Message {
    Wake(PowerOn),
    Shot(AbsolutePosition),
    Title(TitleSet),
    Display(TitleDisplay),
    Inquiry(TitleDisplayInquiry),
}

impl ViscaCommand for Message {
    const MAX_SIZE: usize = 16;

    fn encoded_size(&self) -> usize {
        match self {
            Message::Wake(_) | Message::Display(_) => 6,
            Message::Shot(_) => 15,
            Message::Title(_) => 16,
            Message::Inquiry(_) => 5,
        }
    }

    fn write_into(
        &self,
        camera_id: CameraId,
        buffer: &mut [u8],
    ) -> Result<usize, grafton_visca::Error> {
        let camera = camera_id.id();
        match self {
            Message::Wake(message) => message.write_into(camera, buffer),
            Message::Shot(message) => message.write_into(camera, buffer),
            Message::Title(message) => message.write_into(camera, buffer),
            Message::Display(message) => message.write_into(camera, buffer),
            Message::Inquiry(message) => message.write_into(camera, buffer),
        }
        .map_err(outside)
    }

    fn behavior(&self) -> CommandBehavior {
        match self {
            Message::Inquiry(_) => CommandBehavior::Inquiry(InquiryResponseSpec::Raw),
            _ => CommandBehavior::Command,
        }
    }
}

fn direction(direction: PanTiltDirection) -> Head {
    match direction {
        PanTiltDirection::Up => Head::Up,
        PanTiltDirection::Down => Head::Down,
        PanTiltDirection::Left => Head::Left,
        PanTiltDirection::Right => Head::Right,
        PanTiltDirection::UpLeft => Head::UpLeft,
        PanTiltDirection::UpRight => Head::UpRight,
        PanTiltDirection::DownLeft => Head::DownLeft,
        PanTiltDirection::DownRight => Head::DownRight,
        PanTiltDirection::Stop => Head::Stop,
    }
}

fn level(level: SpeedLevel) -> grafton_visca::types::SpeedLevel {
    match level {
        SpeedLevel::Slowest => grafton_visca::types::SpeedLevel::Slowest,
        SpeedLevel::Slow => grafton_visca::types::SpeedLevel::Slow,
        SpeedLevel::Medium => grafton_visca::types::SpeedLevel::Medium,
        SpeedLevel::Fast => grafton_visca::types::SpeedLevel::Fast,
        SpeedLevel::Fastest => grafton_visca::types::SpeedLevel::Fastest,
    }
}

/// Has the camera do one command.
fn execute(camera: &Camera, command: Command) -> Result<(), Error> {
    match command {
        Command::Drive(velocity) => camera.pan_tilt_move(
            direction(velocity.direction),
            PanSpeed::new(velocity.pan_speed).map_err(plain)?,
            TiltSpeed::new(velocity.tilt_speed).map_err(plain)?,
        ),
        Command::Move(distance) => camera.execute(PanTilt::RelativePositionRaw {
            pan_u16: distance.pan,
            tilt_u16: distance.tilt,
            pan_speed: PanSpeed::new(distance.pan_speed).map_err(plain)?,
            tilt_speed: TiltSpeed::new(distance.tilt_speed).map_err(plain)?,
        }),
        Command::Zoom(ZoomCommand::Tele(speed)) => {
            camera.zoom_tele(Some(ZoomSpeed::new(speed).map_err(plain)?))
        }
        Command::Zoom(ZoomCommand::Wide(speed)) => {
            camera.zoom_wide(Some(ZoomSpeed::new(speed).map_err(plain)?))
        }
        Command::Zoom(ZoomCommand::Stop) => camera.zoom_stop(),
        Command::Focus(FocusCommand::Near(speed)) => {
            camera.focus_near(level(speed))
        }
        Command::Focus(FocusCommand::Far(speed)) => {
            camera.focus_far(level(speed))
        }
        Command::Focus(FocusCommand::Stop) => camera.focus_stop(),
        Command::Focus(FocusCommand::Auto) => camera.focus_auto(),
        Command::Focus(FocusCommand::Manual) => camera.focus_manual(),
        Command::Preset(PresetCommand::Recall(number)) => {
            camera.preset_recall(PresetNumber::new(number).map_err(plain)?)
        }
        Command::Preset(PresetCommand::Save(number)) => {
            camera.preset_set(PresetNumber::new(number).map_err(plain)?)
        }
        Command::Home => camera.pan_tilt_home(),
        Command::Reset => camera.pan_tilt_reset(),
        Command::Power(PowerCommand::On(message)) => camera.execute(Message::Wake(message)),
        Command::Power(PowerCommand::Off) => camera.power_off(),
        Command::Title(title) => {
            let send = |message| camera.execute(Message::Title(message)).map_err(plain);
            return set_title(title, send, send, send);
        }
        Command::Display(message) => camera.execute(Message::Display(message)),
        Command::Nothing => Ok(()),
    }
    .map_err(plain)
}

fn position_of(camera: &Camera) -> Result<Position, Error> {
    query_position(
        || {
            camera
                .pan_tilt_position()
                .map(|aim| (aim.pan, aim.tilt))
                .map_err(plain)
        },
        || camera.zoom_position().map(|at| at.value()).map_err(plain),
        || camera.focus_position().map(|at| at.value()).map_err(plain),
    )
}

fn state_of(camera: &Camera) -> Result<CameraState, Error> {
    query_state(
        || camera.power_state().map_err(plain),
        || {
            query_lens(
                || position_of(camera),
                || {
                    camera
                        .focus_mode()
                        .map(|mode| mode == FocusMode::Auto)
                        .map_err(plain)
                },
            )
        },
    )
}

fn dispatched(camera: &Camera, intent: Intent) -> Outcome {
    dispatch(
        intent,
        |command| execute(camera, command),
        || position_of(camera),
        || state_of(camera),
    )
}

/// Everything that comes of a batch that piled up.
fn run(camera: &Camera, batch: &[Intent]) -> Vec<Outcome> {
    let outcomes = RefCell::new(Vec::new());
    let listening = run_batch(
        batch,
        |intent| dispatched(camera, intent),
        |outcome| {
            outcomes.borrow_mut().push(outcome);
            true
        },
    );
    assert!(listening);
    outcomes.into_inner()
}

#[test]
fn a_batch_is_handed_out_one_intent_at_a_time() {
    let mut pending = vec![Intent::Home, Intent::ResetPanTilt, Intent::QueryState];

    assert_eq!(after_delivery(&mut pending, true), Some(Intent::Home));
    assert_eq!(pending, vec![Intent::ResetPanTilt, Intent::QueryState]);
    assert_eq!(after_delivery(&mut pending, false), None);
    assert_eq!(after_delivery(&mut pending, true), Some(Intent::ResetPanTilt));
    assert_eq!(after_delivery(&mut pending, true), Some(Intent::QueryState));
    assert_eq!(after_delivery(&mut pending, true), None);
    assert!(pending.is_empty());
}

#[test]
fn a_batch_stops_once_nobody_listens() {
    let (camera, transport) = acknowledging(3);

    let listening = run_batch(
        &[Intent::Home, Intent::ResetPanTilt],
        |intent| dispatched(&camera, intent),
        |_| false,
    );

    assert!(!listening);
    assert_eq!(transport.sent().len(), 1);
}

fn full(positive: bool, speed: u8) -> Option<Push> {
    Some(Push { positive, speed })
}

fn zoom_in() -> ZoomDrive {
    ZoomDrive {
        direction: ZoomDirection::In,
        speed: 4,
    }
}

/// Whether a camera that acknowledges one command takes this intent.
fn taken(intent: Intent) -> bool {
    let (camera, _) = acknowledging(1);
    matches!(dispatched(&camera, intent), Outcome::Done(done, Ok(())) if done == intent)
}

#[test]
fn a_step_goes_out_as_a_relative_move_of_one_unit_at_the_slowest_speed() {
    let (camera, transport) = acknowledging(1);

    let outcome = dispatched(
        &camera,
        Intent::Nudge(Step::towards(PanTiltDirection::Right)),
    );

    assert!(matches!(outcome, Outcome::Done(_, Ok(()))));
    assert_eq!(
        transport.sent(),
        vec![vec![
            0x81, 0x01, 0x06, 0x03, 0x01, 0x01, 0x00, 0x00, 0x00, 0x01, 0x00, 0x00, 0x00, 0x00,
            0xFF
        ]]
    );
}

#[test]
fn a_step_the_other_way_is_the_same_distance_backwards() {
    let (camera, transport) = acknowledging(1);

    dispatched(
        &camera,
        Intent::Nudge(Step::towards(PanTiltDirection::Left)),
    );

    // -1 in two's complement is 0xFFFF, which is 0F 0F 0F 0F on the wire.
    assert_eq!(transport.sent()[0][6..10], [0x0F, 0x0F, 0x0F, 0x0F]);
}

#[test]
fn a_step_nowhere_is_not_sent_at_all() {
    let (camera, transport) = scripted(Vec::new());

    let outcome = dispatched(&camera, Intent::Nudge(Step::still()));

    assert!(matches!(outcome, Outcome::Done(_, Ok(()))));
    assert!(
        transport.sent().is_empty(),
        "a step going nowhere should cost the camera nothing"
    );
}

#[test]
fn home_and_reset_each_reach_the_camera() {
    assert!(taken(Intent::Home));
    assert!(taken(Intent::ResetPanTilt));
}

#[test]
fn drive_sends_a_move_command() {
    let (camera, transport) = acknowledging(1);
    let velocity = velocity_from_axes(full(true, 12), full(true, 10));

    let outcome = dispatched(&camera, Intent::DrivePanTilt(velocity));

    assert!(matches!(outcome, Outcome::Done(_, Ok(()))));
    assert_eq!(
        transport.sent(),
        vec![vec![0x81, 0x01, 0x06, 0x01, 12, 10, 0x02, 0x01, 0xFF]]
    );
}

#[test]
fn drive_sends_a_stop_command() {
    let (camera, transport) = acknowledging(1);

    let outcome = dispatched(&camera, Intent::DrivePanTilt(Velocity::stop()));

    assert!(matches!(outcome, Outcome::Done(_, Ok(()))));
    assert_eq!(
        transport.sent(),
        vec![vec![0x81, 0x01, 0x06, 0x01, 1, 1, 0x03, 0x03, 0xFF]]
    );
}

#[test]
fn a_drive_out_of_range_never_reaches_the_camera() {
    let (camera, transport) = acknowledging(1);
    let too_fast = Velocity {
        pan_speed: MAX_PAN_SPEED + 1,
        ..Velocity::stop()
    };

    let outcome = dispatched(&camera, Intent::DrivePanTilt(too_fast));

    assert!(matches!(
        outcome,
        Outcome::Done(_, Err(Error::ParameterOutOfRange { value: 25, .. }))
    ));
    assert!(transport.sent().is_empty());
}

#[test]
fn drive_zoom_starts_a_drive_in_each_direction() {
    assert!(taken(Intent::DriveZoom(Some(zoom_in()))));
    assert!(taken(Intent::DriveZoom(Some(ZoomDrive {
        direction: ZoomDirection::Out,
        speed: 4
    }))));
}

#[test]
fn drive_zoom_stops_the_drive_when_given_no_direction() {
    assert!(taken(Intent::DriveZoom(None)));
}

fn focus(direction: FocusDirection) -> Intent {
    Intent::DriveFocus(Some(FocusDrive {
        direction,
        speed: SpeedLevel::Medium,
    }))
}

#[test]
fn drive_focus_starts_a_drive_in_each_direction() {
    assert!(taken(focus(FocusDirection::Near)));
    assert!(taken(focus(FocusDirection::Far)));
}

#[test]
fn drive_focus_stops_the_drive_when_given_no_direction() {
    assert!(taken(Intent::DriveFocus(None)));
}

#[test]
fn set_auto_focus_switches_the_camera_both_ways() {
    assert!(taken(Intent::SetAutoFocus(true)));
    assert!(taken(Intent::SetAutoFocus(false)));
}

#[test]
fn set_power_switches_the_camera_both_ways() {
    let (camera, transport) = acknowledging(1);
    dispatched(&camera, Intent::SetPower(true));
    assert_eq!(
        transport.sent(),
        vec![vec![0x81, 0x01, 0x04, 0x00, 0x02, 0xFF]]
    );

    let (camera, transport) = acknowledging(1);
    dispatched(&camera, Intent::SetPower(false));
    assert_eq!(
        transport.sent(),
        vec![vec![0x81, 0x01, 0x04, 0x00, 0x03, 0xFF]]
    );
}

fn somewhere() -> Position {
    Position {
        pan: -120,
        tilt: 45,
        zoom: 0x1000,
        focus: 0x2000,
    }
}

/// A `y0 50 … FF` inquiry reply carrying each value as four nibbles.
fn inquiry_reply(values: &[u16]) -> Vec<u8> {
    let mut reply = vec![0x90, 0x50];
    for value in values {
        reply.extend(
            (0..4)
                .rev()
                .map(|nibble| (value >> (nibble * 4)) as u8 & 0x0F),
        );
    }
    reply.push(0xFF);
    reply
}

fn answers(inquiry: [u8; 2], values: &[u16]) -> Scripted {
    helpers::inquiry_response(
        vec![0x81, 0x09, inquiry[0], inquiry[1], 0xFF],
        1,
        inquiry_reply(values),
    )
}

/// What a camera standing at `position` replies to the three inquiries after
/// it, in the order they are made.
fn reports(position: Position) -> Vec<Scripted> {
    vec![
        answers([0x06, 0x12], &[position.pan as u16, position.tilt as u16]),
        answers([0x04, 0x47], &[position.zoom]),
        answers([0x04, 0x48], &[position.focus]),
    ]
}

#[test]
fn recall_preset_sends_a_recall_command() {
    let (camera, transport) = acknowledging(1);
    dispatched(&camera, Intent::RecallPreset(3));
    assert_eq!(
        transport.sent()[0],
        vec![0x81, 0x01, 0x04, 0x3F, 0x02, 0x02, 0xFF]
    );
}

#[test]
fn save_preset_sends_a_set_command() {
    let (camera, transport) = acknowledging(1);
    dispatched(&camera, Intent::SavePreset(3));
    assert_eq!(
        transport.sent()[0],
        vec![0x81, 0x01, 0x04, 0x3F, 0x01, 0x02, 0xFF]
    );
}

#[test]
fn recalling_a_preset_reads_back_where_it_left_the_camera() {
    let mut replies = vec![helpers::standard_command_response(1)];
    replies.extend(reports(somewhere()));
    let (camera, _) = scripted(replies);

    let outcome = dispatched(&camera, Intent::RecallPreset(1));

    assert!(matches!(outcome, Outcome::Preset(_, Ok(Some(at))) if at == somewhere()));
}

#[test]
fn marking_a_preset_reads_back_where_it_was_marked() {
    let mut replies = vec![helpers::standard_command_response(1)];
    replies.extend(reports(somewhere()));
    let (camera, _) = scripted(replies);

    let outcome = dispatched(&camera, Intent::SavePreset(3));

    assert!(matches!(outcome, Outcome::Preset(_, Ok(Some(at))) if at == somewhere()));
}

#[test]
fn a_preset_command_still_succeeds_when_the_camera_will_not_say_where_it_is() {
    let (camera, _) = acknowledging(1);

    let outcome = dispatched(&camera, Intent::RecallPreset(1));

    assert!(matches!(outcome, Outcome::Preset(_, Ok(None))));
}

#[test]
fn a_preset_command_that_failed_leaves_the_camera_somewhere_unknown() {
    let (camera, _) = scripted(vec![helpers::errors::syntax_error(1)]);

    let outcome = dispatched(&camera, Intent::RecallPreset(1));

    assert!(matches!(
        outcome,
        Outcome::Preset(_, Err(Error::SyntaxError))
    ));
}

#[test]
fn run_dispatches_each_intent_and_reports_its_result() {
    let (camera, _) = acknowledging(2);

    let outcomes = run(
        &camera,
        &[Intent::Home, Intent::DriveZoom(Some(zoom_in()))],
    );

    assert_eq!(outcomes.len(), 2, "no further results expected");
    assert!(
        matches!(outcomes[0], Outcome::Done(_, Ok(()))),
        "home should succeed"
    );
    assert!(
        matches!(outcomes[1], Outcome::Done(_, Ok(()))),
        "zoom drive should succeed"
    );
}

#[test]
fn run_reports_command_errors_without_stopping() {
    let (camera, _) = scripted(vec![
        helpers::errors::syntax_error(1),
        helpers::standard_command_response(1),
    ]);

    let outcomes = run(&camera, &[Intent::Home, Intent::Home]);

    assert!(
        matches!(outcomes[0], Outcome::Done(_, Err(_))),
        "first command was scripted to fail"
    );
    assert!(
        matches!(outcomes[1], Outcome::Done(_, Ok(()))),
        "second command should still run"
    );
}

#[test]
fn run_sends_only_the_last_of_a_queued_run_of_drive_commands() {
    // A single scripted reply, so a second drive command reaching the camera
    // would fail rather than silently pass.
    let (camera, _) = acknowledging(1);
    let drive = |positive| Intent::DrivePanTilt(velocity_from_axes(full(positive, 12), None));

    let outcomes = run(
        &camera,
        &[
            drive(true),
            drive(false),
            Intent::DrivePanTilt(Velocity::stop()),
        ],
    );

    assert_eq!(outcomes.len(), 1, "no further results expected");
    assert!(
        matches!(
            outcomes[0],
            Outcome::Done(Intent::DrivePanTilt(velocity), Ok(())) if velocity.is_stop()
        ),
        "only the stop should have been sent"
    );
}

#[test]
fn query_state_intent_reports_state() {
    let (camera, _) = scripted(vec![
        helpers::power_inquiry_response(true),
        helpers::errors::syntax_error(1),
    ]);

    assert!(matches!(
        dispatched(&camera, Intent::QueryState),
        Outcome::State(_)
    ));
}

#[test]
fn run_dispatches_the_one_off_camera_commands() {
    let intents = [
        Intent::Home,
        Intent::ResetPanTilt,
        Intent::SetPower(false),
        Intent::SetAutoFocus(true),
        Intent::Nudge(Step::towards(PanTiltDirection::Left)),
    ];
    let (camera, _) = acknowledging(intents.len());

    let outcomes = run(&camera, &intents);

    for (intent, outcome) in intents.into_iter().zip(outcomes) {
        assert!(
            matches!(outcome, Outcome::Done(done, Ok(())) if done == intent),
            "{intent:?} should reach the camera"
        );
    }
}

#[test]
fn a_sleeping_camera_reports_its_power_and_is_not_asked_anything_else() {
    // One scripted reply, so a lens inquiry would find nothing to answer it.
    let (camera, transport) = scripted(vec![helpers::power_inquiry_response(false)]);

    let state = state_of(&camera).expect("standby is an answer, not a failure");

    assert!(!state.power_on);
    assert!(state.lens.is_none());
    assert_eq!(transport.sent().len(), 1);
}

#[test]
fn a_camera_that_will_not_answer_for_its_lens_yet_still_reports_its_power() {
    let (camera, _) = scripted(vec![helpers::power_inquiry_response(true), refusal()]);

    let state = state_of(&camera).expect("a refused lens inquiry is not a failed snapshot");

    assert!(state.power_on);
    assert!(state.lens.is_none());
}

#[test]
fn a_camera_that_answers_nothing_at_all_is_a_failed_snapshot() {
    let (camera, _) = scripted(vec![refusal()]);

    assert!(state_of(&camera).is_err());
}

#[test]
fn a_position_keeps_each_axis_the_camera_reported_it_for() {
    let (camera, _) = scripted(reports(somewhere()));

    let position = position_of(&camera).expect("the camera answered every inquiry");

    assert_eq!(position, somewhere());
}

#[test]
fn a_position_the_camera_will_not_finish_reporting_is_not_guessed_at() {
    let mut replies = reports(somewhere());
    replies.truncate(1);
    replies.push(refusal());
    let (camera, _) = scripted(replies);

    assert!(position_of(&camera).is_err());
}

#[test]
fn the_first_question_that_goes_unanswered_ends_the_asking() {
    let unanswered = || Err(Error::Other("Operation timed out".to_string()));
    let asked = Cell::new(0);

    let position = query_position(
        || Ok((1, 2)),
        unanswered,
        || {
            asked.set(asked.get() + 1);
            Ok(3)
        },
    );
    assert!(position.is_err());
    assert_eq!(asked.get(), 0);

    let lens = query_lens(|| Ok(somewhere()), || Ok(true));
    assert!(
        matches!(lens, Ok(Lens { position, auto_focus: true }) if position == somewhere())
    );
}

#[test]
fn set_title_sends_the_appearance_then_the_characters_in_two_halves() {
    let (camera, transport) = acknowledging(3);

    let outcome = dispatched(&camera, Intent::SetTitle(Title::new("PODIUM")));

    assert!(matches!(outcome, Outcome::Done(_, Ok(()))));
    let sent = transport.sent();
    assert_eq!(sent.len(), 3);
    assert_eq!(
        sent[0],
        vec![0x81, 0x01, 0x04, 0x73, 0x00, 0x0A, 0x00, 0x00, 0x00, 0, 0, 0, 0, 0, 0, 0xFF]
    );
    assert_eq!(
        sent[1],
        vec![
            0x81, 0x01, 0x04, 0x73, 0x01, // P O D I U M, then padding
            0x0F, 0x0E, 0x03, 0x08, 0x14, 0x0C, SPACE, SPACE, SPACE, SPACE, 0xFF
        ]
    );
    assert_eq!(&sent[2][..5], &[0x81, 0x01, 0x04, 0x73, 0x02]);
    assert!(sent[2][5..15].iter().all(|code| *code == SPACE));
}

#[test]
fn a_refused_part_of_a_title_ends_the_sending() {
    let (camera, transport) = scripted(vec![
        helpers::standard_command_response(1),
        helpers::errors::syntax_error(1),
        helpers::standard_command_response(1),
    ]);

    let outcome = dispatched(&camera, Intent::SetTitle(Title::new("PODIUM")));

    assert!(matches!(outcome, Outcome::Done(_, Err(Error::SyntaxError))));
    assert_eq!(transport.sent().len(), 2);
}

#[test]
fn each_part_of_a_title_follows_the_one_before_it() {
    let title = Title::new("PODIUM");

    let second = after_message(title, 0, Ok(())).expect("the appearance was taken");
    assert_eq!(second.map(|message| message.part), Some(0x01));
    assert_eq!(second.map(|message| message.payload[0]), Some(0x0F));
    let third = after_message(title, 1, Ok(())).expect("the first half was taken");
    assert_eq!(third.map(|message| message.part), Some(0x02));
    assert_eq!(third.map(|message| message.payload), Some([SPACE; 10]));
    let last = after_message(title, 2, Ok(())).expect("the second half was taken");
    assert!(last.is_none());

    assert!(matches!(
        after_message(title, 1, Err(Error::SyntaxError)),
        Err(Error::SyntaxError)
    ));
}

#[test]
fn a_zoom_the_camera_has_no_speed_for_is_not_sent() {
    let (camera, transport) = acknowledging(1);
    let intent = Intent::DriveZoom(Some(ZoomDrive {
        direction: ZoomDirection::Out,
        speed: 8,
    }));

    assert!(matches!(
        command(intent),
        Err(Error::ParameterOutOfRange { parameter: "ZoomSpeed", value: 8, min: 0, max: 7 })
    ));
    let outcome = dispatched(&camera, intent);
    assert!(matches!(
        outcome,
        Outcome::Done(_, Err(Error::ParameterOutOfRange { .. }))
    ));
    assert!(transport.sent().is_empty());
}

#[test]
fn show_title_turns_the_display_on_and_off() {
    let (camera, transport) = acknowledging(2);

    run(&camera, &[Intent::ShowTitle(true), Intent::ShowTitle(false)]);

    assert_eq!(
        transport.sent(),
        vec![
            vec![0x81, 0x01, 0x04, 0x74, 0x02, 0xFF],
            vec![0x81, 0x01, 0x04, 0x74, 0x03, 0xFF],
        ]
    );
    assert_eq!(show_title(true), TitleDisplay(0x02));
}

fn has_titles(camera: &Camera) -> bool {
    let answer = camera
        .send_command_with_deadline(
            &Message::Inquiry(TitleDisplayInquiry),
            Deadline::from_timeout(Duration::from_secs(2)),
        )
        .block();
    supported(&answer.map(|_| ()).map_err(plain))
}

#[test]
fn a_camera_that_answers_the_title_inquiry_has_titles() {
    let (camera, transport) = scripted(vec![helpers::inquiry_response(
        vec![0x81, 0x09, 0x04, 0x74, 0xFF],
        1,
        // "showing", which is as much as this camera has to say about it.
        vec![0x90, 0x50, 0x02, 0xFF],
    )]);

    assert!(has_titles(&camera));
    assert_eq!(transport.sent(), vec![vec![0x81, 0x09, 0x04, 0x74, 0xFF]]);
}

#[test]
fn a_camera_that_calls_the_title_inquiry_a_syntax_error_has_no_titles() {
    let (camera, _) = scripted(vec![helpers::errors::syntax_error(1)]);

    assert!(!has_titles(&camera));
}

#[test]
fn a_camera_that_cannot_answer_the_title_inquiry_yet_keeps_its_titles() {
    let (camera, _) = scripted(vec![refusal()]);

    assert!(has_titles(&camera));
}

fn shot() -> Position {
    Position {
        pan: 0x0123,
        tilt: 0x0456,
        zoom: 0x1000,
        focus: 0x2000,
    }
}

#[test]
fn going_to_a_shot_asks_for_its_coordinates_at_the_speed_given() {
    let (camera, transport) = acknowledging(1);
    let command = go_to(
        shot(),
        Travel {
            pan_speed: 5,
            tilt_speed: 3,
        },
    )
    .expect("the speeds are the camera's own");

    camera
        .execute(Message::Shot(command))
        .expect("scripted camera should ack and complete the move");

    assert_eq!(
        transport.sent(),
        vec![vec![
            0x81, 0x01, 0x06, 0x02, 0x05, 0x03, // speeds
            0x00, 0x01, 0x02, 0x03, // pan
            0x00, 0x04, 0x05, 0x06, // tilt
            0xFF,
        ]]
    );
}

#[test]
fn a_shot_left_of_centre_travels_there_rather_than_the_long_way_round() {
    let (camera, transport) = acknowledging(1);
    let command = go_to(
        Position {
            pan: -1,
            tilt: -2,
            ..shot()
        },
        Travel {
            pan_speed: 1,
            tilt_speed: 1,
        },
    )
    .expect("the speeds are the camera's own");

    camera
        .execute(Message::Shot(command))
        .expect("scripted camera should ack and complete the move");

    let sent = transport.sent();
    assert_eq!(
        &sent[0][6..14],
        &[0x0F, 0x0F, 0x0F, 0x0F, 0x0F, 0x0F, 0x0F, 0x0E],
        "negative coordinates go on the wire as two's complement"
    );
}

#[test]
fn a_speed_the_camera_has_no_such_gear_for_is_refused_before_it_is_sent() {
    let too_fast = go_to(
        shot(),
        Travel {
            pan_speed: MAX_PAN_SPEED + 1,
            tilt_speed: 1,
        },
    );

    assert!(too_fast.is_err());
}

fn sample_version() -> VersionInfo {
    VersionInfo {
        vendor: 0x0001,
        model: 0x0002,
        rom_version: 0x0304,
        max_socket: 2,
    }
}

fn version_of(camera: &Camera) -> Result<VersionInfo, Error> {
    camera
        .system()
        .version()
        .map(|info| VersionInfo {
            vendor: info.vendor,
            model: info.model,
            rom_version: info.rom_version,
            max_socket: info.max_socket,
        })
        .map_err(plain)
}

fn version_reply() -> Scripted {
    helpers::inquiry_response(
        vec![0x81, 0x09, 0x00, 0x02, 0xFF],
        1,
        vec![0x90, 0x50, 0x00, 0x01, 0x00, 0x02, 0x03, 0x04, 0x02, 0xFF],
    )
}

#[test]
fn query_version_reads_a_scripted_camera_reply() {
    let (camera, _) = scripted(vec![version_reply()]);

    let version = version_of(&camera).expect("scripted camera should reply");

    assert_eq!(version, sample_version());
}

fn timeout() -> Error {
    Error::Other("Operation timed out".to_string())
}

#[test]
fn discover_baud_rate_returns_first_successful_candidate() {
    let outcome = discover_baud_rate(&[9600, 38400], |baud_rate| {
        if baud_rate == 9600 {
            Ok(sample_version())
        } else {
            panic!("should not try a second candidate after the first succeeds")
        }
    });

    assert_eq!(
        outcome,
        ProbeOutcome::Connected {
            baud_rate: 9600,
            version: sample_version(),
        }
    );
}

#[test]
fn discover_baud_rate_falls_back_to_next_candidate_on_error() {
    let outcome = discover_baud_rate(&[9600, 38400], |baud_rate| {
        if baud_rate == 9600 {
            Err(timeout())
        } else {
            Ok(sample_version())
        }
    });

    assert_eq!(
        outcome,
        ProbeOutcome::Connected {
            baud_rate: 38400,
            version: sample_version(),
        }
    );
}

#[test]
fn discover_baud_rate_reports_no_response_when_all_candidates_fail() {
    let outcome = discover_baud_rate(&[9600, 38400], |_| Err(timeout()));

    assert_eq!(outcome, ProbeOutcome::NoResponse);
}

#[test]
fn an_answer_ends_a_probe_and_an_error_moves_it_on() {
    let candidates = [9600, 38400];
    assert_eq!(
        after_attempt(&candidates, 0, Ok(sample_version())),
        ProbeStep::Done(ProbeOutcome::Connected {
            baud_rate: 9600,
            version: sample_version(),
        })
    );
    assert_eq!(
        after_attempt(&candidates, 0, Err(timeout())),
        ProbeStep::Try(38400)
    );
    assert_eq!(
        after_attempt(&candidates, 1, Ok(sample_version())),
        ProbeStep::Done(ProbeOutcome::Connected {
            baud_rate: 38400,
            version: sample_version(),
        })
    );
    assert_eq!(
        after_attempt(&candidates, 1, Err(timeout())),
        ProbeStep::Done(ProbeOutcome::NoResponse)
    );
}

#[test]
fn each_candidate_is_attempted_once() {
    let attempted = RefCell::new(Vec::new());
    let outcome = discover_baud_rate(&[9600, 38400, 115200], |baud_rate| {
        attempted.borrow_mut().push(baud_rate);
        if baud_rate == 38400 {
            Ok(sample_version())
        } else {
            Err(timeout())
        }
    });

    assert!(matches!(outcome, ProbeOutcome::Connected { baud_rate: 38400, .. }));
    assert_eq!(attempted.into_inner(), vec![9600, 38400]);
    assert_eq!(
        discover_baud_rate(&[], |_| Ok(sample_version())),
        ProbeOutcome::NoResponse
    );
}

#[test]
fn what_became_of_a_serial_port_is_said() {
    let connected = connected_at(9600, sample_version(), Ok(7)).expect("the port opened");
    assert_eq!(connected.camera, 7);
    assert_eq!(connected.link, "Connected at 9600 baud");
    assert_eq!(connected.version, sample_version());

    let lost = connected_at::<()>(9600, sample_version(), Err(timeout()));
    assert_eq!(
        lost.err().expect("the port is gone"),
        "Connected during discovery but the follow-up connection failed: Operation timed out"
    );

    assert_eq!(
        no_response("/dev/ttyUSB0"),
        "No response from camera on /dev/ttyUSB0 at any of the candidate baud rates: [9600, 38400]"
    );
}

#[test]
fn a_serial_camera_is_kept_at_the_rate_it_answered_at() {
    let connected = connect_serial(
        "COM3",
        |baud_rate| {
            if baud_rate == 38400 {
                Ok(sample_version())
            } else {
                Err(timeout())
            }
        },
        |baud_rate| Ok(baud_rate),
    )
    .expect("the second rate answers");
    assert_eq!(connected.camera, 38400);
    assert_eq!(connected.link, "Connected at 38400 baud");
    assert_eq!(connected.version, sample_version());

    let silent = connect_serial("COM3", |_| Err(timeout()), |_| Ok(()));
    assert_eq!(
        silent.err().expect("nothing answers"),
        "No response from camera on COM3 at any of the candidate baud rates: [9600, 38400]"
    );

    let lost = connect_serial::<(), _, _>("COM3", |_| Ok(sample_version()), |_| Err(timeout()));
    assert_eq!(
        lost.err().expect("the port is gone"),
        "Connected during discovery but the follow-up connection failed: Operation timed out"
    );
}

#[test]
fn connecting_over_tcp_says_where_it_failed_or_what_answered() {
    let connected = connect_tcp(
        "camera.local",
        || Ok(scripted(vec![version_reply()]).0),
        version_of,
    )
    .ok()
    .expect("the scripted camera answers");
    assert_eq!(connected.link, "Connected to camera.local over TCP");
    assert_eq!(connected.version, sample_version());

    let unreachable = connect_tcp::<(), _, _>(
        "127.0.0.1:1",
        || Err(Error::Other("refused".to_string())),
        |_| panic!("nothing to ask"),
    );
    assert_eq!(
        unreachable.err().expect("nothing is there"),
        "Could not reach 127.0.0.1:1 over TCP: refused"
    );

    let silent = connect_tcp("camera.local", || Ok(()), |_| Err(timeout()));
    assert_eq!(
        silent.err().expect("nothing answers"),
        "Connected to camera.local, but it didn't answer a version inquiry: Operation timed out"
    );
}
