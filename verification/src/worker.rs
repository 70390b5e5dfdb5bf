//! What is asked of the camera, and what came of it.
//!
//! Commands run on a thread of their own, so that nothing else waits on the
//! camera's answers. What piles up while one command is on the wire is looked
//! at as a whole before the next is sent.

use vstd::prelude::*;
use vstd::string::*;

use crate::error::{error_message, Error};
use crate::focus::{
    self, focus_command, mode_command, FocusCommand, FocusDirection, FocusDrive,
};
use crate::nudge::{self, field, step_move, RelativeMove, Step, STEP_SPEED};
use crate::pan_tilt::{
    self, direction_of, refuses, PanTiltDirection, Velocity, MAX_PAN_SPEED, MAX_TILT_SPEED,
};
use crate::power::{self, power_command, PowerCommand, PowerOn};
use crate::preset::{self, own_number, PresetCommand};
use crate::rocker::SpeedLevel;
use crate::state::{format_state, state_text, CameraState, Position};
use crate::text::{decimal, joined, push_decimal};
use crate::title::{self, display_message, title_text, Title, TitleDisplay};
use crate::zoom::{
    self, accepted_zoom, zoom_command, ZoomCommand, ZoomDirection, ZoomDrive, MAX_ZOOM_SPEED,
};

verus! {

/// A camera action requested by the operator.
#[derive(Debug, Clone, Copy)]
pub enum Intent {
    /// Set the continuous pan/tilt drive, or stop it.
    DrivePanTilt(Velocity),
    /// Move a fixed distance from wherever the camera is now, and stop there.
    Nudge(Step),
    /// Start driving zoom, or stop it with `None`.
    DriveZoom(Option<ZoomDrive>),
    /// Start driving focus, or stop it with `None`.
    DriveFocus(Option<FocusDrive>),
    /// Focus automatically, or leave focus to the manual drive.
    SetAutoFocus(bool),
    /// Recall the given 1-based preset number.
    RecallPreset(u8),
    /// Save the current position to the given 1-based preset number.
    SavePreset(u8),
    /// Return to the home position.
    Home,
    /// Recalibrate the pan/tilt mechanism.
    ResetPanTilt,
    /// Power the camera on, or put it into standby.
    SetPower(bool),
    /// Give the camera a title to hold, without showing it.
    SetTitle(Title),
    /// Show the title the camera is holding, or hide it.
    ShowTitle(bool),
    /// Query the camera's current pan/tilt/zoom/focus/power state.
    QueryState,
}

impl PartialEq for Intent {
    fn eq(&self, other: &Intent) -> (equal: bool) {
        match (self, other) {
            (Intent::DrivePanTilt(mine), Intent::DrivePanTilt(theirs)) => *mine == *theirs,
            (Intent::Nudge(mine), Intent::Nudge(theirs)) => *mine == *theirs,
            (Intent::DriveZoom(mine), Intent::DriveZoom(theirs)) => *mine == *theirs,
            (Intent::DriveFocus(mine), Intent::DriveFocus(theirs)) => *mine == *theirs,
            (Intent::SetAutoFocus(mine), Intent::SetAutoFocus(theirs)) => *mine == *theirs,
            (Intent::RecallPreset(mine), Intent::RecallPreset(theirs)) => *mine == *theirs,
            (Intent::SavePreset(mine), Intent::SavePreset(theirs)) => *mine == *theirs,
            (Intent::Home, Intent::Home) => true,
            (Intent::ResetPanTilt, Intent::ResetPanTilt) => true,
            (Intent::SetPower(mine), Intent::SetPower(theirs)) => *mine == *theirs,
            (Intent::SetTitle(mine), Intent::SetTitle(theirs)) => *mine == *theirs,
            (Intent::ShowTitle(mine), Intent::ShowTitle(theirs)) => *mine == *theirs,
            (Intent::QueryState, Intent::QueryState) => true,
            _ => false,
        }
    }
}

impl vstd::std_specs::cmp::PartialEqSpecImpl for Intent {
    open spec fn obeys_eq_spec() -> bool {
        true
    }

    open spec fn eq_spec(&self, other: &Intent) -> bool {
        *self == *other
    }
}

/// The result of carrying out an [`Intent`].
#[derive(Debug)]
pub enum Outcome {
    /// A command completed (or failed) with no data to report.
    Done(Intent, Result<(), Error>),
    /// A preset command completed, and with it the only chance to learn where
    /// that preset points.
    ///
    /// `Ok(None)` is a preset command that worked against a camera that then
    /// wouldn't say where it was standing, which is not a failure.
    Preset(Intent, Result<Option<Position>, Error>),
    /// A state query completed (or failed).
    State(Result<CameraState, Error>),
}

/// One of the camera's continuous controls.
///
/// Two intents for the same control in the queue together make the earlier one
/// meaningless: a drive says what the camera should be doing now.
#[derive(Debug, Clone, Copy, PartialEq, Eq, Structural)]
pub enum Control {
    /// The pan/tilt head.
    PanTilt,
    /// The zoom.
    Zoom,
    /// The focus.
    Focus,
}

/// Which continuous control an intent drives, if any. A step is none: two
/// drives in the queue mean that the later one won, but two steps mean two
/// steps.
pub open spec fn control_of(intent: Intent) -> Option<Control> {
    match intent {
        Intent::DrivePanTilt(_) => Some(Control::PanTilt),
        Intent::DriveZoom(_) => Some(Control::Zoom),
        Intent::DriveFocus(_) => Some(Control::Focus),
        _ => None,
    }
}

/// Which continuous control an intent drives, if any.
#[verifier::when_used_as_spec(control_of)]
pub fn control(intent: Intent) -> (control: Option<Control>)
    ensures
        control == control_of(intent),
{
    match intent {
        Intent::DrivePanTilt(_) => Some(Control::PanTilt),
        Intent::DriveZoom(_) => Some(Control::Zoom),
        Intent::DriveFocus(_) => Some(Control::Focus),
        _ => None,
    }
}

/// Whether this intent moves the picture.
pub open spec fn moves(intent: Intent) -> bool {
    control_of(intent) is Some || intent is Nudge
}

/// Whether this intent moves the picture, rather than being a command whose
/// result the operator can only learn from the status line.
#[verifier::when_used_as_spec(moves)]
pub fn is_movement(intent: Intent) -> (movement: bool)
    ensures
        movement == moves(intent),
{
    control(intent).is_some() || matches!(intent, Intent::Nudge(_))
}

/// Whether this intent is one of the title commands, which are the one thing
/// here that a camera may not have at all.
pub fn is_title(intent: Intent) -> (title: bool)
    ensures
        title == (intent is SetTitle || intent is ShowTitle),
{
    matches!(intent, Intent::SetTitle(_) | Intent::ShowTitle(_))
}

/// Whether a later drive for the same control has taken the place of the one
/// at `index`.
pub open spec fn superseded(batch: Seq<Intent>, index: int) -> bool {
    &&& control_of(batch[index]) is Some
    &&& exists|later: int|
        index < later < batch.len() && control_of(#[trigger] batch[later]) == control_of(
            batch[index],
        )
}

/// What is left of a batch without the drives that were superseded.
pub open spec fn coalesce(batch: Seq<Intent>) -> Seq<Intent>
    decreases batch.len(),
{
    if batch.len() == 0 {
        Seq::empty()
    } else if superseded(batch, 0) {
        coalesce(batch.drop_first())
    } else {
        seq![batch.first()] + coalesce(batch.drop_first())
    }
}

/// Drops every queued drive that a later one for the same control has already
/// superseded, leaving everything else in order.
///
/// Without this, a control held down while the camera is slow to answer builds
/// a backlog of velocities the operator has moved on from, and releasing it
/// stops nothing until that backlog has played out.
pub fn coalesced(batch: &[Intent]) -> (kept: Vec<Intent>)
    ensures
        kept@ == coalesce(batch@),
{
    let mut backwards: Vec<Intent> = Vec::new();
    let mut pan_tilt: bool = false;
    let mut zoom: bool = false;
    let mut focus: bool = false;
    let mut index: usize = batch.len();
    proof {
        assert(batch@.skip(index as int) =~= Seq::empty());
        assert(backwards@.reverse() =~= Seq::empty());
    }
    while index > 0
        invariant
            index <= batch@.len(),
            backwards@.reverse() == coalesce(batch@.skip(index as int)),
            pan_tilt == drives(batch@.skip(index as int), Control::PanTilt),
            zoom == drives(batch@.skip(index as int), Control::Zoom),
            focus == drives(batch@.skip(index as int), Control::Focus),
        decreases index,
    {
        index -= 1;
        let intent = batch[index];
        let ghost rest = batch@.skip(index + 1);
        let ghost whole = batch@.skip(index as int);
        proof {
            assert(whole.first() == intent);
            assert(whole.drop_first() =~= rest);
            assert(whole =~= seq![intent] + rest);
            first_is_superseded(intent, rest);
            drives_of_longer(intent, rest, Control::PanTilt);
            drives_of_longer(intent, rest, Control::Zoom);
            drives_of_longer(intent, rest, Control::Focus);
        }
        let keep = match control(intent) {
            None => true,
            Some(Control::PanTilt) => {
                let first = !pan_tilt;
                pan_tilt = true;
                first
            },
            Some(Control::Zoom) => {
                let first = !zoom;
                zoom = true;
                first
            },
            Some(Control::Focus) => {
                let first = !focus;
                focus = true;
                first
            },
        };
        if keep {
            let ghost shorter = backwards@;
            backwards.push(intent);
            proof {
                assert(backwards@.reverse() =~= seq![intent] + shorter.reverse());
            }
        }
    }
    proof {
        assert(batch@.skip(0) =~= batch@);
    }
    let mut kept: Vec<Intent> = Vec::new();
    let mut left: usize = backwards.len();
    while left > 0
        invariant
            left <= backwards@.len(),
            kept@ == backwards@.reverse().take(backwards@.len() - left),
        decreases left,
    {
        left -= 1;
        kept.push(backwards[left]);
        proof {
            assert(kept@ =~= backwards@.reverse().take(backwards@.len() - left));
        }
    }
    proof {
        assert(kept@ =~= backwards@.reverse());
    }
    kept
}

/// Whether any of these intents drives `control`.
pub open spec fn drives(batch: Seq<Intent>, control: Control) -> bool {
    exists|index: int|
        0 <= index < batch.len() && control_of(#[trigger] batch[index]) == Some(control)
}

proof fn first_is_superseded(intent: Intent, rest: Seq<Intent>)
    ensures
        superseded(seq![intent] + rest, 0) == match control_of(intent) {
            Some(control) => drives(rest, control),
            None => false,
        },
{
    let whole = seq![intent] + rest;
    if let Some(control) = control_of(intent) {
        if drives(rest, control) {
            let index = choose|index: int|
                0 <= index < rest.len() && control_of(#[trigger] rest[index]) == Some(control);
            assert(whole[index + 1] == rest[index]);
        }
        if superseded(whole, 0) {
            let later = choose|later: int|
                0 < later < whole.len() && control_of(#[trigger] whole[later]) == control_of(
                    whole[0],
                );
            assert(rest[later - 1] == whole[later]);
        }
    }
}

proof fn drives_of_longer(intent: Intent, rest: Seq<Intent>, control: Control)
    ensures
        drives(seq![intent] + rest, control) == (control_of(intent) == Some(control) || drives(
            rest,
            control,
        )),
{
    let whole = seq![intent] + rest;
    assert(whole[0] == intent);
    if drives(rest, control) {
        let index = choose|index: int|
            0 <= index < rest.len() && control_of(#[trigger] rest[index]) == Some(control);
        assert(whole[index + 1] == rest[index]);
    }
    if drives(whole, control) {
        let index = choose|index: int|
            0 <= index < whole.len() && control_of(#[trigger] whole[index]) == Some(control);
        if index > 0 {
            assert(rest[index - 1] == whole[index]);
        }
    }
}

/// What a control was last told to do, or `None` if nothing was said to it.
pub open spec fn last_drive(batch: Seq<Intent>, control: Control) -> Option<Intent>
    decreases batch.len(),
{
    if batch.len() == 0 {
        None
    } else {
        match last_drive(batch.drop_first(), control) {
            Some(intent) => Some(intent),
            None => if control_of(batch.first()) == Some(control) {
                Some(batch.first())
            } else {
                None
            },
        }
    }
}

/// The intents that drive no control, in order.
pub open spec fn one_shots(batch: Seq<Intent>) -> Seq<Intent>
    decreases batch.len(),
{
    if batch.len() == 0 {
        Seq::empty()
    } else if control_of(batch.first()) is None {
        seq![batch.first()] + one_shots(batch.drop_first())
    } else {
        one_shots(batch.drop_first())
    }
}

proof fn something_drove_it(batch: Seq<Intent>, control: Control)
    ensures
        last_drive(batch, control) is Some <==> drives(batch, control),
    decreases batch.len(),
{
    if batch.len() > 0 {
        let rest = batch.drop_first();
        something_drove_it(rest, control);
        assert(batch =~= seq![batch.first()] + rest);
        drives_of_longer(batch.first(), rest, control);
    }
}

/// Coalescing changes nothing that the camera ends up being told: each control
/// still gets the last drive it was sent, and every command that is not a
/// drive goes out, in order. Steps are among those.
pub proof fn coalescing_loses_nothing(batch: Seq<Intent>, control: Control)
    ensures
        last_drive(coalesce(batch), control) == last_drive(batch, control),
        one_shots(coalesce(batch)) == one_shots(batch),
    decreases batch.len(),
{
    if batch.len() > 0 {
        let rest = batch.drop_first();
        coalescing_loses_nothing(rest, control);
        assert(batch =~= seq![batch.first()] + rest);
        first_is_superseded(batch.first(), rest);
        something_drove_it(rest, control);
        if !superseded(batch, 0) {
            let kept = seq![batch.first()] + coalesce(rest);
            assert(kept.drop_first() =~= coalesce(rest));
            assert(kept.first() == batch.first());
        }
    }
}

/// What is left after coalescing drives no control twice.
pub proof fn coalescing_leaves_one_drive_each(batch: Seq<Intent>, first: int, second: int)
    requires
        0 <= first < second < coalesce(batch).len(),
        control_of(coalesce(batch)[first]) is Some,
    ensures
        control_of(coalesce(batch)[first]) != control_of(coalesce(batch)[second]),
    decreases batch.len(),
{
    let rest = batch.drop_first();
    assert(batch =~= seq![batch.first()] + rest);
    if superseded(batch, 0) {
        coalescing_leaves_one_drive_each(rest, first, second);
    } else {
        let kept = coalesce(rest);
        assert(coalesce(batch)[second] == kept[second - 1]);
        if first > 0 {
            assert(coalesce(batch)[first] == kept[first - 1]);
            coalescing_leaves_one_drive_each(rest, first - 1, second - 1);
        } else {
            let control = control_of(batch.first())->Some_0;
            first_is_superseded(batch.first(), rest);
            assert(!drives(rest, control));
            something_drove_it(rest, control);
            coalescing_loses_nothing(rest, control);
            something_drove_it(kept, control);
            assert(control_of(kept[second - 1]) != Some(control));
        }
    }
}

/// Coalescing what is already coalesced changes nothing.
pub proof fn coalescing_twice_is_coalescing_once(batch: Seq<Intent>)
    ensures
        coalesce(coalesce(batch)) == coalesce(batch),
    decreases batch.len(),
{
    if batch.len() > 0 {
        let rest = batch.drop_first();
        coalescing_twice_is_coalescing_once(rest);
        assert(batch =~= seq![batch.first()] + rest);
        first_is_superseded(batch.first(), rest);
        if !superseded(batch, 0) {
            let kept = coalesce(rest);
            assert((seq![batch.first()] + kept).drop_first() =~= kept);
            first_is_superseded(batch.first(), kept);
            if let Some(control) = control_of(batch.first()) {
                something_drove_it(rest, control);
                coalescing_loses_nothing(rest, control);
                something_drove_it(kept, control);
            }
        }
    }
}

/// The words for a direction.
pub open spec fn direction_words(direction: PanTiltDirection) -> Seq<char> {
    match direction {
        PanTiltDirection::Up => "up"@,
        PanTiltDirection::Down => "down"@,
        PanTiltDirection::Left => "left"@,
        PanTiltDirection::Right => "right"@,
        PanTiltDirection::UpLeft => "up-left"@,
        PanTiltDirection::UpRight => "up-right"@,
        PanTiltDirection::DownLeft => "down-left"@,
        PanTiltDirection::DownRight => "down-right"@,
        PanTiltDirection::Stop => "stop"@,
    }
}

/// The words for a direction.
pub fn direction_label(direction: PanTiltDirection) -> (label: &'static str)
    ensures
        label@ == direction_words(direction),
{
    match direction {
        PanTiltDirection::Up => "up",
        PanTiltDirection::Down => "down",
        PanTiltDirection::Left => "left",
        PanTiltDirection::Right => "right",
        PanTiltDirection::UpLeft => "up-left",
        PanTiltDirection::UpRight => "up-right",
        PanTiltDirection::DownLeft => "down-left",
        PanTiltDirection::DownRight => "down-right",
        PanTiltDirection::Stop => "stop",
    }
}

/// The words for an intent.
pub open spec fn description(intent: Intent) -> Seq<char> {
    match intent {
        Intent::DrivePanTilt(velocity) => "pan/tilt "@ + direction_words(velocity.direction),
        Intent::Nudge(step) => "step "@ + direction_words(step.way()),
        Intent::DriveZoom(None) => "zoom stop"@,
        Intent::DriveZoom(Some(drive)) => match drive.direction {
            ZoomDirection::In => "zoom in"@,
            ZoomDirection::Out => "zoom out"@,
        },
        Intent::DriveFocus(None) => "focus stop"@,
        Intent::DriveFocus(Some(drive)) => match drive.direction {
            FocusDirection::Near => "focus near"@,
            FocusDirection::Far => "focus far"@,
        },
        Intent::SetAutoFocus(auto) => if auto {
            "auto focus"@
        } else {
            "manual focus"@
        },
        Intent::RecallPreset(number) => "recall preset "@ + decimal(number as nat),
        Intent::SavePreset(number) => "save preset "@ + decimal(number as nat),
        Intent::Home => "home"@,
        Intent::ResetPanTilt => "pan/tilt reset"@,
        Intent::SetPower(on) => if on {
            "power on"@
        } else {
            "power off"@
        },
        Intent::SetTitle(title) => "set title \""@ + title_text(title.0@) + "\""@,
        Intent::ShowTitle(on) => if on {
            "show title"@
        } else {
            "hide title"@
        },
        Intent::QueryState => "state query"@,
    }
}

/// A short human description of an intent, for status and log messages.
pub fn describe(intent: Intent) -> (text: String)
    ensures
        text@ == description(intent),
{
    match intent {
        Intent::DrivePanTilt(velocity) => joined("pan/tilt ", direction_label(velocity.direction)),
        Intent::Nudge(step) => joined("step ", direction_label(step.direction())),
        Intent::DriveZoom(None) => "zoom stop".to_owned(),
        Intent::DriveZoom(Some(drive)) => match drive.direction {
            ZoomDirection::In => "zoom in".to_owned(),
            ZoomDirection::Out => "zoom out".to_owned(),
        },
        Intent::DriveFocus(None) => "focus stop".to_owned(),
        Intent::DriveFocus(Some(drive)) => match drive.direction {
            FocusDirection::Near => "focus near".to_owned(),
            FocusDirection::Far => "focus far".to_owned(),
        },
        Intent::SetAutoFocus(auto) => if auto {
            "auto focus".to_owned()
        } else {
            "manual focus".to_owned()
        },
        Intent::RecallPreset(number) => {
            let mut text = "recall preset ".to_owned();
            push_decimal(&mut text, number as u64);
            text
        },
        Intent::SavePreset(number) => {
            let mut text = "save preset ".to_owned();
            push_decimal(&mut text, number as u64);
            text
        },
        Intent::Home => "home".to_owned(),
        Intent::ResetPanTilt => "pan/tilt reset".to_owned(),
        Intent::SetPower(on) => if on {
            "power on".to_owned()
        } else {
            "power off".to_owned()
        },
        Intent::SetTitle(title) => {
            let mut text = joined("set title \"", title.text().as_str());
            text.append("\"");
            text
        },
        Intent::ShowTitle(on) => if on {
            "show title".to_owned()
        } else {
            "hide title".to_owned()
        },
        Intent::QueryState => "state query".to_owned(),
    }
}

/// The words for an intent that worked.
pub open spec fn success_words(intent: Intent) -> Seq<char> {
    "OK: "@ + description(intent)
}

/// The words for an intent that failed.
pub open spec fn failure_words(intent: Intent, error: Error) -> Seq<char> {
    "error ("@ + description(intent) + "): "@ + error_message(error)
}

/// The words for an outcome. Whether a preset gave up its location is left
/// out: what was asked for was the move.
pub open spec fn outcome_words(outcome: Outcome) -> Seq<char> {
    match outcome {
        Outcome::Done(intent, Ok(_)) => success_words(intent),
        Outcome::Preset(intent, Ok(_)) => success_words(intent),
        Outcome::Done(intent, Err(error)) => failure_words(intent, error),
        Outcome::Preset(intent, Err(error)) => failure_words(intent, error),
        Outcome::State(Ok(state)) => state_text(state),
        Outcome::State(Err(error)) => "state query failed: "@ + error_message(error),
    }
}

fn describe_success(intent: Intent) -> (text: String)
    ensures
        text@ == success_words(intent),
{
    joined("OK: ", describe(intent).as_str())
}

fn describe_failure(intent: Intent, error: &Error) -> (text: String)
    ensures
        text@ == failure_words(intent, *error),
{
    let mut text = joined("error (", describe(intent).as_str());
    text.append("): ");
    text.append(error.message().as_str());
    text
}

/// A short description of an outcome, as a single line of text.
pub fn describe_outcome(outcome: &Outcome) -> (text: String)
    ensures
        text@ == outcome_words(*outcome),
{
    match outcome {
        Outcome::Done(intent, Ok(_)) => describe_success(*intent),
        Outcome::Preset(intent, Ok(_)) => describe_success(*intent),
        Outcome::Done(intent, Err(error)) => describe_failure(*intent, error),
        Outcome::Preset(intent, Err(error)) => describe_failure(*intent, error),
        Outcome::State(Ok(state)) => format_state(state),
        Outcome::State(Err(error)) => joined("state query failed: ", error.message().as_str()),
    }
}

/// The words for an intent that is under way.
pub open spec fn busy_words(intent: Intent) -> Seq<char> {
    description(intent) + "..."@
}

/// A short "in progress" description of an intent, shown as soon as it is
/// sent, so that a slow command doesn't look like nothing happened.
pub fn describe_busy(intent: Intent) -> (text: String)
    ensures
        text@ == busy_words(intent),
{
    joined(describe(intent).as_str(), "...")
}

/// Reads where the camera is standing, after a preset command that left it
/// there: VISCA has no inquiry after where a preset points.
///
/// Nothing is asked after a command that failed, and a camera that won't
/// answer costs only the chance to learn.
pub fn harvest<P>(done: Result<(), Error>, position: P) -> (learned: Result<Option<Position>, Error>)
    where P: FnOnce() -> Result<Position, Error>,

    requires
        done is Ok ==> call_requires(position, ()),
    ensures
        match done {
            Ok(_) => learned is Ok && match learned->Ok_0 {
                Some(found) => call_ensures(position, (), Ok::<Position, Error>(found)),
                None => exists|error: Error| #[trigger]
                    call_ensures(position, (), Err::<Position, Error>(error)),
            },
            Err(error) => learned == Err::<Option<Position>, Error>(error),
        },
{
    match done {
        Ok(_) => match position() {
            Ok(found) => Ok(Some(found)),
            Err(error) => {
                assert(call_ensures(position, (), Err::<Position, Error>(error)));
                Ok(None)
            },
        },
        Err(error) => Err(error),
    }
}

/// One thing to have the camera do.
#[derive(Debug, Clone, Copy)]
pub enum Command {
    /// Drive the pan/tilt head.
    Drive(Velocity),
    /// Move the head by a distance.
    Move(RelativeMove),
    /// Drive the zoom.
    Zoom(ZoomCommand),
    /// Drive the focus, or switch its mode.
    Focus(FocusCommand),
    /// Go to a preset, or save one.
    Preset(PresetCommand),
    /// Return to the home position.
    Home,
    /// Recalibrate the pan/tilt mechanism.
    Reset,
    /// Switch the power.
    Power(PowerCommand),
    /// Give the camera a title to hold.
    Title(Title),
    /// Show or hide the title.
    Display(TitleDisplay),
    /// Nothing: what was asked for takes no command.
    Nothing,
}

/// Whether every number in an intent is one that its command takes.
pub open spec fn accepted(intent: Intent) -> bool {
    match intent {
        Intent::DrivePanTilt(velocity) => velocity.pan_speed <= MAX_PAN_SPEED && velocity.tilt_speed
            <= MAX_TILT_SPEED,
        Intent::DriveZoom(drive) => accepted_zoom(drive),
        Intent::RecallPreset(number) => number > 0,
        Intent::SavePreset(number) => number > 0,
        _ => true,
    }
}

/// The command that carries out an intent whose numbers are accepted.
pub open spec fn command_of(intent: Intent) -> Command {
    match intent {
        Intent::DrivePanTilt(velocity) => Command::Drive(velocity),
        Intent::Nudge(step) => if step == Step::at_rest() {
            Command::Nothing
        } else {
            Command::Move(
                RelativeMove {
                    pan: field(step.pan),
                    tilt: field(step.tilt),
                    pan_speed: STEP_SPEED,
                    tilt_speed: STEP_SPEED,
                },
            )
        },
        Intent::DriveZoom(drive) => Command::Zoom(
            match drive {
                Some(drive) => match drive.direction {
                    ZoomDirection::In => ZoomCommand::Tele(drive.speed),
                    ZoomDirection::Out => ZoomCommand::Wide(drive.speed),
                },
                None => ZoomCommand::Stop,
            },
        ),
        Intent::DriveFocus(drive) => Command::Focus(
            match drive {
                Some(drive) => match drive.direction {
                    FocusDirection::Near => FocusCommand::Near(drive.speed),
                    FocusDirection::Far => FocusCommand::Far(drive.speed),
                },
                None => FocusCommand::Stop,
            },
        ),
        Intent::SetAutoFocus(auto) => Command::Focus(
            if auto {
                FocusCommand::Auto
            } else {
                FocusCommand::Manual
            },
        ),
        Intent::RecallPreset(number) => Command::Preset(PresetCommand::Recall((number - 1) as u8)),
        Intent::SavePreset(number) => Command::Preset(PresetCommand::Save((number - 1) as u8)),
        Intent::Home => Command::Home,
        Intent::ResetPanTilt => Command::Reset,
        Intent::SetPower(on) => Command::Power(
            if on {
                PowerCommand::On(PowerOn)
            } else {
                PowerCommand::Off
            },
        ),
        Intent::SetTitle(title) => Command::Title(title),
        Intent::ShowTitle(on) => Command::Display(
            TitleDisplay(
                if on {
                    0x02
                } else {
                    0x03
                },
            ),
        ),
        Intent::QueryState => Command::Nothing,
    }
}

/// Whether `error` is what an intent with a number that its command does not
/// take is refused with: the pan speed is looked at before the tilt speed.
pub open spec fn refused_with(intent: Intent, error: Error) -> bool {
    match intent {
        Intent::DrivePanTilt(velocity) => if velocity.pan_speed > MAX_PAN_SPEED {
            refuses(error, "PanSpeed"@, velocity.pan_speed as int, 0, MAX_PAN_SPEED as int)
        } else {
            refuses(error, "TiltSpeed"@, velocity.tilt_speed as int, 0, MAX_TILT_SPEED as int)
        },
        Intent::DriveZoom(Some(drive)) => refuses(
            error,
            "ZoomSpeed"@,
            drive.speed as int,
            0,
            MAX_ZOOM_SPEED as int,
        ),
        _ => refuses(error, "preset"@, 0, 1, 255),
    }
}

/// The command that carries out an intent.
pub fn command(intent: Intent) -> (command: Result<Command, Error>)
    ensures
        accepted(intent) ==> command == Ok::<Command, Error>(command_of(intent)),
        !accepted(intent) ==> command is Err && refused_with(intent, command->Err_0),
{
    match intent {
        Intent::DrivePanTilt(velocity) => match pan_tilt::drive(velocity) {
            Ok(velocity) => Ok(Command::Drive(velocity)),
            Err(error) => Err(error),
        },
        Intent::Nudge(step) => match nudge::nudge(step) {
            Ok(Some(distance)) => Ok(Command::Move(distance)),
            Ok(None) => Ok(Command::Nothing),
            Err(error) => Err(error),
        },
        Intent::DriveZoom(drive) => match zoom::drive_zoom(drive) {
            Ok(zoom) => Ok(Command::Zoom(zoom)),
            Err(error) => Err(error),
        },
        Intent::DriveFocus(drive) => Ok(Command::Focus(focus::drive_focus(drive))),
        Intent::SetAutoFocus(auto) => Ok(Command::Focus(focus::set_auto_focus(auto))),
        Intent::RecallPreset(number) => match preset::recall_preset(number) {
            Ok(recall) => Ok(Command::Preset(recall)),
            Err(error) => Err(error),
        },
        Intent::SavePreset(number) => match preset::save_preset(number) {
            Ok(save) => Ok(Command::Preset(save)),
            Err(error) => Err(error),
        },
        Intent::Home => Ok(Command::Home),
        Intent::ResetPanTilt => Ok(Command::Reset),
        Intent::SetPower(on) => Ok(Command::Power(power::set_power(on))),
        Intent::SetTitle(title) => Ok(Command::Title(title)),
        Intent::ShowTitle(on) => Ok(Command::Display(title::show_title(on))),
        Intent::QueryState => Ok(Command::Nothing),
    }
}

/// Whether `done` is what came of an intent whose command `execute` carries
/// out: an intent that takes no command is done at once, and one that is
/// refused is never carried out.
pub open spec fn carried_out<E: FnOnce(Command) -> Result<(), Error>>(
    intent: Intent,
    execute: E,
    done: Result<(), Error>,
) -> bool {
    if !accepted(intent) {
        done is Err && refused_with(intent, done->Err_0)
    } else if command_of(intent) is Nothing {
        done is Ok
    } else {
        call_ensures(execute, (command_of(intent),), done)
    }
}

fn carry_out<E>(intent: Intent, execute: E) -> (done: Result<(), Error>)
    where E: FnOnce(Command) -> Result<(), Error>,

    requires
        accepted(intent) && !(command_of(intent) is Nothing) ==> call_requires(
            execute,
            (command_of(intent),),
        ),
    ensures
        carried_out(intent, execute, done),
{
    match command(intent) {
        Ok(Command::Nothing) => Ok(()),
        Ok(command) => execute(command),
        Err(error) => Err(error),
    }
}

/// Carries out one intent against the camera: `execute` has it do a command,
/// `position` asks where it stands and `state` asks for a snapshot.
pub fn dispatch<E, P, S>(intent: Intent, execute: E, position: P, state: S) -> (outcome: Outcome)
    where
        E: FnOnce(Command) -> Result<(), Error>,
        P: FnOnce() -> Result<Position, Error>,
        S: FnOnce() -> Result<CameraState, Error>,

    requires
        accepted(intent) && !(command_of(intent) is Nothing) ==> call_requires(
            execute,
            (command_of(intent),),
        ),
        (intent is RecallPreset || intent is SavePreset) && carried_out(
            intent,
            execute,
            Ok::<(), Error>(()),
        ) ==> call_requires(position, ()),
        intent is QueryState ==> call_requires(state, ()),
    ensures
        match outcome {
            Outcome::State(answer) => {
                &&& intent is QueryState
                &&& call_ensures(state, (), answer)
            },
            Outcome::Preset(done, learned) => {
                &&& done == intent
                &&& intent is RecallPreset || intent is SavePreset
                &&& match learned {
                    Ok(Some(found)) => {
                        &&& carried_out(intent, execute, Ok::<(), Error>(()))
                        &&& call_ensures(position, (), Ok::<Position, Error>(found))
                    },
                    Ok(None) => {
                        &&& carried_out(intent, execute, Ok::<(), Error>(()))
                        &&& exists|error: Error| #[trigger]
                            call_ensures(position, (), Err::<Position, Error>(error))
                    },
                    Err(error) => carried_out(intent, execute, Err::<(), Error>(error)),
                }
            },
            Outcome::Done(done, result) => {
                &&& done == intent
                &&& !(intent is RecallPreset || intent is SavePreset || intent is QueryState)
                &&& carried_out(intent, execute, result)
            },
        },
{
    match intent {
        Intent::QueryState => Outcome::State(state()),
        Intent::RecallPreset(_) | Intent::SavePreset(_) => {
            let done = carry_out(intent, execute);
            proof {
                if let Ok(nothing) = done {
                    assert(nothing == ());
                }
            }
            Outcome::Preset(intent, harvest(done, position))
        },
        _ => Outcome::Done(intent, carry_out(intent, execute)),
    }
}

/// Whether an intent can be carried out by `carry_out` with an outcome that
/// `deliver` answers so.
pub open spec fn delivered<C: Fn(Intent) -> Outcome, D: Fn(Outcome) -> bool>(
    intent: Intent,
    carry_out: C,
    deliver: D,
    answer: bool,
) -> bool {
    exists|outcome: Outcome|
        {
            &&& #[trigger] call_ensures(carry_out, (intent,), outcome)
            &&& call_ensures(deliver, (outcome,), answer)
        }
}

/// Whether each of these intents may be carried out once the outcomes of those
/// before it were taken, and whatever comes of it may be delivered.
pub open spec fn may_run<C: Fn(Intent) -> Outcome, D: Fn(Outcome) -> bool>(
    intents: Seq<Intent>,
    carry_out: C,
    deliver: D,
) -> bool {
    &&& forall|place: int|
        0 <= place < intents.len() && (forall|earlier: int|
            0 <= earlier < place ==> delivered(
                #[trigger] intents[earlier],
                carry_out,
                deliver,
                true,
            )) ==> call_requires(carry_out, (#[trigger] intents[place],))
    &&& forall|intent: Intent, outcome: Outcome|
        intents.contains(intent) && #[trigger] call_ensures(carry_out, (intent,), outcome)
            ==> call_requires(deliver, (outcome,))
}

/// What is carried out next of these intents, if the outcome of the last one
/// found somebody to take it.
pub open spec fn next_intent(pending: Seq<Intent>, listening: bool) -> Option<Intent> {
    if listening && pending.len() > 0 {
        Some(pending[0])
    } else {
        None
    }
}

/// The intent to carry out next, given whether the outcome of the last one
/// found somebody to take it. What is handed out is no longer pending.
pub fn after_delivery(pending: &mut Vec<Intent>, listening: bool) -> (next: Option<Intent>)
    ensures
        next == next_intent(old(pending)@, listening),
        final(pending)@ == (if next is Some {
            old(pending)@.drop_first()
        } else {
            old(pending)@
        }),
{
    if listening && pending.len() > 0 {
        let next = pending.remove(0);
        proof {
            assert(pending@ =~= old(pending)@.drop_first());
        }
        Some(next)
    } else {
        None
    }
}

/// The intents that are carried out of these, where `answers` says of each
/// outcome in turn whether somebody took it.
pub open spec fn handed_out(pending: Seq<Intent>, listening: bool, answers: Seq<bool>) -> Seq<Intent>
    decreases pending.len(),
{
    match next_intent(pending, listening) {
        Some(intent) => seq![intent] + handed_out(
            pending.drop_first(),
            answers[0],
            answers.drop_first(),
        ),
        None => Seq::empty(),
    }
}

/// Each intent of a batch that is not superseded is carried out once, in order,
/// up to and including the first whose outcome finds nobody to take it. Where
/// `taken` outcomes are taken before that one, one intent more is carried out.
pub proof fn a_batch_is_carried_out_once(pending: Seq<Intent>, answers: Seq<bool>, taken: int)
    requires
        answers.len() >= pending.len(),
        0 <= taken <= pending.len(),
        forall|place: int| 0 <= place < taken ==> #[trigger] answers[place],
        taken < pending.len() ==> !answers[taken],
    ensures
        handed_out(pending, true, answers) == pending.take(
            if taken < pending.len() {
                taken + 1
            } else {
                taken
            },
        ),
    decreases pending.len(),
{
    if pending.len() == 0 {
        assert(pending.take(taken) =~= Seq::empty());
    } else {
        let rest = pending.drop_first();
        let later = answers.drop_first();
        if taken == 0 {
            assert(!answers[0]);
            assert(handed_out(rest, false, later) =~= Seq::empty());
            assert(seq![pending[0]] + Seq::<Intent>::empty() =~= pending.take(1));
        } else {
            assert(answers[0]);
            assert forall|place: int| 0 <= place < taken - 1 implies #[trigger] later[place] by {
                assert(answers[place + 1]);
            }
            a_batch_is_carried_out_once(rest, later, taken - 1);
            if taken < pending.len() {
                assert(seq![pending[0]] + rest.take(taken) =~= pending.take(taken + 1));
            } else {
                assert(seq![pending[0]] + rest.take(taken - 1) =~= pending.take(taken));
            }
        }
    }
}

/// Whether all of these can have been carried out and their outcomes taken.
pub open spec fn all_delivered<C: Fn(Intent) -> Outcome, D: Fn(Outcome) -> bool>(
    intents: Seq<Intent>,
    carry_out: C,
    deliver: D,
) -> bool {
    forall|place: int|
        0 <= place < intents.len() ==> delivered(
            #[trigger] intents[place],
            carry_out,
            deliver,
            true,
        )
}

/// Carries out everything that piled up, without the drives that later ones
/// superseded, delivering each outcome before the next intent is carried out.
/// Stops early, and says so, once an outcome finds nobody to take it.
///
/// What is carried out next is for [`after_delivery`] to say. A closure keeps no
/// record of how often it was called, so that each intent is carried out once is
/// said of those steps, in [`a_batch_is_carried_out_once`].
#[verifier::spinoff_prover]
pub fn run_batch<C, D>(batch: &[Intent], carry_out: C, deliver: D) -> (listening: bool)
    where C: Fn(Intent) -> Outcome, D: Fn(Outcome) -> bool,

    requires
        may_run(coalesce(batch@), carry_out, deliver),
    ensures
        listening ==> forall|place: int|
            0 <= place < coalesce(batch@).len() ==> delivered(
                #[trigger] coalesce(batch@)[place],
                carry_out,
                deliver,
                true,
            ),
        listening ==> all_delivered(coalesce(batch@), carry_out, deliver),
        !listening ==> exists|refused: int|
            {
                &&& 0 <= refused < coalesce(batch@).len()
                &&& delivered(#[trigger] coalesce(batch@)[refused], carry_out, deliver, false)
                &&& forall|place: int|
                    0 <= place < refused ==> delivered(
                        #[trigger] coalesce(batch@)[place],
                        carry_out,
                        deliver,
                        true,
                    )
            },
{
    let mut pending = coalesced(batch);
    let ghost kept = coalesce(batch@);
    let ghost mut done: int = 0;
    let mut listening = true;
    assert(kept.skip(0) =~= kept);
    loop
        invariant
            kept == coalesce(batch@),
            may_run(kept, carry_out, deliver),
            0 <= done <= kept.len(),
            pending@ == kept.skip(done),
            listening ==> forall|place: int|
                0 <= place < done ==> delivered(#[trigger] kept[place], carry_out, deliver, true),
            !listening ==> exists|refused: int|
                {
                    &&& 0 <= refused < kept.len()
                    &&& delivered(#[trigger] kept[refused], carry_out, deliver, false)
                    &&& forall|place: int|
                        0 <= place < refused ==> delivered(
                            #[trigger] kept[place],
                            carry_out,
                            deliver,
                            true,
                        )
                },
        decreases pending@.len(),
    {
        let intent = match after_delivery(&mut pending, listening) {
            Some(intent) => intent,
            None => return listening,
        };
        assert(intent == kept[done]);
        assert(call_requires(carry_out, (kept[done],)));
        let outcome = carry_out(intent);
        let ghost came = outcome;
        assert(call_ensures(carry_out, (kept[done],), came));
        assert(kept.contains(kept[done]));
        listening = deliver(outcome);
        proof {
            assert(call_ensures(deliver, (came,), listening));
            assert(delivered(kept[done], carry_out, deliver, listening));
            assert(pending@ =~= kept.skip(done + 1));
            done = done + 1;
        }
    }
}

/// Whether `outcome` is the camera's answer to `stop`. Outcomes of commands
/// sent earlier can still be ahead of it.
pub fn confirms(outcome: &Outcome, stop: Intent) -> (confirmed: bool)
    ensures
        confirmed == (outcome matches Outcome::Done(intent, _) && intent == stop),
{
    match outcome {
        Outcome::Done(intent, _) => *intent == stop,
        _ => false,
    }
}

/// The three continuous drives each have a control of their own and nothing
/// else has one. Those and single steps are what moves the picture.
pub proof fn a_drive_has_its_own_control(intent: Intent)
    ensures
        control_of(intent) == Some(Control::PanTilt) <==> intent is DrivePanTilt,
        control_of(intent) == Some(Control::Zoom) <==> intent is DriveZoom,
        control_of(intent) == Some(Control::Focus) <==> intent is DriveFocus,
        moves(intent) <==> intent is DrivePanTilt || intent is DriveZoom || intent is DriveFocus
            || intent is Nudge,
{
}

/// What comes later in a batch is kept as if it had come alone, and what comes
/// before it adds to the front: nothing is reordered, nothing is made up, and
/// of what comes before only drives that the later part drives again, or that
/// are driven again before it, are dropped.
pub proof fn coalescing_keeps_the_order(before: Seq<Intent>, after: Seq<Intent>)
    ensures
        ({
            let whole = coalesce(before + after);
            let end = coalesce(after);
            let front = whole.len() - end.len();
            &&& front >= 0
            &&& whole.skip(front) == end
            &&& front <= before.len()
            &&& forall|place: int|
                0 <= place < front ==> before.contains(#[trigger] whole[place])
            &&& forall|place: int|
                0 <= place < front && control_of(#[trigger] whole[place]) is Some ==> !drives(
                    after,
                    control_of(whole[place])->Some_0,
                )
        }),
    decreases before.len(),
{
    if before.len() == 0 {
        assert(before + after =~= after);
        assert(coalesce(after).skip(0) =~= coalesce(after));
    } else {
        let rest = before.drop_first();
        let both = before + after;
        coalescing_keeps_the_order(rest, after);
        assert(both.drop_first() =~= rest + after);
        assert(both =~= seq![before.first()] + (rest + after));
        first_is_superseded(before.first(), rest + after);
        let shorter = coalesce(rest + after);
        let end = coalesce(after);
        let whole = coalesce(both);
        let front = whole.len() - end.len();
        assert forall|intent: Intent| rest.contains(intent) implies before.contains(intent) by {
            let place = choose|place: int| 0 <= place < rest.len() && rest[place] == intent;
            assert(before[place + 1] == intent);
        }
        if superseded(both, 0) {
            assert(whole == shorter);
        } else {
            assert(whole =~= seq![before.first()] + shorter);
            assert(whole.skip(front) =~= shorter.skip(front - 1));
            assert(before[0] == before.first());
            assert forall|place: int| 0 <= place < front implies before.contains(
                #[trigger] whole[place],
            ) by {
                if place > 0 {
                    assert(whole[place] == shorter[place - 1]);
                }
            }
            assert forall|place: int|
                0 <= place < front && control_of(#[trigger] whole[place]) is Some implies !drives(
                after,
                control_of(whole[place])->Some_0,
            ) by {
                if place > 0 {
                    assert(whole[place] == shorter[place - 1]);
                } else {
                    let control = control_of(before.first())->Some_0;
                    assert(!drives(rest + after, control));
                    if drives(after, control) {
                        let at = choose|at: int|
                            0 <= at < after.len() && control_of(#[trigger] after[at]) == Some(
                                control,
                            );
                        assert((rest + after)[rest.len() + at] == after[at]);
                    }
                }
            }
        }
    }
}

/// What a control was last told is the last drive of the batch that is for it,
/// and what drives nothing is kept one by one in its order.
pub proof fn the_last_drive_is_the_latest(batch: Seq<Intent>, intent: Intent, control: Control)
    ensures
        last_drive(batch.push(intent), control) == if control_of(intent) == Some(control) {
            Some(intent)
        } else {
            last_drive(batch, control)
        },
        one_shots(batch.push(intent)) == if control_of(intent) is None {
            one_shots(batch).push(intent)
        } else {
            one_shots(batch)
        },
        last_drive(Seq::empty(), control) is None,
        one_shots(Seq::empty()).len() == 0,
    decreases batch.len(),
{
    let longer = batch.push(intent);
    if batch.len() == 0 {
        reveal_with_fuel(last_drive, 2);
        reveal_with_fuel(one_shots, 2);
        assert(longer.drop_first() =~= Seq::empty());
        assert(longer.first() == intent);
        assert(one_shots(longer) =~= if control_of(intent) is None {
            seq![intent]
        } else {
            Seq::empty()
        });
        assert(one_shots(batch).push(intent) =~= seq![intent]);
    } else {
        the_last_drive_is_the_latest(batch.drop_first(), intent, control);
        assert(longer.drop_first() =~= batch.drop_first().push(intent));
        assert(longer.first() == batch.first());
        let rest = one_shots(batch.drop_first());
        assert(seq![batch.first()] + rest.push(intent) =~= (seq![batch.first()] + rest).push(
            intent,
        ));
    }
}

/// A diagonal is named by the two ways it goes, the tilt first, and each of
/// the four plain ways and the stop by its own word.
pub proof fn a_direction_is_named_by_its_ways(direction: PanTiltDirection)
    ensures
        direction is Up ==> direction_words(direction) == "up"@,
        direction is Down ==> direction_words(direction) == "down"@,
        direction is Left ==> direction_words(direction) == "left"@,
        direction is Right ==> direction_words(direction) == "right"@,
        direction is Stop ==> direction_words(direction) == "stop"@,
        direction is UpLeft ==> direction_words(direction) == "up"@ + "-"@ + "left"@,
        direction is UpRight ==> direction_words(direction) == "up"@ + "-"@ + "right"@,
        direction is DownLeft ==> direction_words(direction) == "down"@ + "-"@ + "left"@,
        direction is DownRight ==> direction_words(direction) == "down"@ + "-"@ + "right"@,
{
    reveal_strlit("up");
    reveal_strlit("down");
    reveal_strlit("left");
    reveal_strlit("right");
    reveal_strlit("-");
    reveal_strlit("up-left");
    reveal_strlit("up-right");
    reveal_strlit("down-left");
    reveal_strlit("down-right");
    assert("up-left"@ =~= "up"@ + "-"@ + "left"@);
    assert("up-right"@ =~= "up"@ + "-"@ + "right"@);
    assert("down-left"@ =~= "down"@ + "-"@ + "left"@);
    assert("down-right"@ =~= "down"@ + "-"@ + "right"@);
}

/// What an intent is called says what it does: which way it goes, which preset
/// it is for and which state it switches to, and nothing of how fast.
pub proof fn an_intent_is_called_what_it_does(intent: Intent)
    ensures
        match intent {
            Intent::DrivePanTilt(velocity) => description(intent) == "pan/tilt "@
                + direction_words(velocity.direction),
            Intent::Nudge(step) => description(intent) == "step "@ + direction_words(
                direction_of(step.pan as int, step.tilt as int),
            ),
            Intent::DriveZoom(drive) => {
                &&& drive is None ==> description(intent) == "zoom stop"@
                &&& drive is Some && drive->Some_0.direction is In ==> description(intent)
                    == "zoom in"@
                &&& drive is Some && drive->Some_0.direction is Out ==> description(intent)
                    == "zoom out"@
            },
            Intent::DriveFocus(drive) => {
                &&& drive is None ==> description(intent) == "focus stop"@
                &&& drive is Some && drive->Some_0.direction is Near ==> description(intent)
                    == "focus near"@
                &&& drive is Some && drive->Some_0.direction is Far ==> description(intent)
                    == "focus far"@
            },
            Intent::SetAutoFocus(auto) => {
                &&& auto ==> description(intent) == "auto focus"@
                &&& !auto ==> description(intent) == "manual focus"@
            },
            Intent::RecallPreset(number) => description(intent) == "recall preset "@ + decimal(
                number as nat,
            ),
            Intent::SavePreset(number) => description(intent) == "save preset "@ + decimal(
                number as nat,
            ),
            Intent::Home => description(intent) == "home"@,
            Intent::ResetPanTilt => description(intent) == "pan/tilt reset"@,
            Intent::SetPower(on) => {
                &&& on ==> description(intent) == "power on"@
                &&& !on ==> description(intent) == "power off"@
            },
            Intent::SetTitle(title) => description(intent) == "set title \""@ + title_text(
                title.0@,
            ) + "\""@,
            Intent::ShowTitle(on) => {
                &&& on ==> description(intent) == "show title"@
                &&& !on ==> description(intent) == "hide title"@
            },
            Intent::QueryState => description(intent) == "state query"@,
        },
        busy_words(intent) == description(intent) + "..."@,
{
}

/// A command that worked is reported as such, one that failed with what went
/// wrong, whether or not it was for a preset and whatever was learned from it.
/// A snapshot is put into words, and a query that failed says why.
pub proof fn an_outcome_says_what_came_of_it(
    intent: Intent,
    error: Error,
    position: Option<Position>,
    state: CameraState,
)
    ensures
        outcome_words(Outcome::Done(intent, Ok(()))) == "OK: "@ + description(intent),
        outcome_words(Outcome::Preset(intent, Ok(position))) == "OK: "@ + description(intent),
        outcome_words(Outcome::Done(intent, Err(error))) == "error ("@ + description(intent)
            + "): "@ + error_message(error),
        outcome_words(Outcome::Preset(intent, Err(error))) == "error ("@ + description(intent)
            + "): "@ + error_message(error),
        outcome_words(Outcome::State(Ok(state))) == state_text(state),
        outcome_words(Outcome::State(Err(error))) == "state query failed: "@ + error_message(
            error,
        ),
{
}

/// The command of an intent is the one that the function for its kind gives:
/// the zoom's for the zoom, the focus's for the focus, and so on. A step that
/// goes nowhere and a question take no command.
pub proof fn an_intent_has_the_command_of_its_kind(intent: Intent)
    requires
        accepted(intent),
    ensures
        match intent {
            Intent::DrivePanTilt(velocity) => command_of(intent) == Command::Drive(velocity),
            Intent::Nudge(step) => match step_move(step) {
                Some(distances) => command_of(intent) == Command::Move(distances),
                None => command_of(intent) is Nothing,
            },
            Intent::DriveZoom(drive) => command_of(intent) == Command::Zoom(zoom_command(drive)),
            Intent::DriveFocus(drive) => command_of(intent) == Command::Focus(
                focus_command(drive),
            ),
            Intent::SetAutoFocus(auto) => command_of(intent) == Command::Focus(mode_command(auto)),
            Intent::RecallPreset(number) => command_of(intent) == Command::Preset(
                PresetCommand::Recall(own_number(number)),
            ),
            Intent::SavePreset(number) => command_of(intent) == Command::Preset(
                PresetCommand::Save(own_number(number)),
            ),
            Intent::Home => command_of(intent) is Home,
            Intent::ResetPanTilt => command_of(intent) is Reset,
            Intent::SetPower(on) => command_of(intent) == Command::Power(power_command(on)),
            Intent::SetTitle(title) => command_of(intent) == Command::Title(title),
            Intent::ShowTitle(on) => command_of(intent) == Command::Display(display_message(on)),
            Intent::QueryState => command_of(intent) is Nothing,
        },
{
}

/// Zooming in is carried out by the telephoto command and zooming out by the
/// wide one, and likewise nearer and farther, on and off, automatic and by
/// hand, shown and hidden, each with its own speed or number.
pub proof fn an_intent_is_carried_out_as_meant(
    intent: Intent,
    speed: u8,
    level: SpeedLevel,
    number: u8,
)
    requires
        accepted(intent),
    ensures
        command_of(intent) == Command::Zoom(ZoomCommand::Tele(speed)) <==> intent
            == Intent::DriveZoom(Some(ZoomDrive { direction: ZoomDirection::In, speed })),
        command_of(intent) == Command::Zoom(ZoomCommand::Wide(speed)) <==> intent
            == Intent::DriveZoom(Some(ZoomDrive { direction: ZoomDirection::Out, speed })),
        command_of(intent) == Command::Zoom(ZoomCommand::Stop) <==> intent == Intent::DriveZoom(
            None,
        ),
        command_of(intent) == Command::Focus(FocusCommand::Near(level)) <==> intent
            == Intent::DriveFocus(
            Some(FocusDrive { direction: FocusDirection::Near, speed: level }),
        ),
        command_of(intent) == Command::Focus(FocusCommand::Far(level)) <==> intent
            == Intent::DriveFocus(
            Some(FocusDrive { direction: FocusDirection::Far, speed: level }),
        ),
        command_of(intent) == Command::Focus(FocusCommand::Stop) <==> intent == Intent::DriveFocus(
            None,
        ),
        command_of(intent) == Command::Focus(FocusCommand::Auto) <==> intent
            == Intent::SetAutoFocus(true),
        command_of(intent) == Command::Focus(FocusCommand::Manual) <==> intent
            == Intent::SetAutoFocus(false),
        number < 255 ==> (command_of(intent) == Command::Preset(PresetCommand::Recall(number))
            <==> intent == Intent::RecallPreset((number + 1) as u8)),
        number < 255 ==> (command_of(intent) == Command::Preset(PresetCommand::Save(number))
            <==> intent == Intent::SavePreset((number + 1) as u8)),
        command_of(intent) matches Command::Power(PowerCommand::On(_)) ==> intent
            == Intent::SetPower(true),
        intent == Intent::SetPower(true) ==> command_of(intent) is Power && command_of(
            intent,
        )->Power_0 is On,
        command_of(intent) == Command::Power(PowerCommand::Off) <==> intent == Intent::SetPower(
            false,
        ),
        command_of(intent) == Command::Display(TitleDisplay(0x02)) <==> intent
            == Intent::ShowTitle(true),
        command_of(intent) == Command::Display(TitleDisplay(0x03)) <==> intent
            == Intent::ShowTitle(false),
        command_of(intent) is Home <==> intent is Home,
        command_of(intent) is Reset <==> intent is ResetPanTilt,
        command_of(intent) is Nothing <==> intent is QueryState || intent == Intent::Nudge(
            Step { pan: 0, tilt: 0 },
        ),
        command_of(intent) is Drive <==> intent is DrivePanTilt,
        command_of(intent) is Title <==> intent is SetTitle,
        command_of(intent) is Move <==> intent is Nudge && intent != Intent::Nudge(
            Step { pan: 0, tilt: 0 },
        ),
{
}

/// No command stands for two intents.
pub proof fn a_command_stands_for_one_intent(first: Intent, second: Intent)
    requires
        accepted(first),
        accepted(second),
        command_of(first) == command_of(second),
        !(command_of(first) is Nothing),
    ensures
        first == second,
{
}

/// An intent is refused exactly when it names preset zero or asks a drive for
/// more speed than the camera has, and the refusal is about that number.
pub proof fn only_a_number_out_of_range_is_refused(intent: Intent, error: Error)
    ensures
        !accepted(intent) <==> {
            ||| intent matches Intent::DrivePanTilt(velocity) && (velocity.pan_speed > 24
                || velocity.tilt_speed > 20)
            ||| intent matches Intent::DriveZoom(Some(drive)) && drive.speed > 7
            ||| intent == Intent::RecallPreset(0)
            ||| intent == Intent::SavePreset(0)
        },
        !accepted(intent) && refused_with(intent, error) ==> {
            &&& error is ParameterOutOfRange
            &&& error->value < error->min || error->value > error->max
            &&& intent matches Intent::DrivePanTilt(velocity) ==> {
                &&& velocity.pan_speed > 24 ==> error->parameter@ == "PanSpeed"@ && error->value
                    == velocity.pan_speed && error->max == 24
                &&& velocity.pan_speed <= 24 ==> error->parameter@ == "TiltSpeed"@ && error->value
                    == velocity.tilt_speed && error->max == 20
            }
            &&& intent matches Intent::DriveZoom(Some(drive)) ==> error->parameter@
                == "ZoomSpeed"@ && error->value == drive.speed && error->max == 7
            &&& intent is RecallPreset || intent is SavePreset ==> error->parameter@ == "preset"@
                && error->value == 0 && error->min == 1
        },
{
}

/// What comes of an intent is what came of its command, for one that takes a
/// command and is not refused; one that takes none is done at once.
pub proof fn what_comes_of_an_intent_came_of_its_command<E: FnOnce(Command) -> Result<(), Error>>(
    intent: Intent,
    execute: E,
    done: Result<(), Error>,
)
    requires
        carried_out(intent, execute, done),
    ensures
        !accepted(intent) ==> done is Err && done->Err_0 is ParameterOutOfRange,
        intent is QueryState || intent == Intent::Nudge(Step { pan: 0, tilt: 0 }) ==> done is Ok,
        accepted(intent) && !(intent is QueryState) && intent != Intent::Nudge(
            Step { pan: 0, tilt: 0 },
        ) ==> call_ensures(execute, (command_of(intent),), done),
{
}

} // verus!
