//! The window the camera is pointed from: what its controls ask for, and what
//! it shows.
//!
//! Drawing, the pointer and the channels to the camera are the program's. Each
//! function here that asks the camera for something returns the intents to
//! send, in order.

use std::collections::BTreeMap;

use vstd::prelude::*;
use vstd::string::*;

use crate::clock::MILLISECOND;
use crate::config::{config_error_words, keeps_what_is_written, written, Config, ConfigError};
use crate::drives::Drives;
use crate::error::Error;
use crate::focus::FocusDrive;
use crate::gamepad::{pad_drives, pressed, Buttons, Gamepad, Pad, Press};
use crate::nudge::Step;
use crate::pan_tilt::Velocity;
use crate::session::{LATEST, NO_ANSWER_HINT, QUIESCENCE_INTERVAL, RETRY_INTERVAL};
use crate::state::{CameraState, Position};
use crate::text::{trim, trimmed};
use crate::title::{title_codes, Title};
use crate::worker::{
    busy_words, describe_busy, describe_outcome, is_movement, is_title, moves, outcome_words,
    Intent, Outcome,
};
use crate::zoom::ZoomDrive;

verus! {

broadcast use vstd::std_specs::btree::group_btree_axioms;

/// How many preset slots to offer: the same six the number keys reach.
pub const PRESETS: u8 = 6;

/// How many titles to keep on hand.
pub const TITLES: u8 = 3;

/// How often to draw a frame while a controller is plugged in. A stick is read
/// where a frame is drawn.
pub const CONTROLLER_INTERVAL: u64 = 16 * MILLISECOND;

/// What to say about a focus control the camera is currently overriding.
pub const AUTO_FOCUS_HINT: &'static str = "Turn off Auto focus to focus by hand";

/// What to say about any control a sleeping camera would refuse.
pub const STANDBY_HINT: &'static str = "The camera is in standby \u{2014} switch it on first";

/// What to say about a Mark button the lock is holding off.
pub const LOCKED_HINT: &'static str = "Turn on Marking, above, to store presets";

/// What to say once the camera has refused a title.
pub const NO_TITLES_HINT: &'static str = "This camera has no title command";

/// A line of feedback for the operator, and whether it reports a failure.
#[derive(Debug)]
pub struct Status {
    /// What it says.
    pub text: String,
    /// Whether it reports a failure, which needs looking at rather than just
    /// reading.
    pub failed: bool,
}

impl Status {
    /// Feedback that reports no failure.
    pub fn ok(text: String) -> (status: Status)
        ensures
            status == (Status { text, failed: false }),
    {
        Status { text, failed: false }
    }

    /// Feedback that reports a failure.
    pub fn failed(text: String) -> (status: Status)
        ensures
            status == (Status { text, failed: true }),
    {
        Status { text, failed: true }
    }
}

/// What a status line shows.
pub open spec fn shown(status: Option<Status>) -> Option<(Seq<char>, bool)> {
    match status {
        Some(status) => Some((status.text@, status.failed)),
        None => None,
    }
}

/// Where the camera connection attempt currently stands.
#[derive(Debug)]
pub enum Connection {
    /// Nothing has been tried.
    Disconnected,
    /// Still trying to reach a camera.
    Connecting,
    /// Connected.
    Connected {
        /// How the connection was made.
        link: String,
        /// Who made the camera.
        summary: String,
        /// The rest of the version reply.
        details: String,
    },
    /// Nothing answered.
    Failed(String),
}

/// What a successful connection attempt found out.
#[derive(Debug)]
pub struct Link {
    /// How the connection was made.
    pub link: String,
    /// Who made the camera.
    pub summary: String,
    /// The rest of the version reply.
    pub details: String,
    /// Whether this camera answered for its title feature.
    pub titles: bool,
}

/// What the window knows and remembers.
#[derive(Debug)]
pub struct App {
    /// What is typed into the camera field.
    pub port_input: String,
    /// Where the connection stands.
    pub connection: Connection,
    /// The camera's last reported state.
    pub camera_state: Option<CameraState>,
    /// The line of feedback.
    pub status: Option<Status>,
    /// What each preset is of, in the operator's own words.
    pub preset_labels: BTreeMap<u8, String>,
    /// Where each preset was last seen to point.
    pub preset_positions: BTreeMap<u8, Position>,
    /// Whether the Mark buttons are locked off. Locked at every start: a
    /// preset is slow to set up and instant to destroy.
    pub marking_locked: bool,
    /// The titles kept on hand.
    pub titles: BTreeMap<u8, String>,
    /// Which of them the camera was last told to show.
    pub shown_title: Option<u8>,
    /// Whether the camera has a title command at all, as far as it has said.
    pub titles_supported: bool,
    /// The camera that last connected.
    pub camera: Option<String>,
    /// Whether there is a config file that would not load, which nothing worth
    /// more has come up to replace.
    pub config_unread: bool,
    /// When to ask for a fresh snapshot, or `None` when the last is current.
    pub next_query_at: Option<u64>,
    /// What the head was last told to do.
    pub pan_tilt: Velocity,
    /// What the zoom was last told to do.
    pub zoom: Option<ZoomDrive>,
    /// What the focus was last told to do.
    pub focus: Option<FocusDrive>,
    /// Enough memory of the controller to tell a press from a hold.
    pub gamepad: Gamepad,
}

/// What a status line shows once these intents have been sent: the last one
/// that doesn't show in the picture is said to be under way.
pub open spec fn said(before: Option<(Seq<char>, bool)>, intents: Seq<Intent>) -> Option<
    (Seq<char>, bool),
>
    decreases intents.len(),
{
    if intents.len() == 0 {
        before
    } else if moves(intents.last()) {
        said(before, intents.drop_last())
    } else {
        Some((busy_words(intents.last()), false))
    }
}

/// Whether sending these intents at `now` is all that happened to a window: a
/// query follows once things settle, and the status line says what is under
/// way.
pub open spec fn sent(before: App, after: App, intents: Seq<Intent>, now: u64) -> bool {
    &&& after == App {
        next_query_at: if intents.len() > 0 {
            Some((now + QUIESCENCE_INTERVAL) as u64)
        } else {
            before.next_query_at
        },
        status: after.status,
        ..before
    }
    &&& shown(after.status) == said(shown(before.status), intents)
    &&& intents.len() == 0 ==> after.status == before.status
}

proof fn said_in_turn(
    before: Option<(Seq<char>, bool)>,
    first: Seq<Intent>,
    second: Seq<Intent>,
)
    ensures
        said(before, first + second) == said(said(before, first), second),
    decreases second.len(),
{
    if second.len() == 0 {
        assert(first + second =~= first);
    } else {
        said_in_turn(before, first, second.drop_last());
        assert((first + second).drop_last() =~= first + second.drop_last());
    }
}

/// Nothing that is asked of the camera lets a config file that would not load be
/// written over.
pub proof fn a_config_that_will_not_load_is_left_alone(
    before: App,
    after: App,
    intents: Seq<Intent>,
    now: u64,
)
    requires
        sent(before, after, intents, now),
    ensures
        after.config_unread == before.config_unread,
{
}

/// Sending one batch and then another is sending both.
proof fn sent_in_turn(
    before: App,
    between: App,
    after: App,
    first: Seq<Intent>,
    second: Seq<Intent>,
    now: u64,
)
    requires
        sent(before, between, first, now),
        sent(between, after, second, now),
    ensures
        sent(before, after, first + second, now),
{
    said_in_turn(shown(before.status), first, second);
}

/// An intent, if there is cause for it.
pub open spec fn if_so(cause: bool, intent: Intent) -> Seq<Intent> {
    if cause {
        seq![intent]
    } else {
        Seq::empty()
    }
}

fn push_if(intents: &mut Vec<Intent>, cause: bool, intent: Intent)
    ensures
        final(intents)@ == old(intents)@ + if_so(cause, intent),
{
    if cause {
        intents.push(intent);
    }
    proof {
        assert(intents@ =~= old(intents)@ + if_so(cause, intent));
    }
}

/// The drives that differ from what the camera was last told, as the intents
/// that say so.
pub open spec fn drive_changes(app: App, drives: Drives) -> Seq<Intent> {
    if_so(drives.pan_tilt != app.pan_tilt, Intent::DrivePanTilt(drives.pan_tilt)) + if_so(
        drives.zoom != app.zoom,
        Intent::DriveZoom(drives.zoom),
    ) + if_so(drives.focus != app.focus, Intent::DriveFocus(drives.focus))
}

/// A window that has told the camera to run these drives.
pub open spec fn with_drives(app: App, drives: Drives) -> App {
    App { pan_tilt: drives.pan_tilt, zoom: drives.zoom, focus: drives.focus, ..app }
}

/// Whether the camera is focusing for itself. Unknown counts as not.
pub open spec fn focuses_itself(state: Option<CameraState>) -> bool {
    state matches Some(state) && state.lens matches Some(lens) && lens.auto_focus
}

/// Whether the camera has said it is in standby. Unknown counts as awake.
pub open spec fn is_asleep(state: Option<CameraState>) -> bool {
    state matches Some(state) && !state.power_on
}

/// The power state to offer: the one the camera is not in, and waking while it
/// hasn't said.
pub open spec fn offered_power(state: Option<CameraState>) -> bool {
    !(state matches Some(state) && state.power_on)
}

/// A set of drives with whatever a camera in this state won't take dropped
/// out of it.
pub open spec fn taken(state: Option<CameraState>, drives: Drives) -> Drives {
    if is_asleep(state) {
        Drives::at_rest()
    } else if focuses_itself(state) {
        Drives { focus: None, ..drives }
    } else {
        drives
    }
}

/// What a press on the controller asks of a camera in this state. A sleeping
/// camera takes nothing but being woken.
pub open spec fn press_intent(state: Option<CameraState>, press: Press) -> Option<Intent> {
    match press {
        Press::TogglePower => Some(Intent::SetPower(offered_power(state))),
        _ => if is_asleep(state) {
            None
        } else {
            Some(
                match press {
                    Press::Recall(preset) => Intent::RecallPreset(preset),
                    Press::Mark(preset) => Intent::SavePreset(preset),
                    Press::Home => Intent::Home,
                    Press::ToggleAutoFocus => Intent::SetAutoFocus(!focuses_itself(state)),
                    Press::Nudge(direction) => Intent::Nudge(Step::one(direction)),
                    Press::TogglePower => Intent::SetPower(offered_power(state)),
                },
            )
        },
    }
}

/// What a run of presses asks of a camera in this state, in order.
pub open spec fn press_intents(state: Option<CameraState>, presses: Seq<Press>) -> Seq<Intent>
    decreases presses.len(),
{
    if presses.len() == 0 {
        Seq::empty()
    } else {
        let before = press_intents(state, presses.drop_last());
        match press_intent(state, presses.last()) {
            Some(intent) => before.push(intent),
            None => before,
        }
    }
}

/// The intents that take these steps, in order.
pub open spec fn step_intents(steps: Seq<Step>) -> Seq<Intent> {
    steps.map_values(|step: Step| Intent::Nudge(step))
}

/// Whether these intents show the title in slot `number`, or hide whatever is
/// showing if there is none.
pub open spec fn shows_title(
    titles: Map<u8, String>,
    number: Option<u8>,
    intents: Seq<Intent>,
) -> bool {
    if number is Some && titles.contains_key(number->Some_0) {
        &&& intents.len() == 2
        &&& intents[0] is SetTitle
        &&& intents[0]->SetTitle_0.0@ == title_codes(titles[number->Some_0]@)
        &&& intents[1] == Intent::ShowTitle(true)
    } else {
        intents == seq![Intent::ShowTitle(false)]
    }
}

/// Whether an outcome is a camera saying that it has no title command.
pub open spec fn refuses_titles(outcome: Outcome) -> bool {
    match outcome {
        Outcome::Done(Intent::SetTitle(_), Err(Error::SyntaxError)) => true,
        Outcome::Done(Intent::ShowTitle(_), Err(Error::SyntaxError)) => true,
        _ => false,
    }
}

/// Whether an outcome reports a failure.
pub open spec fn has_failed(outcome: Outcome) -> bool {
    match outcome {
        Outcome::Done(_, result) => result is Err,
        Outcome::Preset(_, result) => result is Err,
        Outcome::State(result) => result is Err,
    }
}

/// What the status line shows after an outcome. A snapshot and a drive that
/// worked leave it as it was.
pub open spec fn outcome_status(before: Option<(Seq<char>, bool)>, outcome: Outcome) -> Option<
    (Seq<char>, bool),
> {
    if refuses_titles(outcome) {
        Some((NO_TITLES_HINT@, true))
    } else {
        match outcome {
            Outcome::State(Ok(_)) => before,
            Outcome::State(Err(_)) => Some((NO_ANSWER_HINT@, false)),
            Outcome::Done(intent, Ok(_)) => if moves(intent) {
                before
            } else {
                Some((outcome_words(outcome), false))
            },
            _ => Some((outcome_words(outcome), has_failed(outcome))),
        }
    }
}

/// What is known of the camera after an outcome: what it reported, or what it
/// has confirmed about its power, which leaves its lens unknown.
pub open spec fn outcome_state(before: Option<CameraState>, outcome: Outcome) -> Option<
    CameraState,
> {
    match outcome {
        Outcome::State(Ok(state)) => Some(state),
        Outcome::Done(Intent::SetPower(on), Ok(_)) => Some(
            CameraState { power_on: on, lens: None },
        ),
        _ => before,
    }
}

/// Where each preset was last seen to point after an outcome: one that was just
/// recalled or saved points to where the camera then stood.
pub open spec fn learned(before: Map<u8, Position>, outcome: Outcome) -> Map<u8, Position> {
    match outcome {
        Outcome::Preset(Intent::RecallPreset(number), Ok(Some(position))) => before.insert(
            number,
            position,
        ),
        Outcome::Preset(Intent::SavePreset(number), Ok(Some(position))) => before.insert(
            number,
            position,
        ),
        _ => before,
    }
}

/// When to ask next after an outcome: again soon, if the camera didn't answer
/// or is still coming up.
pub open spec fn outcome_query(before: Option<u64>, outcome: Outcome, now: u64) -> Option<u64> {
    match outcome {
        Outcome::State(Ok(state)) => if state.power_on && state.lens is None {
            Some((now + RETRY_INTERVAL) as u64)
        } else {
            before
        },
        Outcome::State(Err(_)) => Some((now + RETRY_INTERVAL) as u64),
        _ => before,
    }
}

fn learn(positions: &mut BTreeMap<u8, Position>, outcome: &Outcome)
    ensures
        final(positions)@ == learned(old(positions)@, *outcome),
{
    match outcome {
        Outcome::Preset(Intent::RecallPreset(number), Ok(Some(position))) => {
            positions.insert(*number, *position);
        },
        Outcome::Preset(Intent::SavePreset(number), Ok(Some(position))) => {
            positions.insert(*number, *position);
        },
        _ => {},
    }
}

fn copied(positions: &BTreeMap<u8, Position>) -> (copy: BTreeMap<u8, Position>)
    ensures
        copy@ == positions@,
{
    let mut copy: BTreeMap<u8, Position> = BTreeMap::new();
    let mut number: u16 = 0;
    while number < 256
        invariant
            number <= 256,
            forall|slot: u8|
                #[trigger] copy@.contains_key(slot) <==> slot < number && positions@.contains_key(
                    slot,
                ),
            forall|slot: u8| #[trigger] copy@.contains_key(slot) ==> copy@[slot] == positions@[slot],
        decreases 256 - number,
    {
        let slot: u8 = number as u8;
        if let Some(position) = positions.get(&slot) {
            copy.insert(slot, *position);
        }
        number += 1;
    }
    proof {
        assert forall|slot: u8| copy@.dom().contains(slot) == positions@.dom().contains(slot) by {
            assert(copy@.contains_key(slot) <==> positions@.contains_key(slot));
        }
        assert(copy@ =~= positions@);
    }
    copy
}

impl App {
    /// A window that has done nothing yet, with `first_guess` in its camera
    /// field.
    pub fn new(first_guess: &str) -> (app: App)
        ensures
            app.port_input@ == first_guess@,
            app.connection is Disconnected,
            app.camera_state is None,
            app.status is None,
            app.preset_labels@ == Map::<u8, String>::empty(),
            app.preset_positions@ == Map::<u8, Position>::empty(),
            app.marking_locked,
            app.titles@ == Map::<u8, String>::empty(),
            app.shown_title is None,
            app.titles_supported,
            app.camera is None,
            !app.config_unread,
            app.next_query_at is None,
            app.pan_tilt == Velocity::stopped(),
            app.zoom is None,
            app.focus is None,
            app.gamepad.previous == Buttons::up(),
    {
        App {
            port_input: first_guess.to_owned(),
            connection: Connection::Disconnected,
            camera_state: None,
            status: None,
            preset_labels: BTreeMap::new(),
            preset_positions: BTreeMap::new(),
            marking_locked: true,
            titles: BTreeMap::new(),
            shown_title: None,
            titles_supported: true,
            camera: None,
            config_unread: false,
            next_query_at: None,
            pan_tilt: Velocity::stop(),
            zoom: None,
            focus: None,
            gamepad: Gamepad::default(),
        }
    }

    /// A window that starts from what was loaded of its config file, if there
    /// is one to load.
    ///
    /// A config file that won't load says so in the status line rather than
    /// being silently replaced: what it holds was typed by hand, and is worth
    /// more than the blank slate that would overwrite it.
    pub fn with_config(first_guess: &str, loaded: Option<Result<Config, ConfigError>>) -> (app: App)
        ensures
            app.marking_locked && app.titles_supported && app.shown_title is None,
            app.connection is Disconnected && app.camera_state is None,
            app.config_unread == (loaded matches Some(Err(_))),
            app.next_query_at is None,
            app.pan_tilt == Velocity::stopped() && app.zoom is None && app.focus is None,
            app.gamepad.previous == Buttons::up(),
            match loaded {
                Some(Ok(config)) => {
                    &&& app.status is None
                    &&& app.preset_labels == config.presets
                    &&& app.preset_positions == config.preset_positions
                    &&& app.titles == config.titles
                    &&& match config.camera {
                        Some(camera) => app.port_input@ == camera@ && app.camera is Some
                            && app.camera->Some_0@ == camera@,
                        None => app.port_input@ == first_guess@ && app.camera is None,
                    }
                },
                Some(Err(error)) => {
                    &&& shown(app.status) == Some((config_error_words(error), true))
                    &&& app.preset_labels@ == Map::<u8, String>::empty()
                    &&& app.preset_positions@ == Map::<u8, Position>::empty()
                    &&& app.titles@ == Map::<u8, String>::empty()
                    &&& app.port_input@ == first_guess@ && app.camera is None
                },
                None => {
                    &&& app.status is None
                    &&& app.preset_labels@ == Map::<u8, String>::empty()
                    &&& app.preset_positions@ == Map::<u8, Position>::empty()
                    &&& app.titles@ == Map::<u8, String>::empty()
                    &&& app.port_input@ == first_guess@ && app.camera is None
                },
            },
    {
        let mut app = App::new(first_guess);
        match loaded {
            Some(Ok(config)) => {
                app.preset_labels = config.presets;
                app.preset_positions = config.preset_positions;
                app.titles = config.titles;
                if let Some(camera) = config.camera {
                    app.port_input = camera.clone();
                    app.camera = Some(camera);
                }
            },
            Some(Err(error)) => {
                app.status = Some(Status::failed(error.message()));
                app.config_unread = true;
            },
            None => {},
        }
        app
    }

    /// Notes that an intent is being sent: shows it as under way, unless it
    /// shows in the picture, and arms the query that follows once things
    /// settle.
    pub fn send_intent(&mut self, intent: Intent, now: u64)
        requires
            now <= LATEST,
        ensures
            sent(*old(self), *final(self), seq![intent], now),
    {
        if !is_movement(intent) {
            self.status = Some(Status::ok(describe_busy(intent)));
        }
        self.next_query_at = Some(now + QUIESCENCE_INTERVAL);
        proof {
            let one = seq![intent];
            assert(one.drop_last() =~= Seq::empty());
            assert(said(shown(old(self).status), one.drop_last()) == shown(old(self).status));
        }
    }

    /// Whether the camera is focusing for itself, in which case the focus
    /// controls have nothing to drive.
    pub fn auto_focusing(&self) -> (auto: bool)
        ensures
            auto == focuses_itself(self.camera_state),
    {
        match self.camera_state {
            Some(state) => match state.lens {
                Some(lens) => lens.auto_focus,
                None => false,
            },
            None => false,
        }
    }

    /// Whether the camera has said it is in standby, in which case it will
    /// refuse everything the controls could ask of it.
    pub fn asleep(&self) -> (asleep: bool)
        ensures
            asleep == is_asleep(self.camera_state),
    {
        match self.camera_state {
            Some(state) => !state.power_on,
            None => false,
        }
    }

    /// The power state to switch to: waking, until the camera has said.
    pub fn power_to_offer(&self) -> (on: bool)
        ensures
            on == offered_power(self.camera_state),
    {
        match self.camera_state {
            Some(state) => !state.power_on,
            None => true,
        }
    }

    /// Whether any control is being driven.
    pub open spec fn is_driving(self) -> bool {
        !self.pan_tilt.stops() || self.zoom is Some || self.focus is Some
    }

    /// Whether any control is currently being driven.
    pub fn driving(&self) -> (driving: bool)
        ensures
            driving == self.is_driving(),
    {
        !self.pan_tilt.is_stop() || self.zoom.is_some() || self.focus.is_some()
    }

    /// Whether a state query is to be sent now, which it then has been. None
    /// is while a control is being driven.
    pub fn send_query_state_if_due(&mut self, now: u64) -> (due: bool)
        ensures
            due == (!old(self).is_driving() && old(self).next_query_at is Some && now >= old(
                self,
            ).next_query_at->Some_0),
            *final(self) == (App {
                next_query_at: if due {
                    None
                } else {
                    old(self).next_query_at
                },
                ..*old(self)
            }),
    {
        if self.driving() {
            return false;
        }
        match self.next_query_at {
            Some(at) => {
                if now < at {
                    return false;
                }
            },
            None => return false,
        }
        self.next_query_at = None;
        true
    }

    /// Starts a connection attempt, and says what to connect to: what is typed
    /// into the camera field, without the white space round it.
    pub fn start_connect(&mut self) -> (port: String)
        ensures
            port@ == trimmed(old(self).port_input@),
            *final(self) == (App { connection: Connection::Connecting, ..*old(self) }),
    {
        let port = trim(self.port_input.as_str()).to_owned();
        self.connection = Connection::Connecting;
        port
    }

    /// Takes up whatever the connection attempt came back with, and says
    /// whether the config is worth saving: only a camera that answered is
    /// worth coming back to.
    pub fn poll_connect_result(&mut self, result: Result<Link, String>, now: u64) -> (save: bool)
        ensures
            save == result is Ok,
            match result {
                Ok(link) => {
                    &&& *final(self) == App {
                        connection: Connection::Connected {
                            link: link.link,
                            summary: link.summary,
                            details: link.details,
                        },
                        titles_supported: link.titles,
                        next_query_at: Some(now),
                        camera: final(self).camera,
                        config_unread: false,
                        ..*old(self)
                    }
                    &&& final(self).camera is Some
                    &&& final(self).camera->Some_0@ == trimmed(old(self).port_input@)
                },
                Err(error) => *final(self) == (App {
                    connection: Connection::Failed(error),
                    ..*old(self)
                }),
            },
    {
        match result {
            Ok(link) => {
                self.camera = Some(trim(self.port_input.as_str()).to_owned());
                self.config_unread = false;
                self.connection = Connection::Connected {
                    link: link.link,
                    summary: link.summary,
                    details: link.details,
                };
                // Per camera: connecting to a different one is asking the
                // question again.
                self.titles_supported = link.titles;
                self.next_query_at = Some(now);
                true
            },
            Err(error) => {
                self.connection = Connection::Failed(error);
                false
            },
        }
    }

    /// Takes up one outcome.
    pub fn apply_outcome(&mut self, outcome: &Outcome, now: u64)
        requires
            now <= LATEST,
        ensures
            *final(self) == (App {
                camera_state: outcome_state(old(self).camera_state, *outcome),
                next_query_at: outcome_query(old(self).next_query_at, *outcome, now),
                titles_supported: old(self).titles_supported && !refuses_titles(*outcome),
                shown_title: if refuses_titles(*outcome) {
                    None
                } else {
                    old(self).shown_title
                },
                status: final(self).status,
                preset_positions: final(self).preset_positions,
                ..*old(self)
            }),
            shown(final(self).status) == outcome_status(shown(old(self).status), *outcome),
            final(self).preset_positions@ == learned(old(self).preset_positions@, *outcome),
    {
        learn(&mut self.preset_positions, outcome);
        match outcome {
            Outcome::State(Ok(state)) => {
                self.camera_state = Some(*state);
                // An awake camera that isn't answering for its lens is still
                // coming up, so keep asking until it does.
                if state.power_on && state.lens.is_none() {
                    self.next_query_at = Some(now + RETRY_INTERVAL);
                }
                return;
            },
            Outcome::State(Err(_)) => {
                self.next_query_at = Some(now + RETRY_INTERVAL);
                self.status = Some(Status::ok(NO_ANSWER_HINT.to_owned()));
                return;
            },
            Outcome::Done(Intent::SetPower(on), Ok(_)) => {
                // The camera's own word; its lens has just parked, or is about
                // to unpark.
                self.camera_state = Some(CameraState { power_on: *on, lens: None });
            },
            Outcome::Done(intent, Err(Error::SyntaxError)) => {
                // A camera that answers a syntax error to a title hasn't been
                // sent a bad one: it has no such command.
                if is_title(*intent) {
                    self.titles_supported = false;
                    self.shown_title = None;
                    self.status = Some(Status::failed(NO_TITLES_HINT.to_owned()));
                    return;
                }
            },
            Outcome::Done(intent, Ok(_)) => {
                if is_movement(*intent) {
                    return;
                }
            },
            _ => {},
        }
        let failed = match outcome {
            Outcome::Done(_, result) => result.is_err(),
            Outcome::Preset(_, result) => result.is_err(),
            Outcome::State(result) => result.is_err(),
        };
        self.status = Some(Status { text: describe_outcome(outcome), failed });
    }

    /// Sends whatever changed since the last frame, and nothing that didn't: a
    /// drive keeps running on the camera by itself.
    pub fn apply_drives(&mut self, drives: Drives, now: u64) -> (intents: Vec<Intent>)
        requires
            now <= LATEST,
        ensures
            intents@ == drive_changes(*old(self), drives),
            sent(with_drives(*old(self), drives), *final(self), intents@, now),
    {
        let mut intents: Vec<Intent> = Vec::new();
        push_if(
            &mut intents,
            drives.pan_tilt != self.pan_tilt,
            Intent::DrivePanTilt(drives.pan_tilt),
        );
        push_if(&mut intents, drives.zoom != self.zoom, Intent::DriveZoom(drives.zoom));
        push_if(&mut intents, drives.focus != self.focus, Intent::DriveFocus(drives.focus));
        proof {
            assert(intents@ =~= drive_changes(*old(self), drives));
            drives_say_nothing(shown(old(self).status), intents@);
        }
        self.pan_tilt = drives.pan_tilt;
        self.zoom = drives.zoom;
        self.focus = drives.focus;
        if intents.len() > 0 {
            self.next_query_at = Some(now + QUIESCENCE_INTERVAL);
        }
        intents
    }

    /// A set of drives with whatever the camera won't take dropped out of it,
    /// so that no control asks for what the window is drawn as refusing.
    pub fn drivable(&self, drives: Drives) -> (taken_drives: Drives)
        ensures
            taken_drives == taken(self.camera_state, drives),
    {
        if self.asleep() {
            return Drives::stopped();
        }
        if self.auto_focusing() {
            Drives { pan_tilt: drives.pan_tilt, zoom: drives.zoom, focus: None }
        } else {
            drives
        }
    }

    /// What the keys are asking for: the drives of those held down, and first
    /// a step for every arrow that was just pressed. Nothing, while a text
    /// field has the keyboard.
    pub fn keyboard_drives(
        &mut self,
        typing: bool,
        steps: &[Step],
        held: Drives,
        now: u64,
    ) -> (asked: (Drives, Vec<Intent>))
        requires
            now <= LATEST,
        ensures
            asked.0 == if typing {
                Drives::at_rest()
            } else {
                taken(old(self).camera_state, held)
            },
            asked.1@ == if typing || is_asleep(old(self).camera_state) {
                Seq::<Intent>::empty()
            } else {
                step_intents(steps@)
            },
            sent(*old(self), *final(self), asked.1@, now),
    {
        let mut intents: Vec<Intent> = Vec::new();
        if typing {
            return (Drives::stopped(), intents);
        }
        if !self.asleep() {
            let mut index: usize = 0;
            proof {
                assert(intents@ =~= step_intents(steps@.take(0)));
            }
            while index < steps.len()
                invariant
                    index <= steps@.len(),
                    now <= LATEST,
                    intents@ == step_intents(steps@.take(index as int)),
                    sent(*old(self), *self, intents@, now),
                decreases steps@.len() - index,
            {
                let intent = Intent::Nudge(steps[index]);
                let ghost before = *self;
                let ghost earlier = intents@;
                self.send_intent(intent, now);
                intents.push(intent);
                proof {
                    sent_in_turn(*old(self), before, *self, earlier, seq![intent], now);
                    assert(intents@ =~= earlier + seq![intent]);
                    assert(intents@ =~= step_intents(steps@.take(index + 1)));
                }
                index += 1;
            }
            proof {
                assert(steps@.take(index as int) =~= steps@);
            }
        }
        (self.drivable(held), intents)
    }

    /// What the game controller is asking for, if there is one to read: the
    /// drives to hold, and whatever was just pressed on it.
    pub fn controller_input(&mut self, read: Option<Pad>) -> (asked: (Drives, Vec<Press>))
        requires
            read matches Some(pad) ==> pad.valid(),
        ensures
            match read {
                Some(pad) => {
                    &&& asked.0 == taken(old(self).camera_state, pad_drives(pad))
                    &&& asked.1@ == pressed(old(self).gamepad.previous, pad.buttons)
                    &&& *final(self) == App {
                        gamepad: Gamepad { previous: pad.buttons },
                        ..*old(self)
                    }
                },
                None => {
                    &&& asked.0 == Drives::at_rest()
                    &&& asked.1@ == Seq::<Press>::empty()
                    &&& *final(self) == *old(self)
                },
            },
    {
        match read {
            Some(pad) => {
                let (drives, presses) = self.gamepad.update(pad);
                (self.drivable(drives), presses)
            },
            None => (Drives::stopped(), Vec::new()),
        }
    }

    /// Does whatever was just pressed on the controller.
    pub fn apply_presses(&mut self, presses: &[Press], now: u64) -> (intents: Vec<Intent>)
        requires
            now <= LATEST,
        ensures
            intents@ == press_intents(old(self).camera_state, presses@),
            sent(*old(self), *final(self), intents@, now),
    {
        let mut intents: Vec<Intent> = Vec::new();
        let mut index: usize = 0;
        proof {
            assert(presses@.take(0) =~= Seq::empty());
            assert(intents@ =~= press_intents(old(self).camera_state, presses@.take(0)));
        }
        while index < presses.len()
            invariant
                index <= presses@.len(),
                now <= LATEST,
                intents@ == press_intents(old(self).camera_state, presses@.take(index as int)),
                sent(*old(self), *self, intents@, now),
            decreases presses@.len() - index,
        {
            proof {
                let longer = presses@.take(index + 1);
                assert(longer.drop_last() =~= presses@.take(index as int));
                assert(longer.last() == presses@[index as int]);
            }
            if let Some(intent) = self.pressed_for(presses[index]) {
                let ghost before = *self;
                let ghost earlier = intents@;
                self.send_intent(intent, now);
                intents.push(intent);
                proof {
                    sent_in_turn(*old(self), before, *self, earlier, seq![intent], now);
                    assert(intents@ =~= earlier + seq![intent]);
                }
            }
            index += 1;
        }
        proof {
            assert(presses@.take(index as int) =~= presses@);
        }
        intents
    }

    /// What a press on the controller asks for.
    pub fn pressed_for(&self, press: Press) -> (intent: Option<Intent>)
        ensures
            intent == press_intent(self.camera_state, press),
    {
        if let Press::TogglePower = press {
            // The way out of standby, so it is never held off.
            return Some(Intent::SetPower(self.power_to_offer()));
        }
        if self.asleep() {
            return None;
        }
        Some(
            match press {
                Press::Recall(preset) => Intent::RecallPreset(preset),
                Press::Mark(preset) => Intent::SavePreset(preset),
                Press::Home => Intent::Home,
                Press::ToggleAutoFocus => Intent::SetAutoFocus(!self.auto_focusing()),
                Press::Nudge(direction) => Intent::Nudge(Step::towards(direction)),
                Press::TogglePower => Intent::SetPower(self.power_to_offer()),
            },
        )
    }

    /// Shows the given title on the camera, or hides whatever is showing.
    pub fn show_title(&mut self, number: Option<u8>, now: u64) -> (intents: Vec<Intent>)
        requires
            now <= LATEST,
        ensures
            shows_title(old(self).titles@, number, intents@),
            sent(
                (App { shown_title: number, ..*old(self) }),
                *final(self),
                intents@,
                now,
            ),
    {
        self.shown_title = number;
        let ghost start = *self;
        let title = match number {
            Some(number) => match self.titles.get(&number) {
                Some(text) => Some(Title::new(text.as_str())),
                None => None,
            },
            None => None,
        };
        match title {
            Some(title) => {
                let set = Intent::SetTitle(title);
                let show = Intent::ShowTitle(true);
                self.send_intent(set, now);
                let ghost between = *self;
                self.send_intent(show, now);
                let intents = vec![set, show];
                proof {
                    sent_in_turn(start, between, *self, seq![set], seq![show], now);
                    assert(intents@ =~= seq![set] + seq![show]);
                }
                intents
            },
            None => {
                let hide = Intent::ShowTitle(false);
                self.send_intent(hide, now);
                let intents = vec![hide];
                proof {
                    assert(intents@ =~= seq![hide]);
                }
                intents
            },
        }
    }

    /// Takes up that the title in slot `number` was edited: the camera is given
    /// the new text if it is showing that one, and is left alone otherwise.
    pub fn title_edited(&mut self, number: u8, now: u64) -> (intents: Vec<Intent>)
        requires
            now <= LATEST,
        ensures
            old(self).shown_title == Some(number) ==> shows_title(
                old(self).titles@,
                Some(number),
                intents@,
            ),
            old(self).shown_title != Some(number) ==> intents@ == Seq::<Intent>::empty(),
            sent(*old(self), *final(self), intents@, now),
    {
        let showing = match self.shown_title {
            Some(shown) => shown == number,
            None => false,
        };
        if showing {
            self.show_title(Some(number), now)
        } else {
            Vec::new()
        }
    }

    /// Whether the focus rocker takes a push, and what to say of it where it
    /// doesn't.
    pub fn focus_rocker(&self) -> (rocker: (bool, &'static str))
        ensures
            rocker.0 == (!is_asleep(self.camera_state) && !focuses_itself(self.camera_state)),
            rocker.1@ == if is_asleep(self.camera_state) {
                STANDBY_HINT@
            } else {
                AUTO_FOCUS_HINT@
            },
    {
        if self.asleep() {
            (false, STANDBY_HINT)
        } else {
            (!self.auto_focusing(), AUTO_FOCUS_HINT)
        }
    }

    /// Takes up that something was typed that is kept in the config file.
    pub fn edited(&mut self)
        ensures
            *final(self) == (App { config_unread: false, ..*old(self) }),
    {
        self.config_unread = false;
    }

    /// Whether the config file may be written: not over one that would not
    /// load, until there is a camera or a description to keep in its place.
    pub fn may_save(&self) -> (may: bool)
        ensures
            may == !self.config_unread,
    {
        !self.config_unread
    }

    /// What to write to the config file, if it may be written.
    pub fn save_config(&self) -> (config: Option<Config>)
        ensures
            config is Some <==> !self.config_unread,
            config matches Some(config) ==> {
                &&& match self.camera {
                    Some(camera) => config.camera is Some && config.camera->Some_0@ == camera@,
                    None => config.camera is None,
                }
                &&& keeps_what_is_written(self.preset_labels@, config.presets@)
                &&& config.preset_positions@ == self.preset_positions@
                &&& keeps_what_is_written(self.titles@, config.titles@)
            },
    {
        if !self.may_save() {
            return None;
        }
        Some(
            Config {
                camera: match &self.camera {
                    Some(camera) => Some(camera.clone()),
                    None => None,
                },
                presets: written(&self.preset_labels),
                preset_positions: copied(&self.preset_positions),
                titles: written(&self.titles),
            },
        )
    }

    /// The stops that anything still being driven has to be sent on the way
    /// out. A drive outlives the program that started it.
    pub fn stop_all_drives(&self) -> (intents: Vec<Intent>)
        ensures
            intents@ == drive_stops(*self),
    {
        let mut intents: Vec<Intent> = Vec::new();
        push_if(&mut intents, !self.pan_tilt.is_stop(), Intent::DrivePanTilt(Velocity::stop()));
        push_if(&mut intents, self.zoom.is_some(), Intent::DriveZoom(None));
        push_if(&mut intents, self.focus.is_some(), Intent::DriveFocus(None));
        proof {
            assert(intents@ =~= drive_stops(*self));
        }
        intents
    }
}

/// What the hands on the window's controls are doing in one frame.
#[derive(Debug)]
pub struct Hands {
    /// What the pad and the rockers under the pointer ask for.
    pub pointed: Drives,
    /// What the held keys ask for.
    pub typed: Drives,
    /// What the controller's sticks ask for.
    pub held: Drives,
    /// What was just pressed on the controller.
    pub presses: Vec<Press>,
    /// Whether a text field has the keyboard.
    pub typing: bool,
    /// The steps the arrow keys were just pressed for.
    pub steps: Vec<Step>,
    /// The preset a number key was just pressed for.
    pub preset: Option<u8>,
    /// Whether the key that switches the focus mode was just pressed.
    pub focus_key: bool,
    /// Whether the key that switches the power was just pressed.
    pub power_key: bool,
}

/// What the hands ask the camera's three controls for. The pointer wins where
/// it and the keyboard are asking at once, and both win over the controller.
pub open spec fn asked_drives(state: Option<CameraState>, hands: Hands) -> Drives {
    let typed = if hands.typing {
        Drives::at_rest()
    } else {
        taken(state, hands.typed)
    };
    hands.pointed.filled_from(typed).filled_from(hands.held)
}

/// What the hands ask of the camera in one frame: the steps, then the drives
/// that changed, then the presses, then the keys. A sleeping camera is asked
/// for nothing but its power.
pub open spec fn asked(app: App, hands: Hands) -> Seq<Intent> {
    let asleep = is_asleep(app.camera_state);
    (if hands.typing || asleep {
        Seq::empty()
    } else {
        step_intents(hands.steps@)
    }) + drive_changes(app, asked_drives(app.camera_state, hands)) + press_intents(
        app.camera_state,
        hands.presses@,
    ) + (match hands.preset {
        Some(preset) => if_so(!hands.typing && !asleep, Intent::RecallPreset(preset)),
        None => Seq::empty(),
    }) + if_so(
        !hands.typing && !asleep && hands.focus_key,
        Intent::SetAutoFocus(!focuses_itself(app.camera_state)),
    ) + if_so(
        !hands.typing && hands.power_key,
        Intent::SetPower(offered_power(app.camera_state)),
    )
}

impl App {
    fn send_if(&mut self, intents: &mut Vec<Intent>, cause: bool, intent: Intent, now: u64)
        requires
            now <= LATEST,
        ensures
            final(intents)@ == old(intents)@ + if_so(cause, intent),
            sent(*old(self), *final(self), if_so(cause, intent), now),
    {
        if cause {
            self.send_intent(intent, now);
            intents.push(intent);
        }
        proof {
            assert(intents@ =~= old(intents)@ + if_so(cause, intent));
        }
    }

    /// Does what the hands on the controls ask for in one frame.
    pub fn apply_hands(&mut self, hands: &Hands, now: u64) -> (intents: Vec<Intent>)
        requires
            now <= LATEST,
        ensures
            intents@ == asked(*old(self), *hands),
            sent(
                with_drives(*old(self), asked_drives(old(self).camera_state, *hands)),
                *final(self),
                intents@,
                now,
            ),
    {
        let ghost start = *self;
        let (typed, mut intents) = self.keyboard_drives(
            hands.typing,
            hands.steps.as_slice(),
            hands.typed,
            now,
        );
        let drives = hands.pointed.or(typed).or(hands.held);
        let ghost aimed = with_drives(start, drives);
        let ghost stepped = *self;
        let ghost steps = intents@;

        let mut changes = self.apply_drives(drives, now);
        let ghost driven = *self;
        let ghost turns = changes@;
        intents.append(&mut changes);
        proof {
            assert(sent(aimed, with_drives(stepped, drives), steps, now));
            sent_in_turn(aimed, with_drives(stepped, drives), driven, steps, turns, now);
            assert(intents@ =~= steps + turns);
        }

        let ghost earlier = intents@;
        let mut commands = self.apply_presses(hands.presses.as_slice(), now);
        let ghost pushed = *self;
        let ghost pushes = commands@;
        intents.append(&mut commands);
        proof {
            sent_in_turn(aimed, driven, pushed, earlier, pushes, now);
            assert(intents@ =~= earlier + pushes);
        }

        let live = !self.asleep();
        if let Some(preset) = hands.preset {
            let number_key = !hands.typing && live;
            let ghost earlier = intents@;
            let ghost before = *self;
            let recall = Intent::RecallPreset(preset);
            self.send_if(&mut intents, number_key, recall, now);
            proof {
                sent_in_turn(aimed, before, *self, earlier, if_so(number_key, recall), now);
            }
        }
        let focus_key = !hands.typing && live && hands.focus_key;
        let ghost earlier = intents@;
        let ghost before = *self;
        let switch = Intent::SetAutoFocus(!self.auto_focusing());
        self.send_if(&mut intents, focus_key, switch, now);
        proof {
            sent_in_turn(aimed, before, *self, earlier, if_so(focus_key, switch), now);
        }
        let power_key = !hands.typing && hands.power_key;
        let ghost earlier = intents@;
        let ghost before = *self;
        let power = Intent::SetPower(self.power_to_offer());
        self.send_if(&mut intents, power_key, power, now);
        proof {
            sent_in_turn(aimed, before, *self, earlier, if_so(power_key, power), now);
            assert(intents@ =~= asked(start, *hands));
        }
        intents
    }
}

/// A window that is told again what it was already told asks for no drive
/// again.
pub proof fn a_drive_is_sent_once(app: App, drives: Drives)
    ensures
        drive_changes(with_drives(app, drives), drives) == Seq::<Intent>::empty(),
{
    assert(drive_changes(with_drives(app, drives), drives) =~= Seq::<Intent>::empty());
}

/// While a text field has the keyboard no key asks the camera for anything: what
/// is asked is what the pointer and the controller ask for, whatever keys are
/// held or were just pressed.
pub proof fn a_text_field_keeps_the_keys_to_itself(app: App, hands: Hands)
    requires
        hands.typing,
    ensures
        asked_drives(app.camera_state, hands) == hands.pointed.filled_from(
            Drives::at_rest(),
        ).filled_from(hands.held),
        asked(app, hands) == drive_changes(
            app,
            hands.pointed.filled_from(Drives::at_rest()).filled_from(hands.held),
        ) + press_intents(app.camera_state, hands.presses@),
{
    assert(asked(app, hands) =~= drive_changes(
        app,
        hands.pointed.filled_from(Drives::at_rest()).filled_from(hands.held),
    ) + press_intents(app.camera_state, hands.presses@));
}

/// A camera that said it is in standby is asked for nothing that moves it,
/// whatever the hands do, as long as the dead controls under the pointer and
/// the controller's refused sticks ask for nothing: at most what was driven
/// before is stopped.
pub proof fn a_sleeping_camera_is_left_alone(app: App, hands: Hands, place: int)
    requires
        is_asleep(app.camera_state),
        hands.pointed == Drives::at_rest(),
        hands.held == Drives::at_rest(),
        0 <= place < asked(app, hands).len(),
    ensures
        match asked(app, hands)[place] {
            Intent::DrivePanTilt(velocity) => velocity == Velocity::stopped(),
            Intent::DriveZoom(drive) => drive is None,
            Intent::DriveFocus(drive) => drive is None,
            Intent::SetPower(on) => on,
            _ => false,
        },
{
    let presses = press_intents(app.camera_state, hands.presses@);
    only_waking(app.camera_state, hands.presses@);
    let drives = asked_drives(app.camera_state, hands);
    assert(drives == Drives::at_rest());
    let changes = drive_changes(app, drives);
    let intent = asked(app, hands)[place];
    let power = if_so(!hands.typing && hands.power_key, Intent::SetPower(true));
    assert(asked(app, hands) =~= changes + presses + power);
    if place < changes.len() {
        assert(intent == changes[place]);
    } else if place < changes.len() + presses.len() {
        assert(intent == presses[place - changes.len()]);
    } else {
        assert(intent == power[place - changes.len() - presses.len()]);
    }
}

proof fn only_waking(state: Option<CameraState>, presses: Seq<Press>)
    requires
        is_asleep(state),
    ensures
        forall|place: int|
            0 <= place < press_intents(state, presses).len() ==> #[trigger] press_intents(
                state,
                presses,
            )[place] == Intent::SetPower(true),
    decreases presses.len(),
{
    if presses.len() > 0 {
        only_waking(state, presses.drop_last());
    }
}

/// Nothing a camera focusing for itself is asked for drives its focus.
pub proof fn a_camera_that_focuses_itself_takes_no_focus_drive(
    state: Option<CameraState>,
    drives: Drives,
)
    ensures
        focuses_itself(state) ==> taken(state, drives).focus is None,
        is_asleep(state) ==> taken(state, drives) == Drives::at_rest(),
        !is_asleep(state) ==> taken(state, drives).pan_tilt == drives.pan_tilt && taken(
            state,
            drives,
        ).zoom == drives.zoom,
        taken(state, taken(state, drives)) == taken(state, drives),
{
}

/// The stops of every control that is being driven.
pub open spec fn drive_stops(app: App) -> Seq<Intent> {
    if_so(!app.pan_tilt.stops(), Intent::DrivePanTilt(Velocity::stopped())) + if_so(
        app.zoom is Some,
        Intent::DriveZoom(None),
    ) + if_so(app.focus is Some, Intent::DriveFocus(None))
}

proof fn drives_say_nothing(before: Option<(Seq<char>, bool)>, intents: Seq<Intent>)
    requires
        forall|place: int| 0 <= place < intents.len() ==> moves(#[trigger] intents[place]),
    ensures
        said(before, intents) == before,
    decreases intents.len(),
{
    if intents.len() > 0 {
        assert(moves(intents[intents.len() - 1]));
        drives_say_nothing(before, intents.drop_last());
    }
}

} // verus!
