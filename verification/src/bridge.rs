//! The camera as a remote front end sees it: plain mirrors of the library's
//! own types, and when to ask for a fresh snapshot.

use vstd::prelude::*;
use vstd::string::*;

use crate::clock::{elapsed, time_since};
use crate::pan_tilt::PanTiltDirection;
use crate::session::QUIESCENCE_INTERVAL;
use crate::state;
use crate::worker::{describe_outcome, outcome_words, Outcome};

verus! {

/// The eight directions a pan/tilt drag can move in.
#[derive(Debug, Clone, Copy, PartialEq, Eq, Structural)]
pub enum Direction8 {
    /// Tilt up.
    Up,
    /// Tilt down.
    Down,
    /// Pan left.
    Left,
    /// Pan right.
    Right,
    /// Pan left while tilting up.
    UpLeft,
    /// Pan right while tilting up.
    UpRight,
    /// Pan left while tilting down.
    DownLeft,
    /// Pan right while tilting down.
    DownRight,
}

/// The direction of the head that each of the eight stands for.
pub open spec fn head_direction(direction: Direction8) -> PanTiltDirection {
    match direction {
        Direction8::Up => PanTiltDirection::Up,
        Direction8::Down => PanTiltDirection::Down,
        Direction8::Left => PanTiltDirection::Left,
        Direction8::Right => PanTiltDirection::Right,
        Direction8::UpLeft => PanTiltDirection::UpLeft,
        Direction8::UpRight => PanTiltDirection::UpRight,
        Direction8::DownLeft => PanTiltDirection::DownLeft,
        Direction8::DownRight => PanTiltDirection::DownRight,
    }
}

impl From<Direction8> for PanTiltDirection {
    fn from(direction: Direction8) -> (head: PanTiltDirection) {
        match direction {
            Direction8::Up => PanTiltDirection::Up,
            Direction8::Down => PanTiltDirection::Down,
            Direction8::Left => PanTiltDirection::Left,
            Direction8::Right => PanTiltDirection::Right,
            Direction8::UpLeft => PanTiltDirection::UpLeft,
            Direction8::UpRight => PanTiltDirection::UpRight,
            Direction8::DownLeft => PanTiltDirection::DownLeft,
            Direction8::DownRight => PanTiltDirection::DownRight,
        }
    }
}

impl vstd::std_specs::convert::FromSpecImpl<Direction8> for PanTiltDirection {
    open spec fn obeys_from_spec() -> bool {
        true
    }

    open spec fn from_spec(direction: Direction8) -> PanTiltDirection {
        head_direction(direction)
    }
}

/// The eight directions are told apart, and none of them is the stop.
pub proof fn eight_directions_are_eight(first: Direction8, second: Direction8)
    ensures
        head_direction(first) == head_direction(second) ==> first == second,
        head_direction(first) != PanTiltDirection::Stop,
{
}

/// What a successful connection attempt found.
#[derive(Debug)]
pub struct ConnectedInfo {
    /// The rate the camera answered at.
    pub baud_rate: u32,
    /// What it said about itself.
    pub summary: String,
}

/// A snapshot of a camera that is reporting its lens, in plain numbers.
#[derive(Debug, Clone, Copy, PartialEq, Eq, Structural)]
pub struct CameraState {
    /// Whether the camera is awake.
    pub power_on: bool,
    /// Pan, in raw camera units.
    pub pan: i32,
    /// Tilt, in raw camera units.
    pub tilt: i32,
    /// Zoom, in raw camera units.
    pub zoom: u16,
    /// Focus, in raw camera units.
    pub focus: u16,
}

/// The mirror of a snapshot, if there is a lens to speak of.
pub open spec fn mirrored(state: state::CameraState) -> Option<CameraState> {
    match state.lens {
        Some(lens) => Some(
            CameraState {
                power_on: state.power_on,
                pan: lens.position.pan as i32,
                tilt: lens.position.tilt as i32,
                zoom: lens.position.zoom,
                focus: lens.position.focus,
            },
        ),
        None => None,
    }
}

impl CameraState {
    /// The mirror of a snapshot, or `None` while the camera has nothing to say
    /// about its lens.
    pub fn of(state: &state::CameraState) -> (mirror: Option<CameraState>)
        ensures
            mirror == mirrored(*state),
    {
        match state.lens {
            Some(lens) => Some(
                CameraState {
                    power_on: state.power_on,
                    pan: lens.position.pan as i32,
                    tilt: lens.position.tilt as i32,
                    zoom: lens.position.zoom,
                    focus: lens.position.focus,
                },
            ),
            None => None,
        }
    }
}

/// One update: either a fresh snapshot, or a human-readable description of
/// anything else that came back.
#[derive(Debug)]
pub enum StatusEvent {
    /// A fresh snapshot.
    State(CameraState),
    /// What came of a command, or of a query without a lens to show.
    Command(String),
}

/// Whether `event` is the update that `outcome` makes.
pub open spec fn updates(outcome: Outcome, event: StatusEvent) -> bool {
    match event {
        StatusEvent::State(mirror) => outcome matches Outcome::State(Ok(state)) && mirrored(state)
            == Some(mirror),
        StatusEvent::Command(text) => {
            &&& text@ == outcome_words(outcome)
            &&& !(outcome matches Outcome::State(Ok(state)) && mirrored(state) is Some)
        },
    }
}

impl StatusEvent {
    /// The update that an outcome makes.
    pub fn of(outcome: &Outcome) -> (event: StatusEvent)
        ensures
            updates(*outcome, event),
    {
        if let Outcome::State(Ok(state)) = outcome {
            if let Some(mirror) = CameraState::of(state) {
                return StatusEvent::State(mirror);
            }
        }
        StatusEvent::Command(describe_outcome(outcome))
    }
}

/// Whether `update` is what is handed on next, given whether the last one was
/// taken and what came back since.
pub open spec fn hands_on(taken: bool, outcome: Option<Outcome>, update: Option<StatusEvent>) -> bool {
    match update {
        Some(event) => taken && outcome is Some && updates(outcome->Some_0, event),
        None => !(taken && outcome is Some),
    }
}

/// The update to hand on next, given whether the last one was taken and what
/// came back since. Once an update finds nobody to take it, or nothing more is
/// to come, there is none.
pub fn next_update(taken: bool, outcome: Option<&Outcome>) -> (update: Option<StatusEvent>)
    ensures
        hands_on(
            taken,
            match outcome {
                Some(outcome) => Some(*outcome),
                None => None,
            },
            update,
        ),
{
    match outcome {
        Some(outcome) => if taken {
            Some(StatusEvent::of(outcome))
        } else {
            None
        },
        None => None,
    }
}

/// The first of these outcomes, if there is one.
pub open spec fn first_of(outcomes: Seq<Outcome>) -> Option<Outcome> {
    if outcomes.len() > 0 {
        Some(outcomes[0])
    } else {
        None
    }
}

/// Whether `events` are the updates handed on of these outcomes, step by step,
/// where `answers` says of each in turn whether it was taken.
pub open spec fn handed_on(
    outcomes: Seq<Outcome>,
    taken: bool,
    answers: Seq<bool>,
    events: Seq<StatusEvent>,
) -> bool
    decreases events.len(),
{
    if events.len() == 0 {
        hands_on(taken, first_of(outcomes), None)
    } else {
        &&& hands_on(taken, first_of(outcomes), Some(events[0]))
        &&& handed_on(
            outcomes.drop_first(),
            answers[0],
            answers.drop_first(),
            events.drop_first(),
        )
    }
}

/// Each outcome is handed on once, as its own update and in order, up to and
/// including the first that is not taken. Where `taken` are taken before that
/// one, one more is handed on.
pub proof fn each_outcome_is_handed_on_once(
    outcomes: Seq<Outcome>,
    answers: Seq<bool>,
    events: Seq<StatusEvent>,
    taken: int,
)
    requires
        handed_on(outcomes, true, answers, events),
        answers.len() >= outcomes.len(),
        0 <= taken <= outcomes.len(),
        forall|place: int| 0 <= place < taken ==> #[trigger] answers[place],
        taken < outcomes.len() ==> !answers[taken],
    ensures
        events.len() == if taken < outcomes.len() {
            taken + 1
        } else {
            taken
        },
        forall|place: int|
            0 <= place < events.len() ==> updates(outcomes[place], #[trigger] events[place]),
    decreases outcomes.len(),
{
    if outcomes.len() > 0 {
        assert(events.len() > 0);
        let later = outcomes.drop_first();
        let replies = answers.drop_first();
        let rest = events.drop_first();
        if taken == 0 {
            assert(handed_on(later, false, replies, rest));
            assert(rest.len() == 0);
        } else {
            assert(answers[0]);
            assert forall|place: int| 0 <= place < taken - 1 implies #[trigger] replies[place] by {
                assert(answers[place + 1]);
            }
            each_outcome_is_handed_on_once(later, replies, rest, taken - 1);
            assert forall|place: int| 0 <= place < events.len() implies updates(
                outcomes[place],
                #[trigger] events[place],
            ) by {
                if place > 0 {
                    assert(updates(later[place - 1], rest[place - 1]));
                }
            }
        }
    }
}

/// Hands every outcome on to `sink` as an update, in order, until it takes no
/// more, and says how many it took. Without results there is nothing to hand
/// on: only one subscriber is ever served.
///
/// What is handed on next is for [`next_update`] to say. A closure keeps no
/// record of how often it was called, so that each outcome is handed on once is
/// said of those steps, in [`each_outcome_is_handed_on_once`].
pub fn subscribe_status<S>(results: &Option<Vec<Outcome>>, sink: S) -> (taken: usize)
    where S: Fn(StatusEvent) -> bool,

    requires
        results matches Some(outcomes) ==> may_hand_on(outcomes@, sink),
    ensures
        match results {
            Some(outcomes) => {
                &&& taken <= outcomes@.len()
                &&& forall|place: int|
                    0 <= place < taken ==> answered(sink, #[trigger] outcomes@[place], true)
                &&& taken < outcomes@.len() ==> answered(sink, outcomes@[taken as int], false)
            },
            None => taken == 0,
        },
{
    let outcomes = match results {
        Some(outcomes) => outcomes,
        None => return 0,
    };
    let mut taken: usize = 0;
    let mut listening = true;
    loop
        invariant
            *results == Some(*outcomes),
            taken <= outcomes@.len(),
            may_hand_on(outcomes@, sink),
            forall|place: int|
                0 <= place < taken ==> answered(sink, #[trigger] outcomes@[place], true),
            !listening ==> taken < outcomes@.len() && answered(
                sink,
                outcomes@[taken as int],
                false,
            ),
        decreases
            outcomes@.len() - taken,
            if listening {
                1int
            } else {
                0int
            },
    {
        let outcome = if taken < outcomes.len() {
            Some(&outcomes[taken])
        } else {
            None
        };
        let event = match next_update(listening, outcome) {
            Some(event) => event,
            None => return taken,
        };
        let ghost update = event;
        assert(updates(outcomes@[taken as int], update));
        listening = sink(event);
        assert(updates(outcomes@[taken as int], update) && call_ensures(
            sink,
            (update,),
            listening,
        ));
        assert(answered(sink, outcomes@[taken as int], listening));
        if listening {
            taken += 1;
        }
    }
}

/// Whether the update of each outcome may be handed to the sink once it took
/// those before it.
pub open spec fn may_hand_on<S: Fn(StatusEvent) -> bool>(outcomes: Seq<Outcome>, sink: S) -> bool {
    forall|place: int, event: StatusEvent|
        0 <= place < outcomes.len() && #[trigger] updates(outcomes[place], event) && (forall|
            earlier: int,
        |
            0 <= earlier < place ==> answered(sink, #[trigger] outcomes[earlier], true))
            ==> call_requires(sink, (event,))
}

/// Whether the sink, given the update that `outcome` makes, can answer so.
pub open spec fn answered<S: Fn(StatusEvent) -> bool>(
    sink: S,
    outcome: Outcome,
    answer: bool,
) -> bool {
    exists|event: StatusEvent|
        updates(outcome, event) && #[trigger] call_ensures(sink, (event,), answer)
}

/// When to ask for a fresh snapshot: once things have settled after the most
/// recent command.
#[derive(Debug, Clone, Copy, PartialEq, Eq, Structural)]
pub struct Coordinator {
    /// Whether anything has happened that a snapshot would show.
    pub pending_state_query: bool,
    /// When the most recent command went out, or `None` before the first.
    pub last_command_at: Option<u64>,
}

impl Coordinator {
    /// Whether the commands have settled by `now`.
    pub open spec fn settled(self, now: u64) -> bool {
        self.last_command_at matches Some(at) ==> elapsed(at, now) >= QUIESCENCE_INTERVAL
    }

    /// A coordinator that asks for a first snapshot at once.
    pub fn new() -> (coordinator: Coordinator)
        ensures
            coordinator == (Coordinator { pending_state_query: true, last_command_at: None }),
    {
        Coordinator { pending_state_query: true, last_command_at: None }
    }

    /// Notes that a command went out.
    pub fn sent(&mut self, now: u64)
        ensures
            *final(self) == (Coordinator {
                pending_state_query: true,
                last_command_at: Some(now),
            }),
    {
        self.pending_state_query = true;
        self.last_command_at = Some(now);
    }

    /// Whether a snapshot is to be asked for now, which it then has been.
    pub fn query_due(&mut self, now: u64) -> (due: bool)
        ensures
            due == (old(self).pending_state_query && old(self).settled(now)),
            *final(self) == (Coordinator {
                pending_state_query: old(self).pending_state_query && !due,
                ..*old(self)
            }),
    {
        let settled = match self.last_command_at {
            Some(at) => time_since(at, now) >= QUIESCENCE_INTERVAL,
            None => true,
        };
        let due = self.pending_state_query && settled;
        if due {
            self.pending_state_query = false;
        }
        due
    }
}

/// Each of the eight directions moves the head the way it is named.
pub proof fn a_direction_keeps_its_name(direction: Direction8)
    ensures
        direction is Up <==> head_direction(direction) is Up,
        direction is Down <==> head_direction(direction) is Down,
        direction is Left <==> head_direction(direction) is Left,
        direction is Right <==> head_direction(direction) is Right,
        direction is UpLeft <==> head_direction(direction) is UpLeft,
        direction is UpRight <==> head_direction(direction) is UpRight,
        direction is DownLeft <==> head_direction(direction) is DownLeft,
        direction is DownRight <==> head_direction(direction) is DownRight,
{
}

/// A mirror says what the snapshot says, number for number, and there is one
/// exactly when there is a lens to speak of.
pub proof fn a_mirror_says_what_the_snapshot_says(state: state::CameraState)
    ensures
        mirrored(state) is Some <==> state.lens is Some,
        mirrored(state) matches Some(mirror) ==> {
            let position = state.lens->Some_0.position;
            &&& mirror.power_on == state.power_on
            &&& mirror.pan == position.pan
            &&& mirror.tilt == position.tilt
            &&& mirror.zoom == position.zoom
            &&& mirror.focus == position.focus
        },
{
}

/// A snapshot with a lens is handed on as numbers, and everything else in the
/// words that it is reported in.
pub proof fn an_update_says_what_came_back(outcome: Outcome, event: StatusEvent)
    requires
        updates(outcome, event),
    ensures
        ({
            let snapshot = outcome is State && outcome->State_0 is Ok
                && outcome->State_0->Ok_0.lens is Some;
            &&& event is State <==> snapshot
            &&& event is Command <==> !snapshot
            &&& event matches StatusEvent::Command(text) ==> text@ == outcome_words(outcome)
            &&& event matches StatusEvent::State(mirror) ==> mirror.power_on
                == outcome->State_0->Ok_0.power_on && mirror.pan
                == outcome->State_0->Ok_0.lens->Some_0.position.pan && mirror.tilt
                == outcome->State_0->Ok_0.lens->Some_0.position.tilt && mirror.zoom
                == outcome->State_0->Ok_0.lens->Some_0.position.zoom && mirror.focus
                == outcome->State_0->Ok_0.lens->Some_0.position.focus
        }),
{
}

/// Commands have settled 300 milliseconds after the last of them, and there is
/// nothing to settle before the first.
pub proof fn commands_settle_after_a_while(coordinator: Coordinator, now: u64)
    requires
        coordinator.last_command_at matches Some(at) ==> at <= now,
    ensures
        coordinator.settled(now) <==> coordinator.last_command_at is None
            || coordinator.last_command_at->Some_0 + 300_000_000 <= now,
{
}

} // verus!
