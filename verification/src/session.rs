//! The interactive session the two terminal front ends share: turns held keys
//! into continuous camera drives, and the camera's answers into what the
//! operator is told.
//!
//! A session neither sends nor prints. Each event it is given comes back as a
//! list of effects, in order, for whoever runs the loop to perform.

use vstd::prelude::*;
use vstd::string::*;

use crate::clock::{elapsed, time_since, MILLISECOND};
use crate::error::Error;
use crate::keymap::{self, key_action, Action, Hold, KeyCode, KeyEvent, KeyEventKind, Paces};
use crate::nudge::Step;
use crate::pan_tilt::PanTiltDirection;
use crate::worker::{
    busy_words, describe_busy, describe_outcome, is_movement, moves, outcome_words, Intent,
    Outcome,
};

verus! {

/// How long to wait for a key event before checking on results, the query
/// timer and whether a held key has gone quiet.
pub const POLL_INTERVAL: u64 = 100 * MILLISECOND;

/// How long to wait after the most recent command before asking for a fresh
/// snapshot, so that a burst of commands makes a single query.
pub const QUIESCENCE_INTERVAL: u64 = 300 * MILLISECOND;

/// How long to wait before asking again after a query the camera didn't
/// answer.
pub const RETRY_INTERVAL: u64 = 1000 * MILLISECOND;

/// How long a held key's drive survives without another press, repeat or
/// release arriving for it: the fallback for terminals that never report a
/// release. It has to outlast the pause before auto-repeat kicks in.
pub const HELD_KEY_TIMEOUT: u64 = 700 * MILLISECOND;

/// The last moment from which every interval can still be counted.
pub const LATEST: u64 = u64::MAX - RETRY_INTERVAL;

/// What to say when a focus key is held against a camera that is focusing for
/// itself.
pub const AUTO_FOCUS_HINT: &'static str = "auto focus is on \u{2014} press f to focus by hand";

/// What to say when a movement key is held against a camera that is asleep.
pub const STANDBY_HINT: &'static str = "the camera is in standby \u{2014} press p to wake it";

/// What to say while the camera isn't answering questions about itself.
pub const NO_ANSWER_HINT: &'static str = "waiting for the camera to answer...";

/// Where a session's output goes.
pub trait Report {
    /// Called once per pass of the loop, before it waits for input.
    fn refresh(&mut self) -> (refreshed: Result<(), Error>);

    /// A command was sent, or a result other than a snapshot came back.
    fn status(&mut self, text: &str) -> (reported: Result<(), Error>);

    /// A fresh snapshot arrived.
    fn camera_state(&mut self, text: &str) -> (reported: Result<(), Error>);
}

/// Something a session asks for.
#[derive(Debug)]
pub enum Effect {
    /// Send this to the camera.
    Send(Intent),
    /// Tell the operator this.
    Status(String),
    /// Show this as the camera's state.
    CameraState(String),
}

/// An [`Effect`] with its text taken as characters.
pub enum EffectView {
    /// Send this to the camera.
    Send(Intent),
    /// Tell the operator this.
    Status(Seq<char>),
    /// Show this as the camera's state.
    CameraState(Seq<char>),
}

impl View for Effect {
    type V = EffectView;

    open spec fn view(&self) -> EffectView {
        match *self {
            Effect::Send(intent) => EffectView::Send(intent),
            Effect::Status(text) => EffectView::Status(text@),
            Effect::CameraState(text) => EffectView::CameraState(text@),
        }
    }
}

/// A list of effects with their texts taken as characters.
pub open spec fn effects_view(effects: Seq<Effect>) -> Seq<EffectView> {
    effects.map_values(|effect: Effect| effect@)
}

/// The movement key currently held down, and the drive it started.
#[derive(Debug, Clone, Copy, PartialEq, Eq, Structural)]
pub struct HeldKey {
    /// Which key is down. Tracked by key, so that releasing one movement key
    /// can't stop a drive some other key started.
    pub code: KeyCode,
    /// The drive it started.
    pub hold: Hold,
    /// When this key was last heard from.
    pub last_seen: u64,
}

/// What a session knows: what is being driven, when to ask for a fresh
/// snapshot, and what the camera has said about itself.
#[derive(Debug, Clone, Copy, PartialEq, Eq, Structural)]
pub struct Session {
    /// When to ask for a fresh snapshot, or `None` when the last is current.
    pub next_query_at: Option<u64>,
    /// The movement key that is down.
    pub held: Option<HeldKey>,
    /// How the camera said it was focusing, or `None` until it has said.
    pub auto_focus: Option<bool>,
    /// Whether the camera said it was awake, or `None` until it has said.
    pub power_on: Option<bool>,
}

/// A session after an event, and what the event asked for.
pub struct Turn {
    /// The session.
    pub session: Session,
    /// The effects, in order.
    pub effects: Seq<EffectView>,
}

/// What an event does that changes nothing.
pub open spec fn nothing(session: Session) -> Turn {
    Turn { session, effects: Seq::empty() }
}

/// What an event does that only tells the operator something.
pub open spec fn telling(session: Session, text: Seq<char>) -> Turn {
    Turn { session, effects: seq![EffectView::Status(text)] }
}

/// What sending an intent does: it is shown as under way, unless it shows in
/// the picture, and a query follows once things settle.
pub open spec fn sending(session: Session, intent: Intent, now: u64) -> Turn {
    Turn {
        session: Session {
            next_query_at: Some((now + QUIESCENCE_INTERVAL) as u64),
            ..session
        },
        effects: if moves(intent) {
            seq![EffectView::Send(intent)]
        } else {
            seq![EffectView::Send(intent), EffectView::Status(busy_words(intent))]
        },
    }
}

/// Whether a key that starts `hold` leaves another control running that has to
/// be stopped first.
pub open spec fn leaves_running(session: Session, hold: Hold) -> bool {
    session.held matches Some(previous) && previous.hold.control() != hold.control()
}

/// What starting a drive does. A camera that would refuse the drive is not
/// sent it; a key on the same control just re-aims it; a different control is
/// stopped first.
pub open spec fn starting_hold(session: Session, code: KeyCode, hold: Hold, now: u64) -> Turn {
    if session.power_on == Some(false) {
        telling(session, STANDBY_HINT@)
    } else if hold is Focus && session.auto_focus == Some(true) {
        telling(session, AUTO_FOCUS_HINT@)
    } else {
        Turn {
            session: Session {
                next_query_at: Some((now + QUIESCENCE_INTERVAL) as u64),
                held: Some(HeldKey { code, hold, last_seen: now }),
                ..session
            },
            effects: if leaves_running(session, hold) {
                seq![
                    EffectView::Send(session.held->Some_0.hold.stop()),
                    EffectView::Send(hold.start()),
                ]
            } else {
                seq![EffectView::Send(hold.start())]
            },
        }
    }
}

/// What stopping the drive of the held key does.
pub open spec fn stopping_hold(session: Session, now: u64) -> Turn {
    match session.held {
        Some(held) => sending(Session { held: None, ..session }, held.hold.stop(), now),
        None => nothing(session),
    }
}

/// Whether `code` is the movement key that is down.
pub open spec fn is_held(session: Session, code: KeyCode) -> bool {
    session.held matches Some(held) && held.code == code
}

/// The way an arrow key points, if the key is one.
pub open spec fn arrow_way(code: KeyCode) -> Option<PanTiltDirection> {
    match code {
        KeyCode::Up => Some(PanTiltDirection::Up),
        KeyCode::Down => Some(PanTiltDirection::Down),
        KeyCode::Left => Some(PanTiltDirection::Left),
        KeyCode::Right => Some(PanTiltDirection::Right),
        _ => None,
    }
}

/// What a key means to a session. An arrow on its own takes one step and holds
/// nothing: shift is what tells it to drive. Letting go of the arrow that is
/// driving ends the drive, whether or not shift was let go of before it.
pub open spec fn meaning(session: Session, key: KeyEvent, paces: Paces) -> Option<Action> {
    if arrow_way(key.code) is Some && !key.shift && !(key.kind is Release && is_held(
        session,
        key.code,
    )) {
        Some(Action::Camera(Intent::Nudge(Step::one(arrow_way(key.code)->Some_0))))
    } else {
        key_action(key, paces)
    }
}

/// What an event of a key that holds a drive does.
pub open spec fn holding(
    session: Session,
    code: KeyCode,
    kind: KeyEventKind,
    hold: Hold,
    now: u64,
) -> Turn {
    if is_held(session, code) {
        if kind is Release {
            stopping_hold(session, now)
        } else {
            nothing(
                Session {
                    held: Some(HeldKey { last_seen: now, ..session.held->Some_0 }),
                    ..session
                },
            )
        }
    } else if kind is Release {
        nothing(session)
    } else {
        starting_hold(session, code, hold, now)
    }
}

/// What a key event does once the key's action is known. Everything but a
/// hold happens on the way down only.
pub open spec fn acting(
    session: Session,
    action: Option<Action>,
    code: KeyCode,
    kind: KeyEventKind,
    now: u64,
) -> Turn {
    match action {
        Some(Action::Hold(hold)) => holding(session, code, kind, hold, now),
        Some(Action::Camera(intent)) => if !(kind is Press) {
            nothing(session)
        } else if moves(intent) && session.power_on == Some(false) {
            telling(session, STANDBY_HINT@)
        } else {
            sending(session, intent, now)
        },
        Some(Action::ToggleAutoFocus) => if kind is Press {
            let auto = session.auto_focus == Some(false);
            sending(
                Session { auto_focus: Some(auto), ..session },
                Intent::SetAutoFocus(auto),
                now,
            )
        } else {
            nothing(session)
        },
        Some(Action::TogglePower) => if kind is Press {
            sending(session, Intent::SetPower(session.power_on != Some(true)), now)
        } else {
            nothing(session)
        },
        Some(Action::Quit) => nothing(session),
        None => nothing(session),
    }
}

/// Whether a key event with this action ends the session.
pub open spec fn quits(action: Option<Action>, kind: KeyEventKind) -> bool {
    action == Some(Action::Quit) && kind is Press
}

/// What an outcome does: a snapshot is shown and believed, a confirmed switch
/// is the camera's word on its power, a query that went unanswered is asked
/// again, a drive that worked was already visible, and anything else is
/// reported.
pub open spec fn taking_up(session: Session, outcome: Outcome, now: u64) -> Turn {
    match outcome {
        Outcome::State(Ok(state)) => Turn {
            session: Session {
                power_on: Some(state.power_on),
                auto_focus: match state.lens {
                    Some(lens) => Some(lens.auto_focus),
                    None => None,
                },
                next_query_at: if state.power_on && state.lens is None {
                    Some((now + RETRY_INTERVAL) as u64)
                } else {
                    session.next_query_at
                },
                ..session
            },
            effects: seq![EffectView::CameraState(outcome_words(outcome))],
        },
        Outcome::State(Err(_)) => telling(
            Session { next_query_at: Some((now + RETRY_INTERVAL) as u64), ..session },
            NO_ANSWER_HINT@,
        ),
        Outcome::Done(Intent::SetPower(on), Ok(_)) => telling(
            Session { power_on: Some(on), auto_focus: None, ..session },
            outcome_words(outcome),
        ),
        Outcome::Done(intent, Ok(_)) => if moves(intent) {
            nothing(session)
        } else {
            telling(session, outcome_words(outcome))
        },
        _ => telling(session, outcome_words(outcome)),
    }
}

/// One turn after another.
pub open spec fn followed_by(first: Turn, second: Turn) -> Turn {
    Turn { session: second.session, effects: first.effects + second.effects }
}

/// What a run of outcomes does, in the order they came.
pub open spec fn draining(session: Session, outcomes: Seq<Outcome>, now: u64) -> Turn
    decreases outcomes.len(),
{
    if outcomes.len() == 0 {
        nothing(session)
    } else {
        let before = draining(session, outcomes.drop_last(), now);
        followed_by(before, taking_up(before.session, outcomes.last(), now))
    }
}

/// What a held key that has gone quiet does.
pub open spec fn going_stale(session: Session, now: u64) -> Turn {
    if session.held matches Some(held) && elapsed(held.last_seen, now) >= HELD_KEY_TIMEOUT {
        stopping_hold(session, now)
    } else {
        nothing(session)
    }
}

/// What checking on the query timer does. Nothing is asked while something is
/// being driven.
pub open spec fn querying(session: Session, now: u64) -> Turn {
    if session.held is None && session.next_query_at is Some && now
        >= session.next_query_at->Some_0 {
        Turn {
            session: Session { next_query_at: None, ..session },
            effects: seq![EffectView::Send(Intent::QueryState)],
        }
    } else {
        nothing(session)
    }
}

/// How a pass of the loop ends.
#[derive(Debug, Clone, Copy)]
pub enum Next {
    /// With another pass.
    Continue,
    /// With the operator's leave, after this stop has been sent and confirmed.
    Quit(Option<Intent>),
    /// With nobody left to carry anything out.
    Gone,
}

/// The stop that the held key's drive needs.
pub open spec fn held_stop(session: Session) -> Option<Intent> {
    match session.held {
        Some(held) => Some(held.hold.stop()),
        None => None,
    }
}

/// What one pass of the loop does: the key first, then a held key that has
/// gone quiet, then the results, then the query. Quitting ends the pass at the
/// key, and a worker that is gone ends it before the query.
pub open spec fn passing(
    session: Session,
    key: Option<KeyEvent>,
    outcomes: Seq<Outcome>,
    connected: bool,
    paces: Paces,
    now: u64,
) -> (Next, Turn) {
    let pressed = match key {
        Some(key) => acting(session, meaning(session, key, paces), key.code, key.kind, now),
        None => nothing(session),
    };
    if key is Some && quits(meaning(session, key->Some_0, paces), key->Some_0.kind) {
        (
            Next::Quit(held_stop(pressed.session)),
            Turn { session: Session { held: None, ..pressed.session }, effects: pressed.effects },
        )
    } else {
        let quiet = followed_by(pressed, going_stale(pressed.session, now));
        let drained = followed_by(quiet, draining(quiet.session, outcomes, now));
        if !connected {
            (Next::Gone, drained)
        } else {
            (Next::Continue, followed_by(drained, querying(drained.session, now)))
        }
    }
}

fn arrow_direction(code: KeyCode) -> (direction: Option<PanTiltDirection>)
    ensures
        direction == arrow_way(code),
{
    match code {
        KeyCode::Up => Some(PanTiltDirection::Up),
        KeyCode::Down => Some(PanTiltDirection::Down),
        KeyCode::Left => Some(PanTiltDirection::Left),
        KeyCode::Right => Some(PanTiltDirection::Right),
        _ => None,
    }
}

fn say(text: &str) -> (effects: Vec<Effect>)
    ensures
        effects_view(effects@) == seq![EffectView::Status(text@)],
{
    let effects = vec![Effect::Status(text.to_owned())];
    proof {
        assert(effects_view(effects@) =~= seq![EffectView::Status(text@)]);
    }
    effects
}

fn silence() -> (effects: Vec<Effect>)
    ensures
        effects_view(effects@) == Seq::<EffectView>::empty(),
{
    let effects: Vec<Effect> = Vec::new();
    proof {
        assert(effects_view(effects@) =~= Seq::<EffectView>::empty());
    }
    effects
}

impl Session {
    /// A session that is about to ask the camera for its first snapshot.
    pub fn new(now: u64) -> (session: Session)
        ensures
            session == (Session {
                next_query_at: Some(now),
                held: None,
                auto_focus: None,
                power_on: None,
            }),
    {
        Session { next_query_at: Some(now), held: None, auto_focus: None, power_on: None }
    }

    /// Sends a camera command, showing it as in progress right away.
    pub fn send(&mut self, intent: Intent, now: u64) -> (effects: Vec<Effect>)
        requires
            now <= LATEST,
        ensures
            *final(self) == sending(*old(self), intent, now).session,
            effects_view(effects@) == sending(*old(self), intent, now).effects,
    {
        self.next_query_at = Some(now + QUIESCENCE_INTERVAL);
        if is_movement(intent) {
            let effects = vec![Effect::Send(intent)];
            proof {
                assert(effects_view(effects@) =~= seq![EffectView::Send(intent)]);
            }
            effects
        } else {
            let effects = vec![Effect::Send(intent), Effect::Status(describe_busy(intent))];
            proof {
                assert(effects_view(effects@) =~= seq![
                    EffectView::Send(intent),
                    EffectView::Status(busy_words(intent)),
                ]);
            }
            effects
        }
    }

    /// Applies one key event, and says whether the operator asked to quit.
    pub fn handle_key(&mut self, key: KeyEvent, paces: Paces, now: u64) -> (turn: (
        bool,
        Vec<Effect>,
    ))
        requires
            paces.valid(),
            now <= LATEST,
        ensures
            turn.0 == quits(meaning(*old(self), key, paces), key.kind),
            ({
                let expected = acting(
                    *old(self),
                    meaning(*old(self), key, paces),
                    key.code,
                    key.kind,
                    now,
                );
                *final(self) == expected.session && effects_view(turn.1@) == expected.effects
            }),
    {
        let action = self.means(key, paces);
        self.act(action, key.code, key.kind, now)
    }

    /// What a key means to this session.
    pub fn means(&self, key: KeyEvent, paces: Paces) -> (action: Option<Action>)
        requires
            paces.valid(),
        ensures
            action == meaning(*self, key, paces),
    {
        let released = matches!(key.kind, KeyEventKind::Release);
        let held = match self.held {
            Some(held) => held.code == key.code,
            None => false,
        };
        if !key.shift && !(released && held) {
            if let Some(direction) = arrow_direction(key.code) {
                return Some(Action::Camera(Intent::Nudge(Step::towards(direction))));
            }
        }
        keymap::map_key(key, paces)
    }

    /// Applies one key event whose action is known, and says whether the
    /// operator asked to quit.
    pub fn act(
        &mut self,
        action: Option<Action>,
        code: KeyCode,
        kind: KeyEventKind,
        now: u64,
    ) -> (turn: (bool, Vec<Effect>))
        requires
            now <= LATEST,
        ensures
            turn.0 == quits(action, kind),
            *final(self) == acting(*old(self), action, code, kind, now).session,
            effects_view(turn.1@) == acting(*old(self), action, code, kind, now).effects,
    {
        let action = match action {
            Some(action) => action,
            None => return (false, silence()),
        };
        let pressed = matches!(kind, KeyEventKind::Press);
        match action {
            Action::Quit => (pressed, silence()),
            Action::Camera(intent) => {
                if !pressed {
                    (false, silence())
                } else if is_movement(intent) && self.power_on == Some(false) {
                    (false, say(STANDBY_HINT))
                } else {
                    (false, self.send(intent, now))
                }
            },
            Action::ToggleAutoFocus => {
                if !pressed {
                    return (false, silence());
                }
                // Manual focus is offered first: it is what the focus keys
                // need, and needing them is why anyone presses this.
                let auto = self.auto_focus == Some(false);
                self.auto_focus = Some(auto);
                (false, self.send(Intent::SetAutoFocus(auto), now))
            },
            Action::TogglePower => {
                if !pressed {
                    return (false, silence());
                }
                // Waking is offered first, and nothing is recorded: what the
                // camera is doing is the camera's to say.
                let on = self.power_on != Some(true);
                (false, self.send(Intent::SetPower(on), now))
            },
            Action::Hold(hold) => (false, self.handle_hold(code, kind, hold, now)),
        }
    }

    /// Starts, refreshes or ends the drive a held movement key runs.
    ///
    /// A repeat of the key that is already driving sends nothing: more traffic
    /// would only come between it and the stop that has to end the move.
    pub fn handle_hold(
        &mut self,
        code: KeyCode,
        kind: KeyEventKind,
        hold: Hold,
        now: u64,
    ) -> (effects: Vec<Effect>)
        requires
            now <= LATEST,
        ensures
            *final(self) == holding(*old(self), code, kind, hold, now).session,
            effects_view(effects@) == holding(*old(self), code, kind, hold, now).effects,
    {
        let released = matches!(kind, KeyEventKind::Release);
        let current = match self.held {
            Some(held) => held.code == code,
            None => false,
        };
        if current {
            if released {
                self.stop_hold(now)
            } else {
                self.refresh_hold(now);
                silence()
            }
        } else if released {
            silence()
        } else {
            self.start_hold(code, hold, now)
        }
    }

    /// Notes that the held key was heard from.
    pub fn refresh_hold(&mut self, now: u64)
        ensures
            *final(self) == (Session {
                held: match old(self).held {
                    Some(held) => Some(HeldKey { last_seen: now, ..held }),
                    None => None,
                },
                ..*old(self)
            }),
    {
        if let Some(held) = self.held {
            self.held = Some(HeldKey { code: held.code, hold: held.hold, last_seen: now });
        }
    }

    /// Starts the drive of a movement key that has gone down.
    pub fn start_hold(&mut self, code: KeyCode, hold: Hold, now: u64) -> (effects: Vec<Effect>)
        requires
            now <= LATEST,
        ensures
            *final(self) == starting_hold(*old(self), code, hold, now).session,
            effects_view(effects@) == starting_hold(*old(self), code, hold, now).effects,
    {
        if self.power_on == Some(false) {
            return say(STANDBY_HINT);
        }
        if matches!(hold, Hold::Focus(_)) && self.auto_focus == Some(true) {
            return say(AUTO_FOCUS_HINT);
        }
        let mut effects: Vec<Effect> = Vec::new();
        if let Some(previous) = self.held {
            if previous.hold.stop() != hold.stop() {
                effects.push(Effect::Send(previous.hold.stop()));
            }
        }
        effects.push(Effect::Send(hold.start()));
        self.next_query_at = Some(now + QUIESCENCE_INTERVAL);
        self.held = Some(HeldKey { code, hold, last_seen: now });
        proof {
            assert(effects_view(effects@) =~= starting_hold(*old(self), code, hold, now).effects);
        }
        effects
    }

    /// Stops the drive of the held key.
    pub fn stop_hold(&mut self, now: u64) -> (effects: Vec<Effect>)
        requires
            now <= LATEST,
        ensures
            *final(self) == stopping_hold(*old(self), now).session,
            effects_view(effects@) == stopping_hold(*old(self), now).effects,
    {
        match self.held {
            Some(held) => {
                self.held = None;
                self.send(held.hold.stop(), now)
            },
            None => silence(),
        }
    }

    /// Stops a held key's drive once its events stop arriving.
    pub fn stop_stale_hold(&mut self, now: u64) -> (effects: Vec<Effect>)
        requires
            now <= LATEST,
        ensures
            *final(self) == going_stale(*old(self), now).session,
            effects_view(effects@) == going_stale(*old(self), now).effects,
    {
        match self.held {
            Some(held) => {
                if time_since(held.last_seen, now) >= HELD_KEY_TIMEOUT {
                    self.stop_hold(now)
                } else {
                    silence()
                }
            },
            None => silence(),
        }
    }

    /// Takes up one result.
    pub fn take_up(&mut self, outcome: &Outcome, now: u64) -> (effects: Vec<Effect>)
        requires
            now <= LATEST,
        ensures
            *final(self) == taking_up(*old(self), *outcome, now).session,
            effects_view(effects@) == taking_up(*old(self), *outcome, now).effects,
    {
        match outcome {
            Outcome::State(Ok(state)) => {
                self.power_on = Some(state.power_on);
                // A camera that isn't reporting its lens hasn't said how it is
                // focusing either.
                self.auto_focus = match state.lens {
                    Some(lens) => Some(lens.auto_focus),
                    None => None,
                };
                // An awake camera that isn't answering for its lens is still
                // coming up; a sleeping one is left alone.
                if state.power_on && state.lens.is_none() {
                    self.next_query_at = Some(now + RETRY_INTERVAL);
                }
                let effects = vec![Effect::CameraState(describe_outcome(outcome))];
                proof {
                    assert(effects_view(effects@) =~= seq![
                        EffectView::CameraState(outcome_words(*outcome)),
                    ]);
                }
                effects
            },
            Outcome::State(Err(_)) => {
                self.next_query_at = Some(now + RETRY_INTERVAL);
                say(NO_ANSWER_HINT)
            },
            Outcome::Done(Intent::SetPower(on), Ok(_)) => {
                self.power_on = Some(*on);
                // Whichever way it went, the lens is no longer where it was.
                self.auto_focus = None;
                say(describe_outcome(outcome).as_str())
            },
            Outcome::Done(intent, Ok(_)) => {
                if is_movement(*intent) {
                    silence()
                } else {
                    say(describe_outcome(outcome).as_str())
                }
            },
            _ => say(describe_outcome(outcome).as_str()),
        }
    }

    /// Takes up every result that is waiting, in the order they came.
    pub fn drain(&mut self, outcomes: &[Outcome], now: u64) -> (effects: Vec<Effect>)
        requires
            now <= LATEST,
        ensures
            *final(self) == draining(*old(self), outcomes@, now).session,
            effects_view(effects@) == draining(*old(self), outcomes@, now).effects,
    {
        let mut effects = silence();
        let mut index: usize = 0;
        proof {
            assert(outcomes@.take(0) =~= Seq::empty());
        }
        while index < outcomes.len()
            invariant
                index <= outcomes@.len(),
                now <= LATEST,
                *self == draining(*old(self), outcomes@.take(index as int), now).session,
                effects_view(effects@) == draining(
                    *old(self),
                    outcomes@.take(index as int),
                    now,
                ).effects,
            decreases outcomes@.len() - index,
        {
            let mut more = self.take_up(&outcomes[index], now);
            append(&mut effects, &mut more);
            proof {
                let longer = outcomes@.take(index + 1);
                assert(longer.drop_last() =~= outcomes@.take(index as int));
                assert(longer.last() == outcomes@[index as int]);
            }
            index += 1;
        }
        proof {
            assert(outcomes@.take(index as int) =~= outcomes@);
        }
        effects
    }

    /// Asks for a snapshot once the most recent command has had time to
    /// settle.
    ///
    /// Skipped while something is being driven: the camera's position is a
    /// moving target, and a query in flight is one more thing the stop has to
    /// wait behind.
    pub fn query_if_due(&mut self, now: u64) -> (effects: Vec<Effect>)
        ensures
            *final(self) == querying(*old(self), now).session,
            effects_view(effects@) == querying(*old(self), now).effects,
    {
        if self.held.is_some() {
            return silence();
        }
        match self.next_query_at {
            Some(at) => {
                if now < at {
                    return silence();
                }
            },
            None => return silence(),
        }
        self.next_query_at = None;
        let effects = vec![Effect::Send(Intent::QueryState)];
        proof {
            assert(effects_view(effects@) =~= seq![EffectView::Send(Intent::QueryState)]);
        }
        effects
    }

    /// Ends the session: the stop that something still being driven has to be
    /// sent, and whose confirmation is worth waiting for. A continuous drive
    /// outlives the program that started it.
    pub fn finish(&mut self) -> (stop: Option<Intent>)
        ensures
            *final(self) == (Session { held: None, ..*old(self) }),
            stop == held_stop(*old(self)),
    {
        match self.held {
            Some(held) => {
                self.held = None;
                Some(held.hold.stop())
            },
            None => None,
        }
    }

    /// Makes one pass of the loop: takes the key that was read, if any, and
    /// the results that are waiting, and says how the pass ends. `connected`
    /// is whether the worker is still there.
    pub fn pass(
        &mut self,
        key: Option<KeyEvent>,
        outcomes: &[Outcome],
        connected: bool,
        paces: Paces,
        now: u64,
    ) -> (turn: (Next, Vec<Effect>))
        requires
            paces.valid(),
            now <= LATEST,
        ensures
            ({
                let expected = passing(*old(self), key, outcomes@, connected, paces, now);
                &&& turn.0 == expected.0
                &&& *final(self) == expected.1.session
                &&& effects_view(turn.1@) == expected.1.effects
            }),
    {
        let mut effects = silence();
        if let Some(key) = key {
            let (quit, pressed) = self.handle_key(key, paces, now);
            effects = pressed;
            if quit {
                return (Next::Quit(self.finish()), effects);
            }
        }
        let mut quiet = self.stop_stale_hold(now);
        append(&mut effects, &mut quiet);
        let mut drained = self.drain(outcomes, now);
        append(&mut effects, &mut drained);
        if !connected {
            return (Next::Gone, effects);
        }
        let mut query = self.query_if_due(now);
        append(&mut effects, &mut query);
        (Next::Continue, effects)
    }
}

fn append(effects: &mut Vec<Effect>, more: &mut Vec<Effect>)
    ensures
        effects_view(final(effects)@) == effects_view(old(effects)@) + effects_view(old(more)@),
{
    effects.append(more);
    proof {
        assert(effects_view(effects@) =~= effects_view(old(effects)@) + effects_view(old(more)@));
    }
}

} // verus!
