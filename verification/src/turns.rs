//! What each event does to a session, key by key and answer by answer.
//!
//! Stated over what went in and what came out: which key was touched, how long
//! it has been quiet, what the camera said, and what is then sent, shown and
//! remembered.

use vstd::prelude::*;

use crate::keymap::{
    key_action, Action, Hold, KeyCode, KeyEvent, KeyEventKind, Paces,
};
use crate::nudge::Step;
use crate::pan_tilt::{PanTiltDirection, Velocity};
use crate::running::{after_effects, happening, held_controls, life, Event};
use crate::session::{
    acting, draining, effects_view, going_stale, held_stop, meaning, nothing, passing,
    querying, quits, taking_up, Effect, EffectView, HeldKey, Session, AUTO_FOCUS_HINT, LATEST,
    NO_ANSWER_HINT, STANDBY_HINT,
};
use crate::state::CameraState;
use crate::worker::{description, outcome_words, Control, Intent, Outcome};

verus! {

/// Whether an intent is the one that has this drive run.
pub open spec fn runs(intent: Intent, hold: Hold) -> bool {
    match hold {
        Hold::PanTilt(velocity) => intent == Intent::DrivePanTilt(velocity),
        Hold::Zoom(drive) => intent == Intent::DriveZoom(Some(drive)),
        Hold::Focus(drive) => intent == Intent::DriveFocus(Some(drive)),
    }
}

/// Whether an intent is the one that brings this drive's control to rest.
pub open spec fn rests(intent: Intent, hold: Hold) -> bool {
    match hold {
        Hold::PanTilt(_) => intent == Intent::DrivePanTilt(
            Velocity { direction: PanTiltDirection::Stop, pan_speed: 1, tilt_speed: 1 },
        ),
        Hold::Zoom(_) => intent == Intent::DriveZoom(None),
        Hold::Focus(_) => intent == Intent::DriveFocus(None),
    }
}

/// Whether two drives move the same control.
pub open spec fn same_control(first: Hold, second: Hold) -> bool {
    match (first, second) {
        (Hold::PanTilt(_), Hold::PanTilt(_)) => true,
        (Hold::Zoom(_), Hold::Zoom(_)) => true,
        (Hold::Focus(_), Hold::Focus(_)) => true,
        _ => false,
    }
}

/// A drive is started by the intent that carries it, and stopped by the one
/// that brings its control to rest.
pub proof fn a_hold_starts_and_stops_its_own_control(hold: Hold, other: Hold)
    ensures
        runs(hold.start(), hold),
        rests(hold.stop(), hold),
        hold.control() == other.control() <==> same_control(hold, other),
        hold.control() == Control::PanTilt <==> hold is PanTilt,
        hold.control() == Control::Zoom <==> hold is Zoom,
        hold.control() == Control::Focus <==> hold is Focus,
{
}

/// Whether nothing of a session but its query timer and the held key differs.
pub open spec fn knows_the_same(before: Session, after: Session) -> bool {
    before.power_on == after.power_on && before.auto_focus == after.auto_focus
}

/// Whether a session asks for a snapshot a settling time after `now`.
pub open spec fn asks_once_settled(session: Session, now: u64) -> bool {
    now <= LATEST ==> session.next_query_at == Some((now + 300_000_000) as u64)
}

/// An effect is seen as what it is.
pub proof fn an_effect_is_seen_as_it_is(effects: Seq<Effect>, place: int)
    requires
        0 <= place < effects.len(),
    ensures
        effects_view(effects).len() == effects.len(),
        match effects[place] {
            Effect::Send(intent) => effects_view(effects)[place] == EffectView::Send(intent),
            Effect::Status(text) => effects_view(effects)[place] == EffectView::Status(text@),
            Effect::CameraState(text) => effects_view(effects)[place] == EffectView::CameraState(
                text@,
            ),
        },
{
}

/// A held key that has not been heard from for 700 milliseconds is let go of,
/// whichever control it drives: that control is brought to rest, nothing else
/// is sent, no key is held any more and nothing is left running.
pub proof fn a_quiet_key_is_let_go(session: Session, held: HeldKey, now: u64)
    requires
        session.held == Some(held),
        held.last_seen + 700_000_000 <= now,
    ensures
        ({
            let turn = going_stale(session, now);
            &&& turn.session.held is None
            &&& knows_the_same(session, turn.session)
            &&& asks_once_settled(turn.session, now)
            &&& turn.effects.len() == 1
            &&& turn.effects[0] is Send
            &&& rests(turn.effects[0]->Send_0, held.hold)
            &&& after_effects(held_controls(session), turn.effects) == Set::<Control>::empty()
        }),
{
    let turn = going_stale(session, now);
    reveal_with_fuel(after_effects, 2);
    assert(turn.effects.drop_last() =~= Seq::empty());
    assert(after_effects(held_controls(session), turn.effects) =~= Set::<Control>::empty());
}

/// A key that was heard from within 700 milliseconds goes on driving, and
/// where no key is held there is none to go quiet.
pub proof fn a_key_heard_from_goes_on(session: Session, now: u64)
    requires
        session.held matches Some(held) ==> held.last_seen + 700_000_000 > now,
    ensures
        going_stale(session, now).session == session,
        going_stale(session, now).effects.len() == 0,
{
}

/// A movement key that goes down, or is heard from without having been the one
/// that is down, starts its own drive and becomes the key that is held. A
/// different control that was running is brought to rest first, and the same
/// one is only told its new drive.
pub proof fn a_movement_key_takes_over(
    session: Session,
    code: KeyCode,
    kind: KeyEventKind,
    hold: Hold,
    now: u64,
)
    requires
        session.held matches Some(held) ==> held.code != code,
        kind is Press || kind is Repeat,
        session.power_on != Some(false),
        hold is Focus ==> session.auto_focus != Some(true),
    ensures
        ({
            let turn = acting(session, Some(Action::Hold(hold)), code, kind, now);
            let elsewhere = session.held is Some && !same_control(session.held->Some_0.hold, hold);
            &&& turn.session.held == Some(HeldKey { code, hold, last_seen: now })
            &&& knows_the_same(session, turn.session)
            &&& asks_once_settled(turn.session, now)
            &&& turn.effects.len() == if elsewhere {
                2int
            } else {
                1int
            }
            &&& elsewhere ==> turn.effects[0] is Send && rests(
                turn.effects[0]->Send_0,
                session.held->Some_0.hold,
            )
            &&& turn.effects.last() is Send
            &&& runs(turn.effects.last()->Send_0, hold)
        }),
{
}

/// A movement key moves nothing on a camera that said it is asleep, and a
/// focus key nothing on one that said it focuses itself: the operator is told
/// which of the two it is, and nothing else happens.
pub proof fn a_refused_drive_is_explained(
    session: Session,
    code: KeyCode,
    kind: KeyEventKind,
    hold: Hold,
    now: u64,
)
    requires
        session.held matches Some(held) ==> held.code != code,
        kind is Press || kind is Repeat,
    ensures
        ({
            let turn = acting(session, Some(Action::Hold(hold)), code, kind, now);
            &&& session.power_on == Some(false) ==> turn.session == session && turn.effects
                == seq![EffectView::Status(STANDBY_HINT@)]
            &&& session.power_on != Some(false) && session.auto_focus == Some(true)
                && hold is Focus ==> turn.session == session && turn.effects
                == seq![EffectView::Status(AUTO_FOCUS_HINT@)]
        }),
{
}

/// The key that is down goes on driving for as long as it is heard from, and
/// sends nothing more. Letting go of it brings its control to rest. Letting go
/// of any other key does nothing.
pub proof fn the_held_key_alone_ends_its_drive(
    session: Session,
    code: KeyCode,
    kind: KeyEventKind,
    hold: Hold,
    now: u64,
)
    ensures
        ({
            let turn = acting(session, Some(Action::Hold(hold)), code, kind, now);
            let held = session.held->Some_0;
            let down = session.held is Some && held.code == code;
            &&& down && !(kind is Release) ==> {
                &&& turn.effects.len() == 0
                &&& turn.session.held is Some
                &&& turn.session.held->Some_0.code == code
                &&& turn.session.held->Some_0.hold == held.hold
                &&& turn.session.held->Some_0.last_seen == now
                &&& turn.session.next_query_at == session.next_query_at
                &&& knows_the_same(session, turn.session)
            }
            &&& down && kind is Release ==> {
                &&& turn.effects.len() == 1
                &&& turn.effects[0] is Send
                &&& rests(turn.effects[0]->Send_0, held.hold)
                &&& turn.session.held is None
                &&& asks_once_settled(turn.session, now)
                &&& knows_the_same(session, turn.session)
            }
            &&& !down && kind is Release ==> turn.session == session && turn.effects.len() == 0
        }),
{
}

/// Whether an intent changes the picture by itself.
pub open spec fn shows_in_the_picture(intent: Intent) -> bool {
    intent is DrivePanTilt || intent is Nudge || intent is DriveZoom || intent is DriveFocus
}

/// A one-shot command goes out once for each press, whatever is held, and says
/// that it is under way unless the picture shows it. Only one that moves the
/// picture is kept from a sleeping camera, with the reason. Repeats and
/// releases do nothing.
pub proof fn a_one_shot_goes_out_when_pressed(
    session: Session,
    intent: Intent,
    code: KeyCode,
    kind: KeyEventKind,
    now: u64,
)
    ensures
        ({
            let turn = acting(session, Some(Action::Camera(intent)), code, kind, now);
            let refused = shows_in_the_picture(intent) && session.power_on == Some(false);
            &&& !(kind is Press) ==> turn.session == session && turn.effects.len() == 0
            &&& kind is Press && refused ==> turn.session == session && turn.effects
                == seq![EffectView::Status(STANDBY_HINT@)]
            &&& kind is Press && !refused ==> {
                &&& turn.effects[0] == EffectView::Send(intent)
                &&& turn.effects.len() == if shows_in_the_picture(intent) {
                    1int
                } else {
                    2int
                }
                &&& !shows_in_the_picture(intent) ==> turn.effects[1] == EffectView::Status(
                    description(intent) + "..."@,
                )
                &&& turn.session.held == session.held
                &&& knows_the_same(session, turn.session)
                &&& asks_once_settled(turn.session, now)
            }
        }),
{
}

/// The two switches send one command for each press: the focus mode goes to
/// manual unless the camera is known to be focused by hand, and is taken to
/// have changed; the power goes on unless the camera is known to be awake, and
/// is left for the camera to confirm.
pub proof fn a_switch_goes_the_other_way(
    session: Session,
    code: KeyCode,
    kind: KeyEventKind,
    now: u64,
)
    ensures
        ({
            let focus = acting(session, Some(Action::ToggleAutoFocus), code, kind, now);
            let power = acting(session, Some(Action::TogglePower), code, kind, now);
            &&& !(kind is Press) ==> {
                &&& focus.session == session && focus.effects.len() == 0
                &&& power.session == session && power.effects.len() == 0
            }
            &&& kind is Press ==> {
                &&& focus.effects.len() == 2
                &&& session.auto_focus == Some(false) ==> focus.effects[0] == EffectView::Send(
                    Intent::SetAutoFocus(true),
                ) && focus.session.auto_focus == Some(true)
                &&& session.auto_focus != Some(false) ==> focus.effects[0] == EffectView::Send(
                    Intent::SetAutoFocus(false),
                ) && focus.session.auto_focus == Some(false)
                &&& focus.session.held == session.held
                &&& focus.session.power_on == session.power_on
                &&& asks_once_settled(focus.session, now)
                &&& power.effects.len() == 2
                &&& session.power_on == Some(true) ==> power.effects[0] == EffectView::Send(
                    Intent::SetPower(false),
                )
                &&& session.power_on != Some(true) ==> power.effects[0] == EffectView::Send(
                    Intent::SetPower(true),
                )
                &&& power.session.held == session.held
                &&& knows_the_same(session, power.session)
                &&& asks_once_settled(power.session, now)
            }
        }),
{
}

/// Only a press of the key to quit ends a session, and neither it nor a key
/// that means nothing does anything else.
pub proof fn only_the_quit_key_quits(
    session: Session,
    action: Option<Action>,
    code: KeyCode,
    kind: KeyEventKind,
    now: u64,
)
    ensures
        quits(action, kind) <==> kind is Press && action is Some && action->Some_0 is Quit,
        action is None || action->Some_0 is Quit ==> acting(session, action, code, kind, now)
            == nothing(session) && nothing(session).session == session && nothing(
            session,
        ).effects.len() == 0,
{
}

/// An arrow without shift is one step its own way, one unit along its own axis
/// and none along the other. It means what the keyboard maps it to only when
/// it carries shift, or when it is the driving arrow coming up. Every other
/// key means what the keyboard maps it to.
pub proof fn an_arrow_alone_is_one_step(session: Session, key: KeyEvent, paces: Paces)
    ensures
        ({
            let action = meaning(session, key, paces);
            let arrow = key.code is Up || key.code is Down || key.code is Left || key.code is Right;
            let coming_up = key.kind is Release && session.held is Some
                && session.held->Some_0.code == key.code;
            &&& !arrow || key.shift || coming_up ==> action == key_action(key, paces)
            &&& arrow && !key.shift && !coming_up ==> {
                &&& key.code is Up ==> action == Some(
                    Action::Camera(Intent::Nudge(Step { pan: 0, tilt: 1 })),
                )
                &&& key.code is Down ==> action == Some(
                    Action::Camera(Intent::Nudge(Step { pan: 0, tilt: (-1) as i16 })),
                )
                &&& key.code is Left ==> action == Some(
                    Action::Camera(Intent::Nudge(Step { pan: (-1) as i16, tilt: 0 })),
                )
                &&& key.code is Right ==> action == Some(
                    Action::Camera(Intent::Nudge(Step { pan: 1, tilt: 0 })),
                )
            }
        }),
{
}

/// A snapshot is believed whatever it says: the session then knows the power
/// it reports, and the focus mode if a lens reports one, and shows the
/// snapshot in words. Only an awake camera without a lens to report is asked
/// again, a second later. What is held is not touched.
pub proof fn a_snapshot_is_believed(session: Session, state: CameraState, now: u64)
    ensures
        ({
            let outcome = Outcome::State(Ok(state));
            let turn = taking_up(session, outcome, now);
            &&& turn.session.power_on == Some(state.power_on)
            &&& turn.session.auto_focus is Some <==> state.lens is Some
            &&& state.lens is Some ==> turn.session.auto_focus->Some_0
                == state.lens->Some_0.auto_focus
            &&& turn.session.held == session.held
            &&& state.power_on && state.lens is None && now <= LATEST ==> turn.session.next_query_at
                == Some((now + 1_000_000_000) as u64)
            &&& !state.power_on || state.lens is Some ==> turn.session.next_query_at
                == session.next_query_at
            &&& turn.effects == seq![EffectView::CameraState(outcome_words(outcome))]
        }),
{
}

/// Every other answer sends nothing and lets nothing go. A query that went
/// unanswered is asked again a second later. A confirmed switch of the power
/// is the camera's word, and leaves its focus mode unknown. A movement that
/// worked says nothing, and anything else is reported in words.
pub proof fn an_answer_is_reported(session: Session, outcome: Outcome, now: u64)
    requires
        !(outcome matches Outcome::State(Ok(_))),
    ensures
        ({
            let turn = taking_up(session, outcome, now);
            let quiet = outcome matches Outcome::Done(intent, Ok(_)) && shows_in_the_picture(intent);
            &&& turn.session.held == session.held
            &&& quiet ==> turn.effects.len() == 0
            &&& !quiet ==> turn.effects.len() == 1
            &&& outcome is State ==> {
                &&& turn.effects[0] == EffectView::Status(NO_ANSWER_HINT@)
                &&& now <= LATEST ==> turn.session.next_query_at == Some(
                    (now + 1_000_000_000) as u64,
                )
                &&& knows_the_same(session, turn.session)
            }
            &&& !(outcome is State) && !quiet ==> turn.effects[0] == EffectView::Status(
                outcome_words(outcome),
            )
            &&& !(outcome is State) ==> turn.session.next_query_at == session.next_query_at
            &&& match outcome {
                Outcome::Done(Intent::SetPower(on), Ok(_)) => turn.session.power_on == Some(on)
                    && turn.session.auto_focus is None,
                _ => knows_the_same(session, turn.session),
            }
        }),
{
}

/// A snapshot is asked for exactly when its moment has come and no key is
/// held, and it is asked for once.
pub proof fn a_snapshot_is_asked_for_when_due(session: Session, now: u64)
    ensures
        ({
            let turn = querying(session, now);
            let due = session.held is None && session.next_query_at is Some
                && session.next_query_at->Some_0 <= now;
            &&& due ==> turn.effects == seq![EffectView::Send(Intent::QueryState)]
                && turn.session.next_query_at is None
            &&& !due ==> turn.effects.len() == 0 && turn.session.next_query_at
                == session.next_query_at
            &&& turn.session.held == session.held
            &&& knows_the_same(session, turn.session)
        }),
{
}

/// Results are taken up one after another, in the order they came: those of
/// two batches as if they had come in one.
pub proof fn results_are_taken_up_in_order(
    session: Session,
    first: Seq<Outcome>,
    second: Seq<Outcome>,
    now: u64,
)
    ensures
        ({
            let before = draining(session, first, now);
            let after = draining(before.session, second, now);
            let both = draining(session, first + second, now);
            both.session == after.session && both.effects == before.effects + after.effects
        }),
        draining(session, Seq::empty(), now).session == session,
        draining(session, Seq::empty(), now).effects.len() == 0,
        first.len() == 1 ==> draining(session, first, now).session == taking_up(
            session,
            first[0],
            now,
        ).session && draining(session, first, now).effects == taking_up(
            session,
            first[0],
            now,
        ).effects,
    decreases second.len(),
{
    let before = draining(session, first, now);
    if second.len() == 0 {
        assert(first + second =~= first);
        assert(before.effects + draining(before.session, second, now).effects =~= before.effects);
    } else {
        results_are_taken_up_in_order(session, first, second.drop_last(), now);
        assert((first + second).drop_last() =~= first + second.drop_last());
        let shorter = draining(before.session, second.drop_last(), now);
        let last = taking_up(shorter.session, second.last(), now);
        assert(before.effects + (shorter.effects + last.effects) =~= before.effects
            + shorter.effects + last.effects);
    }
    if first.len() == 1 {
        assert(first.drop_last() =~= Seq::empty());
        let only = taking_up(session, first[0], now);
        assert(draining(session, first.drop_last(), now).effects =~= Seq::empty());
        assert(draining(session, first, now).effects =~= only.effects);
    }
}

/// The events of one pass of the loop, in the order they happen: the key, the
/// look at the quiet key, and the look at the query timer, with the results
/// between the last two.
pub open spec fn pass_events(
    key: Option<KeyEvent>,
    outcomes: Seq<Outcome>,
    connected: bool,
    paces: Paces,
    now: u64,
) -> Seq<(Event, u64)> {
    (match key {
        Some(key) => seq![(Event::Key(key, paces), now)],
        None => Seq::empty(),
    }) + seq![(Event::Quiet, now)] + outcomes.map_values(
        |outcome: Outcome| (Event::Result(outcome), now),
    ) + (if connected {
        seq![(Event::Query, now)]
    } else {
        Seq::empty()
    })
}

proof fn a_longer_life(session: Session, first: Seq<(Event, u64)>, second: Seq<(Event, u64)>)
    ensures
        life(session, first + second).session == life(
            life(session, first).session,
            second,
        ).session,
        life(session, first + second).effects == life(session, first).effects + life(
            life(session, first).session,
            second,
        ).effects,
    decreases second.len(),
{
    let before = life(session, first);
    if second.len() == 0 {
        assert(first + second =~= first);
        assert(before.effects + life(before.session, second).effects =~= before.effects);
    } else {
        a_longer_life(session, first, second.drop_last());
        assert((first + second).drop_last() =~= first + second.drop_last());
        let shorter = life(before.session, second.drop_last());
        let last = happening(shorter.session, second.last().0, second.last().1);
        assert(before.effects + (shorter.effects + last.effects) =~= before.effects
            + shorter.effects + last.effects);
    }
}

proof fn a_life_of_one(session: Session, event: Event, now: u64)
    ensures
        life(session, seq![(event, now)]).session == happening(session, event, now).session,
        life(session, seq![(event, now)]).effects == happening(session, event, now).effects,
{
    let one = seq![(event, now)];
    reveal_with_fuel(life, 2);
    assert(one.drop_last() =~= Seq::empty());
    assert(life(session, one).effects =~= happening(session, event, now).effects);
}

proof fn a_life_of_results(session: Session, outcomes: Seq<Outcome>, now: u64)
    ensures
        life(
            session,
            outcomes.map_values(|outcome: Outcome| (Event::Result(outcome), now)),
        ) == draining(session, outcomes, now),
    decreases outcomes.len(),
{
    let events = outcomes.map_values(|outcome: Outcome| (Event::Result(outcome), now));
    if outcomes.len() > 0 {
        a_life_of_results(session, outcomes.drop_last(), now);
        assert(events.drop_last() =~= outcomes.drop_last().map_values(
            |outcome: Outcome| (Event::Result(outcome), now),
        ));
    }
}

/// A pass of the loop that does not quit is its events one after another. One
/// that quits ends at the key, with the stop that whatever is held needs, and
/// holds nothing after it.
pub proof fn a_pass_is_its_events_in_order(
    session: Session,
    key: Option<KeyEvent>,
    outcomes: Seq<Outcome>,
    connected: bool,
    paces: Paces,
    now: u64,
)
    ensures
        ({
            let (next, turn) = passing(session, key, outcomes, connected, paces, now);
            let events = pass_events(key, outcomes, connected, paces, now);
            let leaving = key is Some && key->Some_0.kind is Press && meaning(
                session,
                key->Some_0,
                paces,
            ) == Some(Action::Quit);
            &&& next is Quit <==> leaving
            &&& !leaving ==> {
                &&& turn.session == life(session, events).session
                &&& turn.effects == life(session, events).effects
                &&& next is Continue <==> connected
                &&& next is Gone <==> !connected
            }
            &&& leaving ==> {
                &&& turn.effects.len() == 0
                &&& turn.session.held is None
                &&& next->Quit_0 is Some <==> session.held is Some
                &&& session.held matches Some(held) ==> rests(next->Quit_0->Some_0, held.hold)
                &&& knows_the_same(session, turn.session)
            }
        }),
{
    let leaving = key is Some && quits(meaning(session, key->Some_0, paces), key->Some_0.kind);
    if !leaving {
        let pressed = match key {
            Some(key) => happening(session, Event::Key(key, paces), now),
            None => nothing(session),
        };
        let first = match key {
            Some(key) => seq![(Event::Key(key, paces), now)],
            None => Seq::<(Event, u64)>::empty(),
        };
        if let Some(key) = key {
            a_life_of_one(session, Event::Key(key, paces), now);
        }
        assert(life(session, first).session == pressed.session);
        assert(life(session, first).effects =~= pressed.effects);
        let quiet = seq![(Event::Quiet, now)];
        let results = outcomes.map_values(|outcome: Outcome| (Event::Result(outcome), now));
        let query = if connected {
            seq![(Event::Query, now)]
        } else {
            Seq::<(Event, u64)>::empty()
        };
        a_longer_life(session, first, quiet);
        a_life_of_one(pressed.session, Event::Quiet, now);
        a_longer_life(session, first + quiet, results);
        let silent = going_stale(pressed.session, now);
        a_life_of_results(silent.session, outcomes, now);
        a_longer_life(session, first + quiet + results, query);
        let drained = draining(silent.session, outcomes, now);
        if connected {
            a_life_of_one(drained.session, Event::Query, now);
        } else {
            assert(life(drained.session, query).effects =~= Seq::empty());
        }
        let (next, turn) = passing(session, key, outcomes, connected, paces, now);
        assert(turn.effects =~= life(session, first + quiet + results + query).effects);
    }
}

/// What ends a session is the stop of whatever is held, and nothing where
/// nothing is.
pub proof fn ending_rests_what_is_held(session: Session)
    ensures
        held_stop(session) is Some <==> session.held is Some,
        session.held matches Some(held) ==> rests(held_stop(session)->Some_0, held.hold),
{
}

/// A session's hints name the key that helps.
pub proof fn a_hint_names_the_key_that_helps()
    ensures
        AUTO_FOCUS_HINT@ == "auto focus is on \u{2014} press f to focus by hand"@,
        STANDBY_HINT@ == "the camera is in standby \u{2014} press p to wake it"@,
        NO_ANSWER_HINT@ == "waiting for the camera to answer..."@,
{
}

} // verus!
