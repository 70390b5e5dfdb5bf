//! What the library's operations promise whoever calls them.
//!
//! Each law here is about a call: whatever an operation was given, what it gave
//! back and left behind stand in this relation. They say of the operations
//! themselves what the laws beside each model say of the model.

use vstd::prelude::*;

use crate::config::{config_error_words, is_blank, Config, ConfigError};
use crate::deflection::Push;
use crate::drives::Drives;
use crate::error::Error;
use crate::focus::{drive_focus, set_auto_focus, FocusCommand, FocusDirection, FocusDrive};
use crate::frames::{
    a_query_is_asked_again_when_it_has_to_be, the_status_line_says_what_came_of_it,
};
use crate::gamepad::{
    both_centre_buttons_went_down, each_button_does_its_own_thing, pad_drives,
    preset_button_went_down, pressed, Gamepad, Pad, Press,
};
use crate::keymap::{
    a_digit_recalls_its_own_preset, a_focus_key_focuses_its_own_way, a_zoom_key_zooms_its_own_way,
    an_arrow_drives_its_own_way, key_action, map_key, the_letters_switch_and_quit, Action, Hold,
    KeyCode, KeyEvent, KeyEventKind, Paces,
};
use crate::labels::{lamp_tooltip, marking_tooltip, power_words, repaint_after};
use crate::nudge::{distance, nudge, RelativeMove, Step};
use crate::pan_tilt::{drive, velocity_from_axes, Velocity};
use crate::power::{set_power, PowerCommand};
use crate::preset::{preset_number, recall_preset, save_preset, PresetCommand};
use crate::rocker::SpeedLevel;
use crate::session::{
    acting, draining, effects_view, going_stale, meaning, passing, taking_up, Effect, EffectView,
    HeldKey, Next, Session, LATEST, NO_ANSWER_HINT,
};
use crate::shot::{go_to, AbsolutePosition, Travel};
use crate::state::{CameraState, Position};
use crate::text::trimmed;
use crate::title::{encode, encoded, show_title, supported, title_codes, Title, TitleDisplay};
use crate::turns::{
    a_key_heard_from_goes_on, a_quiet_key_is_let_go, a_snapshot_is_asked_for_when_due,
    asks_once_settled, knows_the_same, rests, runs,
};
use crate::window::{
    asked, asked_drives, drive_changes, drive_stops, has_failed, press_intent, press_intents,
    refuses_titles, shown, taken, App, Connection, Hands, Link, AUTO_FOCUS_HINT, LOCKED_HINT,
    NO_TITLES_HINT, STANDBY_HINT,
};
use crate::worker::{
    an_intent_is_carried_out_as_meant, coalesce, coalesced, command, confirms, control, description,
    describe, describe_busy, describe_outcome, is_movement, is_title,
    only_a_number_out_of_range_is_refused, outcome_words, Command, Control, Intent, Outcome,
};
use crate::zoom::{drive_zoom, ZoomCommand, ZoomDirection, ZoomDrive};

verus! {

/// Looking at a key that has been quiet for 700 milliseconds brings whatever it
/// drives to rest and lets go of it; looking at one that was heard from since,
/// or at none, does nothing.
pub proof fn looking_at_a_quiet_key_lets_go_of_it()
    ensures
        forall|session: &mut Session, now: u64, effects: Vec<Effect>| #[trigger]
            call_ensures(Session::stop_stale_hold, (session, now), effects) ==> {
                let held = session.held->Some_0;
                let quiet = session.held is Some && held.last_seen + 700_000_000 <= now;
                &&& quiet ==> {
                    &&& final(session).held is None
                    &&& knows_the_same(*session, *final(session))
                    &&& effects@.len() == 1
                    &&& effects@[0] is Send
                    &&& rests(effects@[0]->Send_0, held.hold)
                }
                &&& !quiet ==> *final(session) == *session && effects@.len() == 0
            },
{
    assert forall|session: &mut Session, now: u64, effects: Vec<Effect>| #[trigger]
        call_ensures(Session::stop_stale_hold, (session, now), effects) implies {
        let held = session.held->Some_0;
        let quiet = session.held is Some && held.last_seen + 700_000_000 <= now;
        &&& quiet ==> {
            &&& final(session).held is None
            &&& knows_the_same(*session, *final(session))
            &&& effects@.len() == 1
            &&& effects@[0] is Send
            &&& rests(effects@[0]->Send_0, held.hold)
        }
        &&& !quiet ==> *final(session) == *session && effects@.len() == 0
    } by {
        let turn = going_stale(*session, now);
        assert(effects_view(effects@).len() == effects@.len());
        if session.held is Some && session.held->Some_0.last_seen + 700_000_000 <= now {
            a_quiet_key_is_let_go(*session, session.held->Some_0, now);
            assert(effects_view(effects@)[0] == turn.effects[0]);
        } else {
            a_key_heard_from_goes_on(*session, now);
        }
    }
}

/// A key event does to a session what its meaning there does, and says whether
/// it quits: exactly when it is a press that means to.
pub proof fn a_key_event_does_what_it_means()
    ensures
        forall|session: &mut Session, key: KeyEvent, paces: Paces, now: u64, turn: (
            bool,
            Vec<Effect>,
        )| #[trigger]
            call_ensures(Session::handle_key, (session, key, paces, now), turn) ==> {
                let action = meaning(*session, key, paces);
                let expected = acting(*session, action, key.code, key.kind, now);
                &&& turn.0 <==> key.kind is Press && action is Some && action->Some_0 is Quit
                &&& *final(session) == expected.session
                &&& effects_view(turn.1@) == expected.effects
            },
        forall|
            session: &mut Session,
            action: Option<Action>,
            code: KeyCode,
            kind: KeyEventKind,
            now: u64,
            turn: (bool, Vec<Effect>),
        | #[trigger]
            call_ensures(Session::act, (session, action, code, kind, now), turn) ==> {
                let expected = acting(*session, action, code, kind, now);
                &&& turn.0 <==> kind is Press && action is Some && action->Some_0 is Quit
                &&& *final(session) == expected.session
                &&& effects_view(turn.1@) == expected.effects
            },
        forall|session: &Session, key: KeyEvent, paces: Paces, action: Option<Action>| #[trigger]
            call_ensures(Session::means, (session, key, paces), action) ==> action == meaning(
                *session,
                key,
                paces,
            ),
{
}

/// Starting a drive holds its key and has it run; stopping it brings it to rest
/// and holds nothing; hearing from the key again only moves the moment on.
pub proof fn a_drive_is_held_by_its_key()
    ensures
        forall|session: &mut Session, code: KeyCode, hold: Hold, now: u64, effects: Vec<Effect>|
            #[trigger]
            call_ensures(Session::start_hold, (session, code, hold, now), effects)
                && session.power_on != Some(false) && session.auto_focus != Some(true) ==> {
                &&& final(session).held == Some(HeldKey { code, hold, last_seen: now })
                &&& effects@.len() > 0
                &&& effects@.last() is Send
                &&& runs(effects@.last()->Send_0, hold)
            },
        forall|session: &mut Session, now: u64, effects: Vec<Effect>| #[trigger]
            call_ensures(Session::stop_hold, (session, now), effects) ==> {
                &&& final(session).held is None
                &&& session.held is None ==> effects@.len() == 0
                &&& session.held is Some ==> effects@.len() == 1 && effects@[0] is Send && rests(
                    effects@[0]->Send_0,
                    session.held->Some_0.hold,
                )
            },
        forall|session: &mut Session, now: u64| #[trigger]
            call_ensures(Session::refresh_hold, (session, now), ()) ==> {
                &&& final(session).held is Some <==> session.held is Some
                &&& session.held is Some ==> {
                    &&& final(session).held->Some_0.code == session.held->Some_0.code
                    &&& final(session).held->Some_0.hold == session.held->Some_0.hold
                    &&& final(session).held->Some_0.last_seen == now
                }
                &&& final(session).next_query_at == session.next_query_at
                &&& knows_the_same(*session, *final(session))
            },
        forall|session: &mut Session, stop: Option<Intent>| #[trigger]
            call_ensures(Session::finish, (session,), stop) ==> {
                &&& final(session).held is None
                &&& stop is Some <==> session.held is Some
                &&& session.held is Some ==> rests(stop->Some_0, session.held->Some_0.hold)
                &&& knows_the_same(*session, *final(session))
            },
{
    assert forall|session: &mut Session, code: KeyCode, hold: Hold, now: u64, effects: Vec<Effect>|
        #[trigger]
        call_ensures(Session::start_hold, (session, code, hold, now), effects) && session.power_on
            != Some(false) && session.auto_focus != Some(true) implies {
        &&& final(session).held == Some(HeldKey { code, hold, last_seen: now })
        &&& effects@.len() > 0
        &&& effects@.last() is Send
        &&& runs(effects@.last()->Send_0, hold)
    } by {
        let seen = effects_view(effects@);
        assert(seen.len() == effects@.len());
        assert(seen[seen.len() - 1] == effects@[effects@.len() - 1]@);
    }
    assert forall|session: &mut Session, now: u64, effects: Vec<Effect>| #[trigger]
        call_ensures(Session::stop_hold, (session, now), effects) implies {
        &&& final(session).held is None
        &&& session.held is None ==> effects@.len() == 0
        &&& session.held is Some ==> effects@.len() == 1 && effects@[0] is Send && rests(
            effects@[0]->Send_0,
            session.held->Some_0.hold,
        )
    } by {
        let seen = effects_view(effects@);
        assert(seen.len() == effects@.len());
        if session.held is Some {
            assert(seen[0] == effects@[0]@);
        }
    }
}

/// Taking up a snapshot believes it, whatever it says. Taking up results does
/// what they say, one after another, and lets go of nothing.
pub proof fn results_are_believed_as_they_come()
    ensures
        forall|session: &mut Session, outcome: &Outcome, now: u64, effects: Vec<Effect>| #[trigger]
            call_ensures(Session::take_up, (session, outcome, now), effects) ==> {
                &&& *final(session) == taking_up(*session, *outcome, now).session
                &&& effects_view(effects@) == taking_up(*session, *outcome, now).effects
                &&& (*outcome) matches Outcome::State(Ok(state)) ==> final(session).power_on == Some(
                    state.power_on,
                )
            },
        forall|session: &mut Session, outcomes: &[Outcome], now: u64, effects: Vec<Effect>|
            #[trigger]
            call_ensures(Session::drain, (session, outcomes, now), effects) ==> {
                &&& *final(session) == draining(*session, outcomes@, now).session
                &&& effects_view(effects@) == draining(*session, outcomes@, now).effects
            },
        forall|session: &mut Session, now: u64, effects: Vec<Effect>| #[trigger]
            call_ensures(Session::query_if_due, (session, now), effects) ==> {
                let due = session.held is None && session.next_query_at is Some
                    && session.next_query_at->Some_0 <= now;
                &&& due ==> effects_view(effects@) == seq![EffectView::Send(Intent::QueryState)]
                    && final(session).next_query_at is None
                &&& !due ==> effects@.len() == 0 && *final(session) == *session
                &&& final(session).held == session.held
                &&& knows_the_same(*session, *final(session))
            },
        forall|
            session: &mut Session,
            key: Option<KeyEvent>,
            outcomes: &[Outcome],
            connected: bool,
            paces: Paces,
            now: u64,
            turn: (Next, Vec<Effect>),
        | #[trigger]
            call_ensures(Session::pass, (session, key, outcomes, connected, paces, now), turn)
                ==> {
                let expected = passing(*session, key, outcomes@, connected, paces, now);
                &&& turn.0 == expected.0
                &&& *final(session) == expected.1.session
                &&& effects_view(turn.1@) == expected.1.effects
            },
{
    assert forall|session: &mut Session, now: u64, effects: Vec<Effect>| #[trigger]
        call_ensures(Session::query_if_due, (session, now), effects) implies {
        let due = session.held is None && session.next_query_at is Some
            && session.next_query_at->Some_0 <= now;
        &&& due ==> effects_view(effects@) == seq![EffectView::Send(Intent::QueryState)]
            && final(session).next_query_at is None
        &&& !due ==> effects@.len() == 0 && *final(session) == *session
        &&& final(session).held == session.held
        &&& knows_the_same(*session, *final(session))
    } by {
        a_snapshot_is_asked_for_when_due(*session, now);
        assert(effects_view(effects@).len() == effects@.len());
    }
}

/// A session starts out knowing nothing of the camera, holding nothing, and
/// with a first snapshot to ask for at once. Sending something goes out, and is
/// followed by a snapshot once things settle.
pub proof fn a_session_starts_by_asking()
    ensures
        forall|now: u64, session: Session| #[trigger]
            call_ensures(Session::new, (now,), session) ==> {
                &&& session.next_query_at == Some(now)
                &&& session.held is None
                &&& session.auto_focus is None
                &&& session.power_on is None
            },
        forall|session: &mut Session, intent: Intent, now: u64, effects: Vec<Effect>| #[trigger]
            call_ensures(Session::send, (session, intent, now), effects) ==> {
                &&& effects@.len() > 0
                &&& effects@[0] == Effect::Send(intent)
                &&& final(session).held == session.held
                &&& knows_the_same(*session, *final(session))
                &&& asks_once_settled(*final(session), now)
            },
{
    assert forall|session: &mut Session, intent: Intent, now: u64, effects: Vec<Effect>| #[trigger]
        call_ensures(Session::send, (session, intent, now), effects) implies {
        &&& effects@.len() > 0
        &&& effects@[0] == Effect::Send(intent)
        &&& final(session).held == session.held
        &&& knows_the_same(*session, *final(session))
        &&& asks_once_settled(*final(session), now)
    } by {
        let seen = effects_view(effects@);
        assert(seen.len() == effects@.len());
        assert(seen[0] == effects@[0]@);
    }
}

/// A key recalls a preset exactly when it types its digit, drives the way it
/// points or is marked, switches and quits by its letter, and means nothing
/// otherwise.
pub proof fn a_key_is_mapped_to_what_it_says(
    key: KeyEvent,
    paces: Paces,
    action: Option<Action>,
    number: u8,
)
    requires
        call_ensures(map_key, (key, paces), action),
    ensures
        action == key_action(key, paces),
        1 <= number <= 6 && key.code == KeyCode::Char((0x30 + number) as u8 as char) ==> action
            == Some(Action::Camera(Intent::RecallPreset(number))),
        action == Some(Action::Camera(Intent::RecallPreset(number))) ==> 1 <= number <= 6
            && key.code == KeyCode::Char((0x30 + number) as u8 as char),
        key.code is Up ==> action is Some && action->Some_0 is Hold && action->Some_0->Hold_0
            is PanTilt && action->Some_0->Hold_0->PanTilt_0.direction is Up,
        key.code is Down ==> action is Some && action->Some_0 is Hold && action->Some_0->Hold_0
            is PanTilt && action->Some_0->Hold_0->PanTilt_0.direction is Down,
        key.code is Left ==> action is Some && action->Some_0 is Hold && action->Some_0->Hold_0
            is PanTilt && action->Some_0->Hold_0->PanTilt_0.direction is Left,
        key.code is Right ==> action is Some && action->Some_0 is Hold && action->Some_0->Hold_0
            is PanTilt && action->Some_0->Hold_0->PanTilt_0.direction is Right,
{
    a_digit_recalls_its_own_preset(key, paces, number);
    an_arrow_drives_its_own_way(key, paces);
    a_zoom_key_zooms_its_own_way(key, paces);
    a_focus_key_focuses_its_own_way(key, paces);
    the_letters_switch_and_quit(key, paces);
}

/// Taking up an answer leaves a window knowing what the camera said: a snapshot
/// whatever it says, a confirmed switch of the power, the place a preset points
/// to, that it has no titles, and nothing else.
pub proof fn a_window_takes_up_what_the_camera_says()
    ensures
        forall|app: &mut App, outcome: &Outcome, now: u64| #[trigger]
            call_ensures(App::apply_outcome, (app, outcome, now), ()) ==> {
                let known = final(app).camera_state;
                &&& (*outcome) matches Outcome::State(Ok(state)) ==> known == Some(state)
                &&& (*outcome) matches Outcome::Done(Intent::SetPower(on), Ok(_)) ==> known == Some(
                    CameraState { power_on: on, lens: None },
                )
                &&& !((*outcome) matches Outcome::State(Ok(_))) && !(
                (*outcome) matches Outcome::Done(Intent::SetPower(_), Ok(_))) ==> known
                    == app.camera_state
                &&& final(app).titles_supported == (app.titles_supported && !refuses_titles(
                    *outcome,
                ))
                &&& refuses_titles(*outcome) ==> final(app).shown_title is None
                &&& !refuses_titles(*outcome) ==> final(app).shown_title == app.shown_title
                &&& final(app).port_input == app.port_input
                &&& final(app).connection == app.connection
                &&& final(app).preset_labels == app.preset_labels
                &&& final(app).marking_locked == app.marking_locked
                &&& final(app).titles == app.titles
                &&& final(app).camera == app.camera
                &&& final(app).config_unread == app.config_unread
                &&& final(app).pan_tilt == app.pan_tilt
                &&& final(app).zoom == app.zoom
                &&& final(app).focus == app.focus
                &&& final(app).gamepad == app.gamepad
            },
        forall|app: &mut App, number: u8, position: Position, outcome: &Outcome, now: u64|
            #![trigger
                call_ensures(App::apply_outcome, (app, outcome, now), ()),
                final(app).preset_positions@.contains_pair(number, position)]
            call_ensures(App::apply_outcome, (app, outcome, now), ()) && (*outcome
                == Outcome::Preset(Intent::RecallPreset(number), Ok(Some(position))) || *outcome
                == Outcome::Preset(Intent::SavePreset(number), Ok(Some(position))))
                ==> final(app).preset_positions@.contains_pair(number, position),
{
}

/// The status line says what came of a command, and the next query is moved
/// only by a snapshot that has to be asked for again.
pub proof fn a_window_reports_what_the_camera_says()
    ensures
        forall|app: &mut App, outcome: &Outcome, now: u64| #[trigger]
            call_ensures(App::apply_outcome, (app, outcome, now), ()) ==> {
                let silent = (*outcome) matches Outcome::State(Err(_));
                let told = (*outcome) matches Outcome::State(Ok(_));
                let starting = (*outcome) matches Outcome::State(Ok(state)) && state.power_on
                    && state.lens is None;
                let moved = (*outcome) matches Outcome::Done(intent, Ok(_)) && (intent is DrivePanTilt
                    || intent is DriveZoom || intent is DriveFocus || intent is Nudge);
                let line = shown(final(app).status);
                &&& now <= LATEST && (silent || starting) ==> final(app).next_query_at == Some(
                    (now + 1_000_000_000) as u64,
                )
                &&& !silent && !starting ==> final(app).next_query_at == app.next_query_at
                &&& moved || told ==> line == shown(app.status)
                &&& silent ==> line == Some((NO_ANSWER_HINT@, false))
                &&& refuses_titles(*outcome) ==> line == Some((NO_TITLES_HINT@, true))
                &&& !moved && !told && !silent && !refuses_titles(*outcome) ==> line == Some(
                    (outcome_words(*outcome), has_failed(*outcome)),
                )
            },
{
    assert forall|app: &mut App, outcome: &Outcome, now: u64| #[trigger]
        call_ensures(App::apply_outcome, (app, outcome, now), ()) implies {
        let silent = (*outcome) matches Outcome::State(Err(_));
        let told = (*outcome) matches Outcome::State(Ok(_));
        let starting = (*outcome) matches Outcome::State(Ok(state)) && state.power_on && state.lens
            is None;
        let moved = (*outcome) matches Outcome::Done(intent, Ok(_)) && (intent is DrivePanTilt
            || intent is DriveZoom || intent is DriveFocus || intent is Nudge);
        let line = shown(final(app).status);
        &&& now <= LATEST && (silent || starting) ==> final(app).next_query_at == Some(
            (now + 1_000_000_000) as u64,
        )
        &&& !silent && !starting ==> final(app).next_query_at == app.next_query_at
        &&& moved || told ==> line == shown(app.status)
        &&& silent ==> line == Some((NO_ANSWER_HINT@, false))
        &&& refuses_titles(*outcome) ==> line == Some((NO_TITLES_HINT@, true))
        &&& !moved && !told && !silent && !refuses_titles(*outcome) ==> line == Some(
            (outcome_words(*outcome), has_failed(*outcome)),
        )
    } by {
        the_status_line_says_what_came_of_it(shown(app.status), *outcome);
        if now <= LATEST {
            a_query_is_asked_again_when_it_has_to_be(app.next_query_at, *outcome, now);
        }
    }
}

/// The command of an intent is the one that does what it says, and a number out
/// of range is refused.
pub proof fn an_intent_is_turned_into_its_command(
    intent: Intent,
    came: Result<Command, Error>,
    speed: u8,
    level: SpeedLevel,
    number: u8,
)
    requires
        call_ensures(command, (intent,), came),
    ensures
        speed <= 7 && intent == Intent::DriveZoom(
            Some(ZoomDrive { direction: ZoomDirection::In, speed }),
        ) ==> came == Ok::<Command, Error>(Command::Zoom(ZoomCommand::Tele(speed))),
        speed <= 7 && intent == Intent::DriveZoom(
            Some(ZoomDrive { direction: ZoomDirection::Out, speed }),
        ) ==> came == Ok::<Command, Error>(Command::Zoom(ZoomCommand::Wide(speed))),
        intent == Intent::DriveZoom(None) ==> came == Ok::<Command, Error>(
            Command::Zoom(ZoomCommand::Stop),
        ),
        intent == Intent::DriveFocus(
            Some(FocusDrive { direction: FocusDirection::Near, speed: level }),
        ) ==> came == Ok::<Command, Error>(Command::Focus(FocusCommand::Near(level))),
        intent == Intent::DriveFocus(
            Some(FocusDrive { direction: FocusDirection::Far, speed: level }),
        ) ==> came == Ok::<Command, Error>(Command::Focus(FocusCommand::Far(level))),
        intent == Intent::DriveFocus(None) ==> came == Ok::<Command, Error>(
            Command::Focus(FocusCommand::Stop),
        ),
        intent == Intent::SetAutoFocus(true) ==> came == Ok::<Command, Error>(
            Command::Focus(FocusCommand::Auto),
        ),
        intent == Intent::SetAutoFocus(false) ==> came == Ok::<Command, Error>(
            Command::Focus(FocusCommand::Manual),
        ),
        number < 255 && intent == Intent::RecallPreset((number + 1) as u8) ==> came == Ok::<
            Command,
            Error,
        >(Command::Preset(PresetCommand::Recall(number))),
        number < 255 && intent == Intent::SavePreset((number + 1) as u8) ==> came == Ok::<
            Command,
            Error,
        >(Command::Preset(PresetCommand::Save(number))),
        intent is Home ==> came is Ok && came->Ok_0 is Home,
        intent is ResetPanTilt ==> came is Ok && came->Ok_0 is Reset,
        intent == Intent::SetPower(true) ==> came is Ok && came->Ok_0 is Power
            && came->Ok_0->Power_0 is On,
        intent == Intent::SetPower(false) ==> came is Ok && came->Ok_0 is Power
            && came->Ok_0->Power_0 is Off,
        intent matches Intent::SetTitle(title) ==> came == Ok::<Command, Error>(
            Command::Title(title),
        ),
        intent == Intent::ShowTitle(true) ==> came == Ok::<Command, Error>(
            Command::Display(TitleDisplay(0x02)),
        ),
        intent == Intent::ShowTitle(false) ==> came == Ok::<Command, Error>(
            Command::Display(TitleDisplay(0x03)),
        ),
        intent matches Intent::DrivePanTilt(velocity) ==> (velocity.pan_speed <= 24
            && velocity.tilt_speed <= 20 ==> came == Ok::<Command, Error>(Command::Drive(velocity))),
        intent matches Intent::Nudge(step) ==> came is Ok && (step.pan != 0 || step.tilt != 0
            ==> came->Ok_0 is Move && distance(came->Ok_0->Move_0.pan) == step.pan && distance(
            came->Ok_0->Move_0.tilt,
        ) == step.tilt),
        came is Err <==> {
            ||| intent matches Intent::DrivePanTilt(velocity) && (velocity.pan_speed > 24
                || velocity.tilt_speed > 20)
            ||| intent matches Intent::DriveZoom(Some(drive)) && drive.speed > 7
            ||| intent == Intent::RecallPreset(0)
            ||| intent == Intent::SavePreset(0)
        },
{
    if came is Ok {
        an_intent_is_carried_out_as_meant(intent, speed, level, number);
    } else {
        only_a_number_out_of_range_is_refused(intent, came->Err_0);
    }
}

/// Each part of the camera is told what it is asked for: the zoom and the focus
/// by direction and speed, the focus mode and the power by name, the presets by
/// the camera's own number, and the head by the distance of a step.
pub proof fn each_part_is_told_what_it_is_asked_for(
    zoom: Option<ZoomDrive>,
    zoomed: Result<ZoomCommand, Error>,
    focus: Option<FocusDrive>,
    focused: FocusCommand,
    on: bool,
    mode: FocusCommand,
    power: PowerCommand,
    title: TitleDisplay,
)
    requires
        call_ensures(drive_zoom, (zoom,), zoomed),
        call_ensures(drive_focus, (focus,), focused),
        call_ensures(set_auto_focus, (on,), mode),
        call_ensures(set_power, (on,), power),
        call_ensures(show_title, (on,), title),
    ensures
        zoom is None ==> zoomed == Ok::<ZoomCommand, Error>(ZoomCommand::Stop),
        zoom matches Some(drive) ==> {
            &&& drive.speed <= 7 && drive.direction is In ==> zoomed == Ok::<ZoomCommand, Error>(
                ZoomCommand::Tele(drive.speed),
            )
            &&& drive.speed <= 7 && drive.direction is Out ==> zoomed == Ok::<ZoomCommand, Error>(
                ZoomCommand::Wide(drive.speed),
            )
            &&& drive.speed > 7 ==> zoomed is Err
        },
        focus is None ==> focused is Stop,
        focus matches Some(drive) ==> {
            &&& drive.direction is Near ==> focused == FocusCommand::Near(drive.speed)
            &&& drive.direction is Far ==> focused == FocusCommand::Far(drive.speed)
        },
        on ==> mode is Auto && power is On && title == TitleDisplay(0x02),
        !on ==> mode is Manual && power is Off && title == TitleDisplay(0x03),
{
}

/// A preset is the camera's by the number before the one shown, and preset zero
/// is none. A step is a move of its own distance at the slowest speed, and
/// going to a shot carries the shot and its speeds unless they are too fast.
pub proof fn the_camera_counts_from_zero(
    displayed: u8,
    number: Result<u8, Error>,
    recalled: Result<PresetCommand, Error>,
    saved: Result<PresetCommand, Error>,
    step: Step,
    moved: Result<Option<RelativeMove>, Error>,
    shot: Position,
    travel: Travel,
    going: Result<AbsolutePosition, Error>,
)
    requires
        call_ensures(preset_number, (displayed,), number),
        call_ensures(recall_preset, (displayed,), recalled),
        call_ensures(save_preset, (displayed,), saved),
        call_ensures(nudge, (step,), moved),
        call_ensures(go_to, (shot, travel), going),
    ensures
        number is Ok <==> displayed > 0,
        recalled is Ok <==> displayed > 0,
        saved is Ok <==> displayed > 0,
        displayed > 0 ==> {
            &&& number->Ok_0 + 1 == displayed
            &&& recalled->Ok_0 is Recall && recalled->Ok_0->Recall_0 + 1 == displayed
            &&& saved->Ok_0 is Save && saved->Ok_0->Save_0 + 1 == displayed
        },
        moved is Ok,
        moved->Ok_0 is None <==> step.pan == 0 && step.tilt == 0,
        moved->Ok_0 matches Some(by) ==> distance(by.pan) == step.pan && distance(by.tilt)
            == step.tilt && by.pan_speed == 1 && by.tilt_speed == 1,
        going is Ok <==> travel.pan_speed <= 24 && travel.tilt_speed <= 20,
        going is Ok ==> going->Ok_0.position == shot && going->Ok_0.pan_speed == travel.pan_speed
            && going->Ok_0.tilt_speed == travel.tilt_speed,
{
}

/// A velocity goes to the camera as it is unless it is too fast for it, and one
/// made of two pushes goes the way of both.
pub proof fn a_velocity_goes_out_as_it_is(
    velocity: Velocity,
    sent: Result<Velocity, Error>,
    pan: Option<Push>,
    tilt: Option<Push>,
    made: Velocity,
)
    requires
        call_ensures(drive, (velocity,), sent),
        call_ensures(velocity_from_axes, (pan, tilt), made),
    ensures
        sent is Ok <==> velocity.pan_speed <= 24 && velocity.tilt_speed <= 20,
        sent is Ok ==> sent->Ok_0 == velocity,
        ({
            let way = made.direction;
            &&& (way is Right || way is UpRight || way is DownRight) <==> pan is Some
                && pan->Some_0.positive
            &&& (way is Left || way is UpLeft || way is DownLeft) <==> pan is Some
                && !pan->Some_0.positive
            &&& (way is Up || way is UpLeft || way is UpRight) <==> tilt is Some
                && tilt->Some_0.positive
            &&& (way is Down || way is DownLeft || way is DownRight) <==> tilt is Some
                && !tilt->Some_0.positive
            &&& pan matches Some(push) ==> made.pan_speed == push.speed
            &&& tilt matches Some(push) ==> made.tilt_speed == push.speed
        }),
{
}

/// A reading of the controller drives what its sticks say and presses what its
/// buttons that just went down say, and is remembered for the next.
pub proof fn a_reading_is_remembered(preset: u8)
    ensures
        forall|gamepad: &mut Gamepad, pad: Pad, asked: (Drives, Vec<Press>)| #[trigger]
            call_ensures(Gamepad::update, (gamepad, pad), asked) ==> {
                let down = preset_button_went_down(gamepad.previous, pad.buttons, preset);
                let power = both_centre_buttons_went_down(gamepad.previous, pad.buttons);
                &&& final(gamepad).previous == pad.buttons
                &&& asked.0 == pad_drives(pad)
                &&& asked.1@.contains(Press::Mark(preset)) <==> !power && pad.buttons.start && down
                &&& asked.1@.contains(Press::Recall(preset)) <==> !power && !pad.buttons.start
                    && down
                &&& asked.1@.contains(Press::TogglePower) <==> power
            },
        forall|gamepad: &Gamepad, pad: &Pad, presses: Vec<Press>| #[trigger]
            call_ensures(Gamepad::presses, (gamepad, pad), presses) ==> presses@ == pressed(
                gamepad.previous,
                pad.buttons,
            ),
{
    assert forall|gamepad: &mut Gamepad, pad: Pad, asked: (Drives, Vec<Press>)| #[trigger]
        call_ensures(Gamepad::update, (gamepad, pad), asked) implies {
        let down = preset_button_went_down(gamepad.previous, pad.buttons, preset);
        let power = both_centre_buttons_went_down(gamepad.previous, pad.buttons);
        &&& final(gamepad).previous == pad.buttons
        &&& asked.0 == pad_drives(pad)
        &&& asked.1@.contains(Press::Mark(preset)) <==> !power && pad.buttons.start && down
        &&& asked.1@.contains(Press::Recall(preset)) <==> !power && !pad.buttons.start && down
        &&& asked.1@.contains(Press::TogglePower) <==> power
    } by {
        each_button_does_its_own_thing(gamepad.previous, pad.buttons, preset);
    }
}

/// One frame asks for what the hands ask for, and remembers what each control
/// was told.
pub proof fn a_frame_does_what_the_hands_ask()
    ensures
        forall|app: &mut App, hands: &Hands, now: u64, intents: Vec<Intent>| #[trigger]
            call_ensures(App::apply_hands, (app, hands, now), intents) ==> {
                let drives = asked_drives(app.camera_state, *hands);
                &&& intents@ == asked(*app, *hands)
                &&& final(app).pan_tilt == drives.pan_tilt
                &&& final(app).zoom == drives.zoom
                &&& final(app).focus == drives.focus
                &&& final(app).camera_state == app.camera_state
                &&& final(app).connection == app.connection
                &&& final(app).preset_positions == app.preset_positions
                &&& final(app).titles == app.titles
                &&& final(app).gamepad == app.gamepad
                &&& intents@.len() > 0 && now <= LATEST ==> final(app).next_query_at == Some(
                    (now + 300_000_000) as u64,
                )
                &&& intents@.len() == 0 ==> final(app).next_query_at == app.next_query_at
            },
        forall|app: &mut App, drives: Drives, now: u64, intents: Vec<Intent>| #[trigger]
            call_ensures(App::apply_drives, (app, drives, now), intents) ==> {
                &&& intents@ == drive_changes(*app, drives)
                &&& final(app).pan_tilt == drives.pan_tilt
                &&& final(app).zoom == drives.zoom
                &&& final(app).focus == drives.focus
            },
        forall|app: &mut App, presses: &[Press], now: u64, intents: Vec<Intent>| #[trigger]
            call_ensures(App::apply_presses, (app, presses, now), intents) ==> {
                &&& intents@ == press_intents(app.camera_state, presses@)
                &&& final(app).camera_state == app.camera_state
                &&& final(app).pan_tilt == app.pan_tilt
            },
        forall|app: &App, intents: Vec<Intent>| #[trigger]
            call_ensures(App::stop_all_drives, (app,), intents) ==> intents@ == drive_stops(*app),
        forall|app: &App, press: Press, intent: Option<Intent>| #[trigger]
            call_ensures(App::pressed_for, (app, press), intent) ==> intent == press_intent(
                app.camera_state,
                press,
            ),
        forall|app: &App, drives: Drives, given: Drives| #[trigger]
            call_ensures(App::drivable, (app, drives), given) ==> given == taken(
                app.camera_state,
                drives,
            ),
{
}

/// A query goes out when its moment has come and nothing is driven, and only
/// then, and is then no longer due.
pub proof fn a_window_asks_when_it_is_due()
    ensures
        forall|app: &mut App, now: u64, due: bool| #[trigger]
            call_ensures(App::send_query_state_if_due, (app, now), due) ==> {
                let driven = !(app.pan_tilt.direction is Stop) || app.zoom is Some || app.focus
                    is Some;
                &&& due <==> !driven && app.next_query_at is Some && app.next_query_at->Some_0
                    <= now
                &&& due ==> final(app).next_query_at is None
                &&& !due ==> *final(app) == *app
                &&& final(app).camera_state == app.camera_state
                &&& final(app).status == app.status
            },
{
}

/// A camera that answered is connected to, asked for a snapshot at once, taken
/// at its word on titles and worth saving; one that didn't is reported, and
/// changes nothing that is kept.
pub proof fn an_attempt_to_connect_is_taken_up()
    ensures
        forall|app: &mut App, result: Result<Link, String>, now: u64, save: bool| #[trigger]
            call_ensures(App::poll_connect_result, (app, result, now), save) ==> {
                &&& save <==> result is Ok
                &&& result matches Ok(link) ==> {
                    &&& final(app).connection == Connection::Connected {
                        link: link.link,
                        summary: link.summary,
                        details: link.details,
                    }
                    &&& final(app).titles_supported == link.titles
                    &&& final(app).next_query_at == Some(now)
                    &&& final(app).camera is Some
                    &&& final(app).camera->Some_0@ == trimmed(app.port_input@)
                    &&& !final(app).config_unread
                }
                &&& result matches Err(reason) ==> {
                    &&& final(app).connection == Connection::Failed(reason)
                    &&& final(app).camera == app.camera
                    &&& final(app).config_unread == app.config_unread
                    &&& final(app).next_query_at == app.next_query_at
                    &&& final(app).titles_supported == app.titles_supported
                }
                &&& final(app).preset_labels == app.preset_labels
                &&& final(app).titles == app.titles
                &&& final(app).camera_state == app.camera_state
            },
        forall|app: &mut App, port: String| #[trigger]
            call_ensures(App::start_connect, (app,), port) ==> port@ == trimmed(app.port_input@)
                && final(app).connection is Connecting && final(app).port_input == app.port_input
                && final(app).camera == app.camera,
{
}

/// What is kept is saved unless it would be written over a file that would not
/// load, and a window starts from what was saved.
pub proof fn what_is_kept_is_saved(app: &App, config: Option<Config>, may: bool, slot: u8)
    requires
        call_ensures(App::save_config, (app,), config),
        call_ensures(App::may_save, (app,), may),
    ensures
        may <==> !app.config_unread,
        config is Some <==> may,
        config matches Some(kept) ==> {
            &&& kept.camera is Some <==> app.camera is Some
            &&& app.camera is Some ==> kept.camera->Some_0@ == app.camera->Some_0@
            &&& kept.preset_positions@ == app.preset_positions@
            &&& kept.presets@.contains_key(slot) <==> app.preset_labels@.contains_key(slot)
                && !is_blank(app.preset_labels@[slot]@)
            &&& kept.presets@.contains_key(slot) ==> kept.presets@[slot]@
                == app.preset_labels@[slot]@
            &&& kept.titles@.contains_key(slot) <==> app.titles@.contains_key(slot) && !is_blank(
                app.titles@[slot]@,
            )
            &&& kept.titles@.contains_key(slot) ==> kept.titles@[slot]@ == app.titles@[slot]@
        },
{
}

/// A window starts from what its config file held, locked against marking and
/// knowing nothing of the camera. A file that would not load is reported, and
/// left alone.
pub proof fn a_window_starts_from_what_was_kept(
    guess: &str,
    loaded: Option<Result<Config, ConfigError>>,
    app: App,
)
    requires
        call_ensures(App::with_config, (guess, loaded), app),
    ensures
        app.marking_locked,
        app.titles_supported,
        app.camera_state is None,
        app.shown_title is None,
        app.connection is Disconnected,
        app.next_query_at is None,
        app.pan_tilt.direction is Stop && app.zoom is None && app.focus is None,
        app.config_unread <==> loaded is Some && loaded->Some_0 is Err,
        loaded matches Some(Ok(config)) ==> {
            &&& app.preset_labels == config.presets
            &&& app.preset_positions == config.preset_positions
            &&& app.titles == config.titles
            &&& app.status is None
            &&& config.camera is Some ==> app.port_input@ == config.camera->Some_0@ && app.camera
                is Some && app.camera->Some_0@ == config.camera->Some_0@
            &&& config.camera is None ==> app.port_input@ == guess@ && app.camera is None
        },
        loaded matches Some(Err(error)) ==> shown(app.status) == Some(
            (config_error_words(error), true),
        ) && app.port_input@ == guess@,
        loaded is None ==> app.status is None && app.port_input@ == guess@ && app.camera is None,
{
}

/// Showing a title remembers which one, and editing the one that shows has it
/// shown again, while editing another does nothing.
pub proof fn an_edited_title_shows_again()
    ensures
        forall|app: &mut App, number: Option<u8>, now: u64, intents: Vec<Intent>| #[trigger]
            call_ensures(App::show_title, (app, number, now), intents) ==> {
                &&& final(app).shown_title == number
                &&& final(app).titles == app.titles
                &&& number is Some && app.titles@.contains_key(number->Some_0) ==> {
                    &&& intents@.len() == 2
                    &&& intents@[0] is SetTitle
                    &&& intents@[0]->SetTitle_0.0@ == title_codes(app.titles@[number->Some_0]@)
                    &&& intents@[1] == Intent::ShowTitle(true)
                }
                &&& !(number is Some && app.titles@.contains_key(number->Some_0)) ==> intents@
                    == seq![Intent::ShowTitle(false)]
            },
        forall|app: &mut App, number: u8, now: u64, intents: Vec<Intent>| #[trigger]
            call_ensures(App::title_edited, (app, number, now), intents) ==> {
                &&& final(app).shown_title == app.shown_title
                &&& app.shown_title != Some(number) ==> intents@.len() == 0
                &&& app.shown_title == Some(number) && app.titles@.contains_key(number) ==> {
                    &&& intents@.len() == 2
                    &&& intents@[0] is SetTitle
                    &&& intents@[0]->SetTitle_0.0@ == title_codes(app.titles@[number]@)
                    &&& intents@[1] == Intent::ShowTitle(true)
                }
            },
{
}

/// What a window says of itself goes by what it knows of the camera.
pub proof fn a_window_says_what_it_knows(
    app: &App,
    asleep: bool,
    auto: bool,
    offered: bool,
    button: (&'static str, Intent),
    rocker: (bool, &'static str),
    armed: bool,
    mark: &'static str,
    titles: bool,
    title: &'static str,
)
    requires
        call_ensures(App::asleep, (app,), asleep),
        call_ensures(App::auto_focusing, (app,), auto),
        call_ensures(App::power_to_offer, (app,), offered),
        call_ensures(App::power_button, (app,), button),
        call_ensures(App::focus_rocker, (app,), rocker),
        call_ensures(App::marking, (app,), armed),
        call_ensures(App::mark_hint, (app,), mark),
        call_ensures(App::titles_offered, (app,), titles),
        call_ensures(App::title_hint, (app,), title),
    ensures
        ({
            let state = app.camera_state;
            &&& asleep <==> state is Some && !state->Some_0.power_on
            &&& auto <==> state is Some && state->Some_0.lens is Some
                && state->Some_0.lens->Some_0.auto_focus
            &&& offered <==> state is None || !state->Some_0.power_on
            &&& button.1 == Intent::SetPower(offered)
            &&& offered ==> button.0@ == "Power on"@
            &&& !offered ==> button.0@ == "Power off"@
            &&& rocker.0 <==> !asleep && !auto
            &&& asleep ==> rocker.1@ == STANDBY_HINT@ && mark@ == STANDBY_HINT@
            &&& !asleep ==> rocker.1@ == AUTO_FOCUS_HINT@ && mark@ == LOCKED_HINT@
            &&& armed <==> !asleep && !app.marking_locked
            &&& titles <==> !asleep && app.titles_supported
            &&& app.titles_supported ==> title@ == STANDBY_HINT@
            &&& !app.titles_supported ==> title@ == NO_TITLES_HINT@
        }),
{
}

/// The power lamp is put into words by what it shows.
pub proof fn the_lamp_is_put_into_words(
    state: Option<CameraState>,
    words: &'static str,
    powered: Option<bool>,
    tooltip: &'static str,
)
    requires
        call_ensures(power_words, (state,), words),
        call_ensures(lamp_tooltip, (powered,), tooltip),
    ensures
        state is None ==> words@ == "Waiting for the camera"@,
        state matches Some(known) ==> {
            &&& !known.power_on ==> words@ == "Camera is in standby"@
            &&& known.power_on && known.lens is Some ==> words@ == "Camera is on"@
            &&& known.power_on && known.lens is None ==> words@ == "Camera is starting up"@
        },
        powered is None ==> tooltip@ == "Waiting for the camera"@,
        powered == Some(true) ==> tooltip@ == "Camera is on"@,
        powered == Some(false) ==> tooltip@ == "Camera is in standby"@,
{
}

/// A batch is coalesced, intents are told apart and put into words as they are,
/// and a stop is confirmed by the answer to that very stop.
pub proof fn a_batch_is_read_as_it_is(
    batch: &[Intent],
    kept: Vec<Intent>,
    intent: Intent,
    part: Option<Control>,
    movement: bool,
    title: bool,
    words: String,
    busy: String,
    outcome: &Outcome,
    report: String,
    confirmed: bool,
)
    requires
        call_ensures(coalesced, (batch,), kept),
        call_ensures(control, (intent,), part),
        call_ensures(is_movement, (intent,), movement),
        call_ensures(is_title, (intent,), title),
        call_ensures(describe, (intent,), words),
        call_ensures(describe_busy, (intent,), busy),
        call_ensures(describe_outcome, (outcome,), report),
        call_ensures(confirms, (outcome, intent), confirmed),
    ensures
        kept@ == coalesce(batch@),
        part == Some(Control::PanTilt) <==> intent is DrivePanTilt,
        part == Some(Control::Zoom) <==> intent is DriveZoom,
        part == Some(Control::Focus) <==> intent is DriveFocus,
        movement <==> intent is DrivePanTilt || intent is DriveZoom || intent is DriveFocus
            || intent is Nudge,
        title <==> intent is SetTitle || intent is ShowTitle,
        words@ == description(intent),
        busy@ == description(intent) + "..."@,
        report@ == outcome_words(*outcome),
        confirmed <==> outcome is Done && outcome->Done_0 == intent,
{
}

/// A title is encoded character by character, and a camera has titles unless it
/// doesn't know the command.
pub proof fn a_title_is_encoded_as_typed(
    text: &str,
    title: Title,
    character: char,
    code: u8,
    answer: &Result<(), Error>,
    has: bool,
)
    requires
        call_ensures(Title::new, (text,), title),
        call_ensures(encode, (character,), code),
        call_ensures(supported, (answer,), has),
    ensures
        title.0@ == title_codes(text@),
        code == encoded(character),
        'a' <= character <= 'z' ==> code == character as u32 - 'a' as u32,
        has <==> answer is Ok || !(answer->Err_0 is SyntaxError),
{
}

/// A frame is drawn far sooner while a controller is in hand, and the switch of
/// the Mark column says which way it is.
pub proof fn a_frame_is_drawn_sooner_with_a_stick(
    in_hand: bool,
    interval: u64,
    locked: bool,
    text: &'static str,
)
    requires
        call_ensures(repaint_after, (in_hand,), interval),
        call_ensures(marking_tooltip, (locked,), text),
    ensures
        in_hand ==> interval == 16_000_000,
        !in_hand ==> interval == 100_000_000,
        locked ==> text@
            == "Off, so a preset can't be overwritten by a mis-click. Turn it on to store new shots."@,
        !locked ==> text@
            == "On: the Mark buttons will overwrite presets. Turn it off once the shots are set."@,
{
}

} // verus!
