//! What a session leaves running on the camera.
//!
//! A continuous drive runs on the camera by itself until something stops it,
//! so what the camera is doing is the sum of everything it was ever sent. This
//! is that sum, and the promises a session keeps about it.

use vstd::prelude::*;

use crate::keymap::{
    a_key_means_one_thing, Action, KeyCode, KeyEvent, KeyEventKind, Paces,
};
use crate::session::{
    acting, arrow_way, draining, followed_by, going_stale, is_held, meaning, nothing, passing,
    querying, quits, taking_up, telling, EffectView, HeldKey, Next, Session, Turn, STANDBY_HINT,
};
use crate::drives::Drives;
use crate::nudge::Step;
use crate::pan_tilt::Velocity;
use crate::window::{drive_changes, drive_stops, if_so, with_drives, App};
use crate::worker::{
    accepted, coalesce, coalescing_loses_nothing, control_of, last_drive, Control, Intent, Outcome,
};

verus! {

/// Whether an intent leaves its control moving.
pub open spec fn sets_going(intent: Intent) -> bool {
    match intent {
        Intent::DrivePanTilt(velocity) => !velocity.stops(),
        Intent::DriveZoom(drive) => drive is Some,
        Intent::DriveFocus(drive) => drive is Some,
        _ => false,
    }
}

/// What is running once an intent has been carried out.
pub open spec fn after_intent(running: Set<Control>, intent: Intent) -> Set<Control> {
    match control_of(intent) {
        Some(control) => if sets_going(intent) {
            running.insert(control)
        } else {
            running.remove(control)
        },
        None => running,
    }
}

/// What is running once everything among these effects that is sent has been
/// carried out.
pub open spec fn after_effects(running: Set<Control>, effects: Seq<EffectView>) -> Set<Control>
    decreases effects.len(),
{
    if effects.len() == 0 {
        running
    } else {
        let before = after_effects(running, effects.drop_last());
        match effects.last() {
            EffectView::Send(intent) => after_intent(before, intent),
            _ => before,
        }
    }
}

/// What is running once a batch of intents has been carried out.
pub open spec fn after_batch(running: Set<Control>, batch: Seq<Intent>) -> Set<Control>
    decreases batch.len(),
{
    if batch.len() == 0 {
        running
    } else {
        after_batch(after_intent(running, batch.first()), batch.drop_first())
    }
}

/// The control that the held key drives.
pub open spec fn held_controls(session: Session) -> Set<Control> {
    match session.held {
        Some(held) => Set::empty().insert(held.hold.control()),
        None => Set::empty(),
    }
}

/// Something that happens to a session.
pub enum Event {
    /// A key event.
    Key(KeyEvent, Paces),
    /// A look at whether the held key has gone quiet.
    Quiet,
    /// A result.
    Result(Outcome),
    /// A look at the query timer.
    Query,
}

/// What an event at `now` does to a session.
pub open spec fn happening(session: Session, event: Event, now: u64) -> Turn {
    match event {
        Event::Key(key, paces) => acting(
            session,
            meaning(session, key, paces),
            key.code,
            key.kind,
            now,
        ),
        Event::Quiet => going_stale(session, now),
        Event::Result(outcome) => taking_up(session, outcome, now),
        Event::Query => querying(session, now),
    }
}

/// What a run of events, each with its moment, does to a session.
pub open spec fn life(session: Session, events: Seq<(Event, u64)>) -> Turn
    decreases events.len(),
{
    if events.len() == 0 {
        nothing(session)
    } else {
        let before = life(session, events.drop_last());
        followed_by(before, happening(before.session, events.last().0, events.last().1))
    }
}

/// Whether the held key, if there is one, holds a drive that moves something.
pub open spec fn holds_a_drive(session: Session) -> bool {
    session.held matches Some(held) ==> held.hold.drives()
}

proof fn after_more_effects(
    running: Set<Control>,
    first: Seq<EffectView>,
    second: Seq<EffectView>,
)
    ensures
        after_effects(running, first + second) == after_effects(
            after_effects(running, first),
            second,
        ),
    decreases second.len(),
{
    if second.len() == 0 {
        assert(first + second =~= first);
    } else {
        after_more_effects(running, first, second.drop_last());
        assert((first + second).drop_last() =~= first + second.drop_last());
    }
}

/// Whatever happens, the control that the held key drives is the only one
/// left running.
pub proof fn an_event_keeps_only_the_held_key_running(
    running: Set<Control>,
    session: Session,
    event: Event,
    now: u64,
)
    requires
        running == held_controls(session),
        holds_a_drive(session),
    ensures
        after_effects(running, happening(session, event, now).effects) == held_controls(
            happening(session, event, now).session,
        ),
        holds_a_drive(happening(session, event, now).session),
{
    let turn = happening(session, event, now);
    if let Event::Key(key, paces) = event {
        a_key_means_one_thing(key, key.kind, paces);
    }
    reveal_with_fuel(after_effects, 3);
    if turn.effects.len() == 2 {
        assert(turn.effects.drop_last().drop_last() =~= Seq::empty());
        assert(turn.effects.drop_last().last() == turn.effects[0]);
    }
    assert(after_effects(running, turn.effects) =~= held_controls(turn.session));
}

/// From the moment a session starts, through any run of keys, results and
/// silences, the camera is moving exactly what the held key drives, and
/// nothing while no key is held.
pub proof fn only_the_held_key_runs(start: u64, events: Seq<(Event, u64)>)
    ensures
        ({
            let session = Session {
                next_query_at: Some(start),
                held: None,
                auto_focus: None,
                power_on: None,
            };
            let turn = life(session, events);
            after_effects(Set::empty(), turn.effects) == held_controls(turn.session)
                && holds_a_drive(turn.session)
        }),
    decreases events.len(),
{
    let session = Session {
        next_query_at: Some(start),
        held: None,
        auto_focus: None,
        power_on: None,
    };
    if events.len() > 0 {
        only_the_held_key_runs(start, events.drop_last());
        let before = life(session, events.drop_last());
        let (event, now) = events.last();
        let turn = happening(before.session, event, now);
        after_more_effects(Set::empty(), before.effects, turn.effects);
        an_event_keeps_only_the_held_key_running(
            held_controls(before.session),
            before.session,
            event,
            now,
        );
    }
}

/// Ending a session by the stop it asks for leaves nothing running.
pub proof fn finishing_leaves_nothing_running(session: Session)
    ensures
        match session.held {
            Some(held) => after_intent(held_controls(session), held.hold.stop()) == Set::<
                Control,
            >::empty(),
            None => held_controls(session) == Set::<Control>::empty(),
        },
{
    if let Some(held) = session.held {
        assert(after_intent(held_controls(session), held.hold.stop()) =~= Set::empty());
    }
}

/// Results leave running what was running: they change nothing that is held.
proof fn results_change_nothing_that_runs(
    running: Set<Control>,
    session: Session,
    outcomes: Seq<Outcome>,
    now: u64,
)
    requires
        running == held_controls(session),
        holds_a_drive(session),
    ensures
        after_effects(running, draining(session, outcomes, now).effects) == held_controls(
            draining(session, outcomes, now).session,
        ),
        holds_a_drive(draining(session, outcomes, now).session),
    decreases outcomes.len(),
{
    if outcomes.len() > 0 {
        results_change_nothing_that_runs(running, session, outcomes.drop_last(), now);
        let before = draining(session, outcomes.drop_last(), now);
        let event = Event::Result(outcomes.last());
        after_more_effects(
            running,
            before.effects,
            happening(before.session, event, now).effects,
        );
        an_event_keeps_only_the_held_key_running(
            held_controls(before.session),
            before.session,
            event,
            now,
        );
    }
}

/// A pass of the loop leaves running what the held key drives, and one that
/// ends the session leaves nothing running once its stop has been sent.
pub proof fn a_pass_keeps_only_the_held_key_running(
    session: Session,
    key: Option<KeyEvent>,
    outcomes: Seq<Outcome>,
    connected: bool,
    paces: Paces,
    now: u64,
)
    requires
        holds_a_drive(session),
    ensures
        ({
            let (next, turn) = passing(session, key, outcomes, connected, paces, now);
            let running = after_effects(held_controls(session), turn.effects);
            match next {
                Next::Quit(Some(stop)) => after_intent(running, stop) == Set::<Control>::empty(),
                Next::Quit(None) => running == Set::<Control>::empty(),
                _ => running == held_controls(turn.session) && holds_a_drive(turn.session),
            }
        }),
{
    let start = held_controls(session);
    let pressed = match key {
        Some(key) => happening(session, Event::Key(key, paces), now),
        None => nothing(session),
    };
    if let Some(key) = key {
        an_event_keeps_only_the_held_key_running(start, session, Event::Key(key, paces), now);
    }
    assert(after_effects(start, pressed.effects) == held_controls(pressed.session));
    if key is Some && quits(meaning(session, key->Some_0, paces), key->Some_0.kind) {
        finishing_leaves_nothing_running(pressed.session);
    } else {
        let stale = going_stale(pressed.session, now);
        an_event_keeps_only_the_held_key_running(
            held_controls(pressed.session),
            pressed.session,
            Event::Quiet,
            now,
        );
        after_more_effects(start, pressed.effects, stale.effects);
        let quiet = followed_by(pressed, stale);
        let drained = draining(quiet.session, outcomes, now);
        results_change_nothing_that_runs(
            held_controls(quiet.session),
            quiet.session,
            outcomes,
            now,
        );
        after_more_effects(start, quiet.effects, drained.effects);
        let so_far = followed_by(quiet, drained);
        if connected {
            let query = querying(so_far.session, now);
            an_event_keeps_only_the_held_key_running(
                held_controls(so_far.session),
                so_far.session,
                Event::Query,
                now,
            );
            after_more_effects(start, so_far.effects, query.effects);
        }
    }
}

/// A camera that said it is in standby is never asked to move, whichever key
/// is touched: at most a drive from before is stopped.
pub proof fn a_sleeping_camera_is_never_moved(
    session: Session,
    action: Option<Action>,
    code: KeyCode,
    kind: KeyEventKind,
    now: u64,
    place: int,
)
    requires
        session.power_on == Some(false),
        0 <= place < acting(session, action, code, kind, now).effects.len(),
    ensures
        acting(session, action, code, kind, now).effects[place] matches EffectView::Send(intent)
            ==> !sets_going(intent) && !(intent is Nudge),
{
}

/// A camera that said it is focusing for itself is never sent a focus drive,
/// whichever key is touched.
pub proof fn a_camera_that_focuses_itself_is_left_to_it(
    session: Session,
    key: KeyEvent,
    paces: Paces,
    now: u64,
    place: int,
)
    requires
        session.auto_focus == Some(true),
        0 <= place < happening(session, Event::Key(key, paces), now).effects.len(),
    ensures
        happening(session, Event::Key(key, paces), now).effects[place] matches EffectView::Send(
            intent,
        ) ==> !(intent matches Intent::DriveFocus(Some(_))),
{
    a_key_means_one_thing(key, key.kind, paces);
}

/// A key that is already driving sends nothing more, however often it is
/// reported, until it is released: only the moment it was last heard from
/// moves on.
pub proof fn a_repeat_sends_nothing(session: Session, key: KeyEvent, paces: Paces, now: u64)
    requires
        is_held(session, key.code),
        meaning(session, key, paces) matches Some(Action::Hold(_)),
        !(key.kind is Release),
    ensures
        happening(session, Event::Key(key, paces), now) == nothing(
            (Session {
                held: Some(HeldKey { last_seen: now, ..session.held->Some_0 }),
                ..session
            }),
        ),
{
}

/// Holding a key and letting it go starts its drive and stops it, and leaves
/// no key held, whether or not shift is still down by then.
pub proof fn a_release_undoes_a_press(
    session: Session,
    key: KeyEvent,
    paces: Paces,
    shift: bool,
    now: u64,
    later: u64,
)
    requires
        session.held is None,
        session.power_on != Some(false),
        session.auto_focus != Some(true),
        key.kind is Press,
        meaning(session, key, paces) matches Some(Action::Hold(_)),
    ensures
        ({
            let hold = meaning(session, key, paces)->Some_0->Hold_0;
            let pressed = happening(session, Event::Key(key, paces), now);
            let release = KeyEvent { kind: KeyEventKind::Release, shift, ..key };
            let released = happening(pressed.session, Event::Key(release, paces), later);
            &&& pressed.effects == seq![EffectView::Send(hold.start())]
            &&& released.effects == seq![EffectView::Send(hold.stop())]
            &&& released.session.held is None
        }),
{
    a_key_means_one_thing(key, KeyEventKind::Release, paces);
}

/// Nothing that a session asks for is ever refused for a number in it.
pub proof fn a_session_asks_for_nothing_refused(session: Session, event: Event, now: u64)
    requires
        event matches Event::Key(_, paces) ==> paces.valid(),
    ensures
        forall|place: int|
            0 <= place < happening(session, event, now).effects.len()
                && #[trigger] happening(session, event, now).effects[place] is Send ==> accepted(
                happening(session, event, now).effects[place]->Send_0,
            ),
{
}

/// An arrow on its own steps the camera once for each time it is pressed, and
/// neither holds anything nor drives: repeats and releases ask for nothing.
pub proof fn a_plain_arrow_takes_one_step(
    session: Session,
    key: KeyEvent,
    paces: Paces,
    now: u64,
)
    requires
        arrow_way(key.code) is Some,
        !key.shift,
        !is_held(session, key.code),
    ensures
        ({
            let turn = happening(session, Event::Key(key, paces), now);
            let step = Intent::Nudge(Step::one(arrow_way(key.code)->Some_0));
            &&& turn.session.held == session.held
            &&& key.kind is Press && session.power_on != Some(false) ==> turn.effects
                == seq![EffectView::Send(step)]
            &&& key.kind is Press && session.power_on == Some(false) ==> turn == telling(
                session,
                STANDBY_HINT@,
            )
            &&& !(key.kind is Press) ==> turn == nothing(session)
        }),
{
}

/// Nothing is asked while a key is held, and a query that has been asked is
/// not asked again until something arms it.
pub proof fn a_query_waits_and_is_asked_once(session: Session, now: u64, later: u64)
    ensures
        session.held is Some ==> querying(session, now) == nothing(session),
        querying(querying(session, now).session, later).effects.len() > 0 ==> querying(
            session,
            now,
        ) == nothing(session),
{
}

/// Switching the focus mode twice asks the camera for one mode and then for
/// the other.
pub proof fn two_switches_of_the_focus_mode_are_opposite(
    session: Session,
    code: KeyCode,
    now: u64,
    later: u64,
)
    ensures
        ({
            let press = KeyEventKind::Press;
            let once = acting(session, Some(Action::ToggleAutoFocus), code, press, now);
            let twice = acting(once.session, Some(Action::ToggleAutoFocus), code, press, later);
            let auto = session.auto_focus == Some(false);
            &&& once.effects[0] == EffectView::Send(Intent::SetAutoFocus(auto))
            &&& twice.effects[0] == EffectView::Send(Intent::SetAutoFocus(!auto))
            &&& session.auto_focus is Some ==> twice.session.auto_focus == session.auto_focus
        }),
{
}

/// Once the camera has confirmed a switch of its power, the power key offers
/// the other state.
pub proof fn the_power_key_offers_the_other_state(
    session: Session,
    on: bool,
    code: KeyCode,
    now: u64,
    later: u64,
)
    ensures
        ({
            let confirmed = taking_up(
                session,
                Outcome::Done(Intent::SetPower(on), Ok(())),
                now,
            ).session;
            let press = KeyEventKind::Press;
            acting(confirmed, Some(Action::TogglePower), code, press, later).effects[0]
                == EffectView::Send(Intent::SetPower(!on))
        }),
{
}

/// Whether a control is running after a batch is decided by the last drive it
/// was sent, or by whether it was running before.
proof fn the_last_drive_decides(running: Set<Control>, batch: Seq<Intent>, control: Control)
    ensures
        after_batch(running, batch).contains(control) == match last_drive(batch, control) {
            Some(intent) => sets_going(intent),
            None => running.contains(control),
        },
    decreases batch.len(),
{
    if batch.len() > 0 {
        the_last_drive_decides(
            after_intent(running, batch.first()),
            batch.drop_first(),
            control,
        );
    }
}

/// Dropping the drives that later ones superseded leaves the same controls
/// running, whatever was running before.
pub proof fn coalescing_leaves_the_same_running(running: Set<Control>, batch: Seq<Intent>)
    ensures
        after_batch(running, coalesce(batch)) == after_batch(running, batch),
{
    assert forall|control: Control|
        after_batch(running, coalesce(batch)).contains(control) == after_batch(
            running,
            batch,
        ).contains(control) by {
        coalescing_loses_nothing(batch, control);
        the_last_drive_decides(running, batch, control);
        the_last_drive_decides(running, coalesce(batch), control);
    }
    assert(after_batch(running, coalesce(batch)) =~= after_batch(running, batch));
}

/// What a window has left running on the camera, going by what it was last
/// told.
pub open spec fn window_controls(app: App) -> Set<Control> {
    Set::new(
        |control: Control|
            match control {
                Control::PanTilt => !app.pan_tilt.stops(),
                Control::Zoom => app.zoom is Some,
                Control::Focus => app.focus is Some,
            },
    )
}

proof fn after_more_of_a_batch(running: Set<Control>, first: Seq<Intent>, second: Seq<Intent>)
    ensures
        after_batch(running, first + second) == after_batch(after_batch(running, first), second),
    decreases first.len(),
{
    if first.len() == 0 {
        assert(first + second =~= second);
    } else {
        assert((first + second).drop_first() =~= first.drop_first() + second);
        after_more_of_a_batch(
            after_intent(running, first.first()),
            first.drop_first(),
            second,
        );
    }
}

proof fn after_one_if_so(running: Set<Control>, cause: bool, intent: Intent)
    ensures
        after_batch(running, if_so(cause, intent)) == if cause {
            after_intent(running, intent)
        } else {
            running
        },
{
    reveal_with_fuel(after_batch, 2);
}

/// A window knows what it has left running: sending the drives that changed
/// makes the camera run exactly what is asked for now.
pub proof fn a_window_knows_what_runs(app: App, drives: Drives)
    ensures
        after_batch(window_controls(app), drive_changes(app, drives)) == window_controls(
            with_drives(app, drives),
        ),
{
    let (pan, zoom, focus) = (
        drives.pan_tilt != app.pan_tilt,
        drives.zoom != app.zoom,
        drives.focus != app.focus,
    );
    let running = window_controls(app);
    let head = Intent::DrivePanTilt(drives.pan_tilt);
    let lens = Intent::DriveZoom(drives.zoom);
    let sharp = Intent::DriveFocus(drives.focus);
    after_more_of_a_batch(running, if_so(pan, head) + if_so(zoom, lens), if_so(focus, sharp));
    after_more_of_a_batch(running, if_so(pan, head), if_so(zoom, lens));
    after_one_if_so(running, pan, head);
    let moved = after_batch(running, if_so(pan, head));
    after_one_if_so(moved, zoom, lens);
    after_one_if_so(after_batch(moved, if_so(zoom, lens)), focus, sharp);
    assert(after_batch(running, drive_changes(app, drives)) =~= window_controls(
        with_drives(app, drives),
    ));
}

/// The stops a window sends on the way out leave nothing running.
pub proof fn closing_a_window_leaves_nothing_running(app: App)
    ensures
        after_batch(window_controls(app), drive_stops(app)) == Set::<Control>::empty(),
{
    let (pan, zoom, focus) = (!app.pan_tilt.stops(), app.zoom is Some, app.focus is Some);
    let running = window_controls(app);
    let head = Intent::DrivePanTilt(Velocity::stopped());
    let lens = Intent::DriveZoom(None);
    let sharp = Intent::DriveFocus(None);
    after_more_of_a_batch(running, if_so(pan, head) + if_so(zoom, lens), if_so(focus, sharp));
    after_more_of_a_batch(running, if_so(pan, head), if_so(zoom, lens));
    after_one_if_so(running, pan, head);
    let moved = after_batch(running, if_so(pan, head));
    after_one_if_so(moved, zoom, lens);
    after_one_if_so(after_batch(moved, if_so(zoom, lens)), focus, sharp);
    assert(after_batch(running, drive_stops(app)) =~= Set::<Control>::empty());
}

} // verus!
