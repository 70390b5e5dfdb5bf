//! What a window makes of what the camera says, and what it asks for in one
//! frame.
//!
//! Stated over what the camera answered, what the hands did and what is then
//! known, shown and sent.

use vstd::prelude::*;

use crate::drives::Drives;
use crate::gamepad::Press;
use crate::labels::fitting;
use crate::nudge::Step;
use crate::session::{LATEST, NO_ANSWER_HINT};
use crate::state::{CameraState, Position};
use crate::title::title_codes;
use crate::window::{
    asked, asked_drives, drive_changes, drive_stops, focuses_itself, has_failed, if_so, is_asleep,
    learned, offered_power, outcome_query, outcome_state, outcome_status, press_intent,
    press_intents, refuses_titles, said, sent, shown, shows_title, step_intents, taken, with_drives,
    App, Hands, Status, AUTO_FOCUS_HINT, LOCKED_HINT, NO_TITLES_HINT, STANDBY_HINT,
};
use crate::worker::{description, outcome_words, Intent, Outcome};

verus! {

/// What a window knows of a camera that said this: it is asleep exactly when
/// its power is off, it focuses itself exactly when its lens says so, and the
/// power on offer is the one it is not in.
pub proof fn a_window_believes_what_it_knows(state: CameraState)
    ensures
        is_asleep(Some(state)) <==> !state.power_on,
        offered_power(Some(state)) <==> !state.power_on,
        focuses_itself(Some(state)) <==> state.lens is Some && state.lens->Some_0.auto_focus,
        !is_asleep(None),
        offered_power(None),
        !focuses_itself(None),
{
}

/// A snapshot is believed whatever it says, on or off, with a lens or without:
/// what is known of the camera is then exactly that snapshot, the window is
/// asleep exactly when it says that the power is off, and the power on offer
/// is the other one.
pub proof fn a_snapshot_is_what_is_known(before: Option<CameraState>, state: CameraState)
    ensures
        outcome_state(before, Outcome::State(Ok(state))) == Some(state),
        is_asleep(outcome_state(before, Outcome::State(Ok(state)))) <==> !state.power_on,
        offered_power(outcome_state(before, Outcome::State(Ok(state)))) <==> !state.power_on,
{
}

/// A confirmed switch of the power is the camera's word on its power, and
/// leaves its lens unknown. No other answer changes what is known of it.
pub proof fn only_the_camera_says_what_it_is(before: Option<CameraState>, outcome: Outcome)
    ensures
        match outcome {
            Outcome::State(Ok(state)) => outcome_state(before, outcome) == Some(state),
            Outcome::Done(Intent::SetPower(on), Ok(_)) => {
                let after = outcome_state(before, outcome);
                &&& after is Some
                &&& after->Some_0.power_on == on
                &&& after->Some_0.lens is None
            },
            _ => outcome_state(before, outcome) == before,
        },
{
}

/// A query that went unanswered is asked again a second later, and so is one
/// that found the camera awake without a lens to report. No other answer moves
/// the next query.
pub proof fn a_query_is_asked_again_when_it_has_to_be(
    before: Option<u64>,
    outcome: Outcome,
    now: u64,
)
    requires
        now <= LATEST,
    ensures
        ({
            let starting = outcome matches Outcome::State(Ok(state)) && state.power_on && state.lens
                is None;
            let silent = outcome matches Outcome::State(Err(_));
            &&& starting || silent ==> outcome_query(before, outcome, now) == Some(
                (now + 1_000_000_000) as u64,
            )
            &&& !starting && !silent ==> outcome_query(before, outcome, now) == before
        }),
{
}

/// A camera has no titles exactly when it answers a title command with a syntax
/// error, and an outcome has failed exactly when it carries an error.
pub proof fn a_title_is_refused_by_a_syntax_error(outcome: Outcome)
    ensures
        refuses_titles(outcome) <==> {
            &&& outcome is Done
            &&& outcome->Done_0 is SetTitle || outcome->Done_0 is ShowTitle
            &&& outcome->Done_1 is Err
            &&& outcome->Done_1->Err_0 is SyntaxError
        },
        has_failed(outcome) <==> {
            ||| outcome is Done && outcome->Done_1 is Err
            ||| outcome is Preset && outcome->Preset_1 is Err
            ||| outcome is State && outcome->State_0 is Err
        },
{
}

/// The status line is left as it was by a snapshot and by a movement that
/// worked. A query that went unanswered says so without being a failure, a
/// camera without titles is said to have none, and anything else is reported
/// in words, as a failure exactly when it was one.
pub proof fn the_status_line_says_what_came_of_it(
    before: Option<(Seq<char>, bool)>,
    outcome: Outcome,
)
    ensures
        ({
            let after = outcome_status(before, outcome);
            let moved = outcome matches Outcome::Done(intent, Ok(_)) && (intent is DrivePanTilt
                || intent is DriveZoom || intent is DriveFocus || intent is Nudge);
            let told = outcome matches Outcome::State(Ok(_));
            let silent = outcome matches Outcome::State(Err(_));
            &&& moved || told ==> after == before
            &&& silent ==> after == Some((NO_ANSWER_HINT@, false))
            &&& refuses_titles(outcome) ==> after == Some((NO_TITLES_HINT@, true))
            &&& !moved && !told && !silent && !refuses_titles(outcome) ==> after == Some(
                (outcome_words(outcome), has_failed(outcome)),
            )
        }),
{
}

/// A preset that was recalled or saved is remembered where the camera then
/// stood, under its own number, and every other preset as it was before. No
/// other answer changes what is remembered.
pub proof fn a_preset_is_remembered_where_it_points(
    before: Map<u8, Position>,
    number: u8,
    position: Position,
    slot: u8,
    outcome: Outcome,
)
    ensures
        ({
            let recalled = learned(
                before,
                Outcome::Preset(Intent::RecallPreset(number), Ok(Some(position))),
            );
            let saved = learned(
                before,
                Outcome::Preset(Intent::SavePreset(number), Ok(Some(position))),
            );
            &&& recalled.contains_key(number) && recalled[number] == position
            &&& saved.contains_key(number) && saved[number] == position
            &&& slot != number ==> {
                &&& recalled.contains_key(slot) == before.contains_key(slot)
                &&& saved.contains_key(slot) == before.contains_key(slot)
                &&& before.contains_key(slot) ==> recalled[slot] == before[slot] && saved[slot]
                    == before[slot]
            }
        }),
        !(outcome is Preset) || outcome->Preset_1 is Err || outcome->Preset_1->Ok_0 is None
            ==> learned(before, outcome) == before,
        outcome is Preset && !(outcome->Preset_0 is RecallPreset) && !(outcome->Preset_0
            is SavePreset) ==> learned(before, outcome) == before,
{
}

/// A sleeping camera is given no drive, one that focuses itself no drive of its
/// focus, and any other exactly the drives that are asked for.
pub proof fn a_camera_is_given_what_it_takes(state: Option<CameraState>, drives: Drives)
    ensures
        ({
            let given = taken(state, drives);
            let asleep = state is Some && !state->Some_0.power_on;
            let auto = state is Some && state->Some_0.lens is Some
                && state->Some_0.lens->Some_0.auto_focus;
            &&& asleep ==> given.pan_tilt.direction is Stop && given.zoom is None && given.focus
                is None
            &&& !asleep ==> given.pan_tilt == drives.pan_tilt && given.zoom == drives.zoom
            &&& !asleep && auto ==> given.focus is None
            &&& !asleep && !auto ==> given.focus == drives.focus
        }),
{
}

/// A press on the controller asks for what it says: its own preset, gone to or
/// marked, the home position, the other focus mode, the other power state, or
/// one step its own way. A sleeping camera is asked for its power alone.
pub proof fn a_press_asks_for_what_it_says(state: Option<CameraState>, press: Press)
    ensures
        ({
            let asleep = state is Some && !state->Some_0.power_on;
            let awake = state is Some && state->Some_0.power_on;
            let auto = state is Some && state->Some_0.lens is Some
                && state->Some_0.lens->Some_0.auto_focus;
            let asked = press_intent(state, press);
            &&& press is TogglePower ==> asked == Some(Intent::SetPower(!awake))
            &&& !(press is TogglePower) && asleep ==> asked is None
            &&& !asleep ==> {
                &&& press matches Press::Recall(preset) ==> asked == Some(
                    Intent::RecallPreset(preset),
                )
                &&& press matches Press::Mark(preset) ==> asked == Some(Intent::SavePreset(preset))
                &&& press is Home ==> asked == Some(Intent::Home)
                &&& press is ToggleAutoFocus ==> asked == Some(Intent::SetAutoFocus(!auto))
                &&& press matches Press::Nudge(direction) ==> asked == Some(
                    Intent::Nudge(Step::one(direction)),
                )
            }
        }),
{
}

/// What a run of presses asks for is what its parts ask for, one after another.
pub proof fn presses_are_done_in_order(
    state: Option<CameraState>,
    first: Seq<Press>,
    second: Seq<Press>,
)
    ensures
        press_intents(state, first + second) == press_intents(state, first) + press_intents(
            state,
            second,
        ),
        first.len() == 0 ==> press_intents(state, first).len() == 0,
        first.len() == 1 ==> press_intents(state, first) == match press_intent(state, first[0]) {
            Some(intent) => seq![intent],
            None => Seq::empty(),
        },
    decreases second.len(),
{
    if second.len() == 0 {
        assert(first + second =~= first);
        assert(press_intents(state, first) + press_intents(state, second) =~= press_intents(
            state,
            first,
        ));
    } else {
        presses_are_done_in_order(state, first, second.drop_last());
        assert((first + second).drop_last() =~= first + second.drop_last());
        assert(press_intents(state, first + second) =~= press_intents(state, first)
            + press_intents(state, second));
    }
    if first.len() == 1 {
        reveal_with_fuel(press_intents, 2);
        assert(first.drop_last() =~= Seq::empty());
        assert(press_intents(state, first) =~= match press_intent(state, first[0]) {
            Some(intent) => seq![intent],
            None => Seq::empty(),
        });
    }
}

/// One, if there is cause for it.
pub open spec fn counted(cause: bool) -> int {
    if cause {
        1
    } else {
        0
    }
}

/// What changed is sent and nothing else: the head's drive if it differs from
/// what the head was last told, then the zoom's, then the focus's, each as it
/// is asked for now.
pub proof fn what_changed_is_sent(app: App, drives: Drives)
    ensures
        ({
            let changes = drive_changes(app, drives);
            let head = drives.pan_tilt != app.pan_tilt;
            let zoom = drives.zoom != app.zoom;
            let focus = drives.focus != app.focus;
            &&& changes.len() == counted(head) + counted(zoom) + counted(focus)
            &&& head ==> changes[0] == Intent::DrivePanTilt(drives.pan_tilt)
            &&& zoom ==> changes[counted(head)] == Intent::DriveZoom(drives.zoom)
            &&& focus ==> changes[counted(head) + counted(zoom)] == Intent::DriveFocus(
                drives.focus,
            )
        }),
        with_drives(app, drives).pan_tilt == drives.pan_tilt,
        with_drives(app, drives).zoom == drives.zoom,
        with_drives(app, drives).focus == drives.focus,
{
}

/// On the way out every control that was left running is brought to rest, and
/// no other is told anything.
pub proof fn what_was_left_running_is_stopped(app: App)
    ensures
        ({
            let stops = drive_stops(app);
            let head = !(app.pan_tilt.direction is Stop);
            let zoom = app.zoom is Some;
            let focus = app.focus is Some;
            &&& stops.len() == counted(head) + counted(zoom) + counted(focus)
            &&& head ==> stops[0] is DrivePanTilt && stops[0]->DrivePanTilt_0.direction is Stop
            &&& zoom ==> stops[counted(head)] == Intent::DriveZoom(None)
            &&& focus ==> stops[counted(head) + counted(zoom)] == Intent::DriveFocus(None)
        }),
{
}

/// Each control is given to the first that asks for it: the pointer, then the
/// keys unless a text field has them or the camera won't take what they ask
/// for, then the controller.
pub proof fn the_pointer_comes_before_the_keys(state: Option<CameraState>, hands: Hands)
    ensures
        ({
            let drives = asked_drives(state, hands);
            let asleep = state is Some && !state->Some_0.power_on;
            let auto = state is Some && state->Some_0.lens is Some
                && state->Some_0.lens->Some_0.auto_focus;
            let keys = !hands.typing && !asleep;
            let pointed = !(hands.pointed.pan_tilt.direction is Stop);
            let typed = keys && !(hands.typed.pan_tilt.direction is Stop);
            &&& pointed ==> drives.pan_tilt == hands.pointed.pan_tilt
            &&& !pointed && typed ==> drives.pan_tilt == hands.typed.pan_tilt
            &&& !pointed && !typed ==> drives.pan_tilt == hands.held.pan_tilt
            &&& hands.pointed.zoom is Some ==> drives.zoom == hands.pointed.zoom
            &&& hands.pointed.zoom is None && keys && hands.typed.zoom is Some ==> drives.zoom
                == hands.typed.zoom
            &&& hands.pointed.zoom is None && !(keys && hands.typed.zoom is Some) ==> drives.zoom
                == hands.held.zoom
            &&& hands.pointed.focus is Some ==> drives.focus == hands.pointed.focus
            &&& hands.pointed.focus is None && keys && !auto && hands.typed.focus is Some
                ==> drives.focus == hands.typed.focus
            &&& hands.pointed.focus is None && !(keys && !auto && hands.typed.focus is Some)
                ==> drives.focus == hands.held.focus
        }),
{
}

proof fn among_either(first: Seq<Intent>, second: Seq<Intent>, intent: Intent)
    ensures
        (first + second).contains(intent) <==> first.contains(intent) || second.contains(intent),
{
    if first.contains(intent) {
        let place = choose|place: int| 0 <= place < first.len() && first[place] == intent;
        assert((first + second)[place] == intent);
    }
    if second.contains(intent) {
        let place = choose|place: int| 0 <= place < second.len() && second[place] == intent;
        assert((first + second)[first.len() + place] == intent);
    }
    if (first + second).contains(intent) {
        let place = choose|place: int|
            0 <= place < (first + second).len() && (first + second)[place] == intent;
        if place < first.len() {
            assert(first[place] == intent);
        } else {
            assert(second[place - first.len()] == intent);
        }
    }
}

proof fn among_one(cause: bool, intent: Intent, other: Intent)
    ensures
        if_so(cause, intent).contains(other) <==> cause && intent == other,
{
    if cause && intent == other {
        assert(if_so(cause, intent)[0] == other);
    }
}

proof fn among_steps(steps: Seq<Step>, intent: Intent)
    ensures
        step_intents(steps).contains(intent) <==> intent is Nudge && steps.contains(
            intent->Nudge_0,
        ),
{
    if step_intents(steps).contains(intent) {
        let place = choose|place: int|
            0 <= place < step_intents(steps).len() && step_intents(steps)[place] == intent;
        assert(steps[place] == intent->Nudge_0);
    }
    if intent is Nudge && steps.contains(intent->Nudge_0) {
        let place = choose|place: int| 0 <= place < steps.len() && steps[place] == intent->Nudge_0;
        assert(step_intents(steps)[place] == intent);
    }
}

/// One frame asks the camera for exactly what was asked of the window: the
/// steps of the arrows, the preset of a number key, the two switches, the
/// presses on the controller and the drives that changed. Nothing on account
/// of a key while a text field has the keyboard, and nothing of a sleeping
/// camera but a drive's end and its power.
pub proof fn a_frame_asks_for_what_was_asked(app: App, hands: Hands, intent: Intent)
    ensures
        ({
            let state = app.camera_state;
            let asleep = state is Some && !state->Some_0.power_on;
            let awake = state is Some && state->Some_0.power_on;
            let auto = state is Some && state->Some_0.lens is Some
                && state->Some_0.lens->Some_0.auto_focus;
            let keys = !hands.typing;
            asked(app, hands).contains(intent) <==> {
                ||| keys && !asleep && intent is Nudge && hands.steps@.contains(intent->Nudge_0)
                ||| drive_changes(app, asked_drives(state, hands)).contains(intent)
                ||| press_intents(state, hands.presses@).contains(intent)
                ||| keys && !asleep && hands.preset is Some && intent == Intent::RecallPreset(
                    hands.preset->Some_0,
                )
                ||| keys && !asleep && hands.focus_key && intent == Intent::SetAutoFocus(!auto)
                ||| keys && hands.power_key && intent == Intent::SetPower(!awake)
            }
        }),
{
    let state = app.camera_state;
    let asleep = is_asleep(state);
    let steps = if hands.typing || asleep {
        Seq::<Intent>::empty()
    } else {
        step_intents(hands.steps@)
    };
    let changes = drive_changes(app, asked_drives(state, hands));
    let presses = press_intents(state, hands.presses@);
    let preset = match hands.preset {
        Some(number) => if_so(!hands.typing && !asleep, Intent::RecallPreset(number)),
        None => Seq::<Intent>::empty(),
    };
    let focus_cause = !hands.typing && !asleep && hands.focus_key;
    let switch = Intent::SetAutoFocus(!focuses_itself(state));
    let power_cause = !hands.typing && hands.power_key;
    let power = Intent::SetPower(offered_power(state));
    assert(asked(app, hands) =~= steps + changes + presses + preset + if_so(focus_cause, switch)
        + if_so(power_cause, power));
    among_steps(hands.steps@, intent);
    among_either(steps, changes, intent);
    among_either(steps + changes, presses, intent);
    among_either(steps + changes + presses, preset, intent);
    among_either(steps + changes + presses + preset, if_so(focus_cause, switch), intent);
    among_either(
        steps + changes + presses + preset + if_so(focus_cause, switch),
        if_so(power_cause, power),
        intent,
    );
    if let Some(number) = hands.preset {
        among_one(!hands.typing && !asleep, Intent::RecallPreset(number), intent);
    }
    among_one(focus_cause, switch, intent);
    among_one(power_cause, power, intent);
}

/// One frame asks in one order: the steps first, as they were pressed, then the
/// drives, then the presses, and the keys last. Nothing is asked twice.
pub proof fn a_frame_asks_in_order(app: App, hands: Hands)
    ensures
        ({
            let state = app.camera_state;
            let asleep = state is Some && !state->Some_0.power_on;
            let keys = !hands.typing;
            let steps = if keys && !asleep {
                hands.steps@.len() as int
            } else {
                0int
            };
            let changes = drive_changes(app, asked_drives(state, hands));
            let presses = press_intents(state, hands.presses@);
            let all = asked(app, hands);
            let before = steps + changes.len() + presses.len();
            let recall = keys && !asleep && hands.preset is Some;
            let switch = keys && !asleep && hands.focus_key;
            let power = keys && hands.power_key;
            &&& all.len() == before + counted(recall) + counted(switch) + counted(power)
            &&& forall|place: int|
                0 <= place < steps ==> #[trigger] all[place] == Intent::Nudge(hands.steps@[place])
            &&& all.subrange(steps, steps + changes.len()) == changes
            &&& all.subrange(steps + changes.len(), before) == presses
            &&& recall ==> all[before] == Intent::RecallPreset(hands.preset->Some_0)
            &&& switch ==> all[before + counted(recall)] is SetAutoFocus
            &&& power ==> all[before + counted(recall) + counted(switch)] is SetPower
        }),
{
    let state = app.camera_state;
    let asleep = is_asleep(state);
    let changes = drive_changes(app, asked_drives(state, hands));
    let presses = press_intents(state, hands.presses@);
    let all = asked(app, hands);
    let steps = if hands.typing || asleep {
        0int
    } else {
        hands.steps@.len() as int
    };
    let before = steps + changes.len() + presses.len();
    assert(all.subrange(steps, steps + changes.len()) =~= changes);
    assert(all.subrange(steps + changes.len(), before) =~= presses);
}

/// The status line says the last thing under way that the picture doesn't show,
/// and is left as it was where there is none.
pub proof fn the_last_thing_under_way_is_said(
    before: Option<(Seq<char>, bool)>,
    intents: Seq<Intent>,
    intent: Intent,
)
    ensures
        said(before, Seq::empty()) == before,
        said(before, intents.push(intent)) == if intent is DrivePanTilt || intent is DriveZoom
            || intent is DriveFocus || intent is Nudge {
            said(before, intents)
        } else {
            Some((description(intent) + "..."@, false))
        },
{
    assert(intents.push(intent).drop_last() =~= intents);
}

/// Sending something arms the query that follows once things settle, says what
/// is under way, and changes nothing else of a window.
pub proof fn sending_changes_nothing_else(
    before: App,
    after: App,
    intents: Seq<Intent>,
    now: u64,
)
    requires
        sent(before, after, intents, now),
    ensures
        intents.len() > 0 && now <= LATEST ==> after.next_query_at == Some(
            (now + 300_000_000) as u64,
        ),
        intents.len() == 0 ==> after.next_query_at == before.next_query_at && after.status
            == before.status,
        shown(after.status) == said(shown(before.status), intents),
        after.port_input == before.port_input,
        after.connection == before.connection,
        after.camera_state == before.camera_state,
        after.preset_labels == before.preset_labels,
        after.preset_positions == before.preset_positions,
        after.marking_locked == before.marking_locked,
        after.titles == before.titles,
        after.shown_title == before.shown_title,
        after.titles_supported == before.titles_supported,
        after.camera == before.camera,
        after.config_unread == before.config_unread,
        after.pan_tilt == before.pan_tilt,
        after.zoom == before.zoom,
        after.focus == before.focus,
        after.gamepad == before.gamepad,
{
}

/// A status line shows its own text and whether it reports a failure.
pub proof fn a_status_line_shows_its_text(status: Status)
    ensures
        shown(Some(status)) == Some((status.text@, status.failed)),
        shown(None) is None,
{
}

/// Showing a title gives the camera the text of that very slot and then has it
/// shown; where there is no such slot, whatever is showing is hidden.
pub proof fn a_title_is_given_before_it_is_shown(
    titles: Map<u8, String>,
    number: u8,
    intents: Seq<Intent>,
)
    ensures
        titles.contains_key(number) && shows_title(titles, Some(number), intents) ==> {
            &&& intents.len() == 2
            &&& intents[0] is SetTitle
            &&& intents[0]->SetTitle_0.0@ == title_codes(titles[number]@)
            &&& intents[1] == Intent::ShowTitle(true)
        },
        !titles.contains_key(number) && shows_title(titles, Some(number), intents) ==> intents
            == seq![Intent::ShowTitle(false)],
        shows_title(titles, None, intents) ==> intents == seq![Intent::ShowTitle(false)],
{
}

/// A driving window is one with a control that isn't at rest.
pub proof fn a_window_drives_while_a_control_does(app: App)
    ensures
        app.is_driving() <==> !(app.pan_tilt.direction is Stop) || app.zoom is Some || app.focus
            is Some,
{
}

/// A window asks for its size until it has been fitted, and only when the size
/// is not the one it asked for last. It is shown with the first request, and
/// kept from shrinking once there are controls to see.
pub proof fn a_window_asks_for_its_size_once(
    fitted: bool,
    asked_before: bool,
    same_size: bool,
    connected: bool,
)
    ensures
        ({
            let requests = fitting(fitted, asked_before, same_size, connected);
            let asks = !fitted && !(asked_before && same_size);
            &&& !asks ==> requests.len() == 0
            &&& asks ==> {
                &&& requests.len() == 1 + counted(!asked_before) + counted(connected)
                &&& requests[0] is InnerSize
                &&& !asked_before ==> requests[1] is Show
                &&& connected ==> requests.last() is MinInnerSize
            }
        }),
{
}

/// A window's hints name what helps.
pub proof fn a_hint_names_what_helps()
    ensures
        AUTO_FOCUS_HINT@ == "Turn off Auto focus to focus by hand"@,
        STANDBY_HINT@ == "The camera is in standby \u{2014} switch it on first"@,
        LOCKED_HINT@ == "Turn on Marking, above, to store presets"@,
        NO_TITLES_HINT@ == "This camera has no title command"@,
{
}

} // verus!
