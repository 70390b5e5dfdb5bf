//! What the camera says about itself: its power, and where its lens is.

use vstd::prelude::*;
use vstd::string::*;

use crate::error::Error;
use crate::text::{ends_with, hex, push_hex, push_signed, signed, starts_with};

verus! {

/// A snapshot of what the camera says about itself.
#[derive(Debug, Clone, Copy, PartialEq, Eq, Structural)]
pub struct CameraState {
    /// Whether the camera is awake.
    pub power_on: bool,
    /// Where the camera is pointing, zoomed and focused, or `None` when it has
    /// nothing to say about that: in standby, and for seconds after being
    /// woken.
    pub lens: Option<Lens>,
}

/// Where the camera is pointing, zoomed and focused.
#[derive(Debug, Clone, Copy, PartialEq, Eq, Structural)]
pub struct Lens {
    /// Where the lens is aimed.
    pub position: Position,
    /// Whether the camera is focusing automatically, in which case a manual
    /// focus drive won't hold.
    pub auto_focus: bool,
}

/// Everything it takes to reproduce a shot, in the camera's own units.
#[derive(Debug, Clone, Copy, PartialEq, Eq, Structural)]
pub struct Position {
    /// Pan, in raw camera units.
    pub pan: i16,
    /// Tilt, in raw camera units.
    pub tilt: i16,
    /// Zoom, in raw camera units.
    pub zoom: u16,
    /// Focus, in raw camera units.
    pub focus: u16,
}

impl Default for Position {
    fn default() -> (position: Position)
        ensures
            position == (Position { pan: 0, tilt: 0, zoom: 0, focus: 0 }),
    {
        Position { pan: 0, tilt: 0, zoom: 0, focus: 0 }
    }
}

/// Asks where the camera is aimed, one question after another. The first one
/// that goes unanswered ends the asking.
pub fn query_position<P, Z, F>(pan_tilt: P, zoom: Z, focus: F) -> (position: Result<Position, Error>)
    where
        P: FnOnce() -> Result<(i16, i16), Error>,
        Z: FnOnce() -> Result<u16, Error>,
        F: FnOnce() -> Result<u16, Error>,

    requires
        call_requires(pan_tilt, ()),
        forall|aim: (i16, i16)| #[trigger]
            call_ensures(pan_tilt, (), Ok::<(i16, i16), Error>(aim)) ==> call_requires(zoom, ()),
        forall|reach: u16| #[trigger]
            call_ensures(zoom, (), Ok::<u16, Error>(reach)) ==> call_requires(focus, ()),
    ensures
        match position {
            Ok(position) => {
                &&& call_ensures(
                    pan_tilt,
                    (),
                    Ok::<(i16, i16), Error>((position.pan, position.tilt)),
                )
                &&& call_ensures(zoom, (), Ok::<u16, Error>(position.zoom))
                &&& call_ensures(focus, (), Ok::<u16, Error>(position.focus))
            },
            Err(error) => {
                ||| call_ensures(pan_tilt, (), Err::<(i16, i16), Error>(error))
                ||| exists|aim: (i16, i16)|
                    {
                        &&& #[trigger] call_ensures(pan_tilt, (), Ok::<(i16, i16), Error>(aim))
                        &&& {
                            ||| call_ensures(zoom, (), Err::<u16, Error>(error))
                            ||| exists|reach: u16|
                                {
                                    &&& #[trigger] call_ensures(zoom, (), Ok::<u16, Error>(reach))
                                    &&& call_ensures(focus, (), Err::<u16, Error>(error))
                                }
                        }
                    }
            },
        },
{
    let (pan, tilt) = match pan_tilt() {
        Ok(aim) => aim,
        Err(error) => return Err(error),
    };
    let zoom = match zoom() {
        Ok(zoom) => zoom,
        Err(error) => return Err(error),
    };
    let focus = match focus() {
        Ok(focus) => focus,
        Err(error) => return Err(error),
    };
    Ok(Position { pan, tilt, zoom, focus })
}

/// Asks where the camera is aimed and then how it is focusing.
pub fn query_lens<P, F>(position: P, auto_focus: F) -> (lens: Result<Lens, Error>)
    where
        P: FnOnce() -> Result<Position, Error>,
        F: FnOnce() -> Result<bool, Error>,

    requires
        call_requires(position, ()),
        forall|found: Position| #[trigger]
            call_ensures(position, (), Ok::<Position, Error>(found)) ==> call_requires(
                auto_focus,
                (),
            ),
    ensures
        match lens {
            Ok(lens) => {
                &&& call_ensures(position, (), Ok::<Position, Error>(lens.position))
                &&& call_ensures(auto_focus, (), Ok::<bool, Error>(lens.auto_focus))
            },
            Err(error) => {
                ||| call_ensures(position, (), Err::<Position, Error>(error))
                ||| exists|found: Position|
                    {
                        &&& #[trigger] call_ensures(position, (), Ok::<Position, Error>(found))
                        &&& call_ensures(auto_focus, (), Err::<bool, Error>(error))
                    }
            },
        },
{
    let position = match position() {
        Ok(position) => position,
        Err(error) => return Err(error),
    };
    match auto_focus() {
        Ok(auto_focus) => Ok(Lens { position, auto_focus }),
        Err(error) => Err(error),
    }
}

/// Asks the camera for its state: its power first, and its lens only once it
/// says that it is awake. A sleeping camera has parked its lens and would
/// refuse every question about it.
///
/// Power stands on its own: what the camera says about it is never thrown
/// away because some other question failed, and a lens that won't answer is
/// only a lens that won't answer.
pub fn query_state<P, L>(power: P, lens: L) -> (state: Result<CameraState, Error>)
    where
        P: FnOnce() -> Result<bool, Error>,
        L: FnOnce() -> Result<Lens, Error>,

    requires
        call_requires(power, ()),
        call_ensures(power, (), Ok::<bool, Error>(true)) ==> call_requires(lens, ()),
    ensures
        match state {
            Ok(state) => {
                &&& call_ensures(power, (), Ok::<bool, Error>(state.power_on))
                &&& !state.power_on ==> state.lens is None
                &&& state.power_on ==> match state.lens {
                    Some(reported) => call_ensures(lens, (), Ok::<Lens, Error>(reported)),
                    None => exists|error: Error|
                        #[trigger] call_ensures(lens, (), Err::<Lens, Error>(error)),
                }
            },
            Err(error) => call_ensures(power, (), Err::<bool, Error>(error)),
        },
{
    let power_on = match power() {
        Ok(power_on) => power_on,
        Err(error) => return Err(error),
    };
    let reported = if power_on {
        match lens() {
            Ok(reported) => Some(reported),
            Err(error) => {
                assert(call_ensures(lens, (), Err::<Lens, Error>(error)));
                None
            },
        }
    } else {
        None
    };
    Ok(CameraState { power_on, lens: reported })
}

/// What a position looks like in words.
pub open spec fn position_text(position: Position) -> Seq<char> {
    "pan="@ + signed(position.pan as int) + " tilt="@ + signed(position.tilt as int) + " zoom=0x"@
        + hex(position.zoom as nat, 4) + " focus=0x"@ + hex(position.focus as nat, 4)
}

/// Formats where the camera is pointing, zoomed and focused.
pub fn format_position(position: &Position) -> (text: String)
    ensures
        text@ == position_text(*position),
{
    let mut text = "pan=".to_owned();
    push_signed(&mut text, position.pan as i64);
    text.append(" tilt=");
    push_signed(&mut text, position.tilt as i64);
    text.append(" zoom=0x");
    push_hex(&mut text, position.zoom as u32, 4);
    text.append(" focus=0x");
    push_hex(&mut text, position.focus as u32, 4);
    text
}

/// What a snapshot looks like in words.
pub open spec fn state_text(state: CameraState) -> Seq<char> {
    "power="@ + (if state.power_on {
        "on"@
    } else {
        "off"@
    }) + match state.lens {
        Some(lens) => " "@ + position_text(lens.position) + " ("@ + (if lens.auto_focus {
            "auto"@
        } else {
            "manual"@
        }) + ")"@,
        None => " (lens not reporting)"@,
    }
}

/// Formats a snapshot in full, for a display with nowhere else to put the
/// power and the focus mode.
pub fn format_state(state: &CameraState) -> (text: String)
    ensures
        text@ == state_text(*state),
{
    let mut text = "power=".to_owned();
    text.append(
        if state.power_on {
            "on"
        } else {
            "off"
        },
    );
    match &state.lens {
        Some(lens) => {
            text.append(" ");
            text.append(format_position(&lens.position).as_str());
            text.append(" (");
            text.append(
                if lens.auto_focus {
                    "auto"
                } else {
                    "manual"
                },
            );
            text.append(")");
        },
        None => {
            text.append(" (lens not reporting)");
        },
    }
    proof {
        assert(text@ =~= state_text(*state));
    }
    text
}

/// A position is told in the order pan, tilt, zoom and focus: the aim as signed
/// numbers, and the lens as four hexadecimal digits each.
pub proof fn a_position_is_told_in_order(position: Position)
    ensures
        starts_with(
            position_text(position),
            "pan="@ + signed(position.pan as int) + " tilt="@ + signed(position.tilt as int)
                + " zoom=0x"@,
        ),
        ends_with(
            position_text(position),
            " zoom=0x"@ + hex(position.zoom as nat, 4) + " focus=0x"@ + hex(
                position.focus as nat,
                4,
            ),
        ),
{
    let text = position_text(position);
    let start = "pan="@ + signed(position.pan as int) + " tilt="@ + signed(position.tilt as int)
        + " zoom=0x"@;
    let end = " zoom=0x"@ + hex(position.zoom as nat, 4) + " focus=0x"@ + hex(
        position.focus as nat,
        4,
    );
    assert(text.take(start.len() as int) =~= start);
    assert(text.skip(text.len() - end.len()) =~= end);
}

/// A snapshot is told with its power first, and then either its position and
/// how it focuses, or that its lens isn't reporting.
pub proof fn a_snapshot_is_told_in_full(state: CameraState)
    ensures
        state.power_on ==> starts_with(state_text(state), "power=on"@),
        !state.power_on ==> starts_with(state_text(state), "power=off"@),
        state.lens is None ==> ends_with(state_text(state), " (lens not reporting)"@),
        state.lens matches Some(lens) ==> {
            &&& lens.auto_focus ==> ends_with(
                state_text(state),
                " "@ + position_text(lens.position) + " (auto)"@,
            )
            &&& !lens.auto_focus ==> ends_with(
                state_text(state),
                " "@ + position_text(lens.position) + " (manual)"@,
            )
        },
{
    let text = state_text(state);
    reveal_strlit("power=");
    reveal_strlit("on");
    reveal_strlit("off");
    reveal_strlit("power=on");
    reveal_strlit("power=off");
    reveal_strlit(" (");
    reveal_strlit(")");
    reveal_strlit("auto");
    reveal_strlit("manual");
    reveal_strlit(" (auto)");
    reveal_strlit(" (manual)");
    if state.power_on {
        assert(text.take(8) =~= "power=on"@);
    } else {
        assert(text.take(9) =~= "power=off"@);
    }
    match state.lens {
        None => {
            let end = " (lens not reporting)"@;
            assert(text.skip(text.len() - end.len()) =~= end);
        },
        Some(lens) => {
            let front = " "@ + position_text(lens.position);
            if lens.auto_focus {
                assert(" ("@ + "auto"@ + ")"@ =~= " (auto)"@);
                let end = front + " (auto)"@;
                assert(text.skip(text.len() - end.len()) =~= end);
            } else {
                assert(" ("@ + "manual"@ + ")"@ =~= " (manual)"@);
                let end = front + " (manual)"@;
                assert(text.skip(text.len() - end.len()) =~= end);
            }
        },
    }
}

} // verus!
