//! Continuous pan/tilt drive.
//!
//! Movement is a velocity that the camera holds until it is told otherwise,
//! rather than a series of hops: one command starts a sweep and one stops it,
//! and nothing is left queued behind either.

use vstd::prelude::*;

use crate::deflection::{axis_sign, axis_speed_or, within, Push};
use crate::error::Error;

verus! {

/// The slowest speed the drive command accepts on either axis. There is no
/// zero: stopping is a direction.
pub const MIN_SPEED: u8 = 1;

/// The fastest pan speed the drive command accepts.
pub const MAX_PAN_SPEED: u8 = 24;

/// The fastest tilt speed the drive command accepts.
pub const MAX_TILT_SPEED: u8 = 20;

/// The fastest pan a control asks for: half of what the camera can do, above
/// which a shot can no longer be pointed by hand.
pub const TOP_PAN_SPEED: u8 = MAX_PAN_SPEED / 2;

/// The fastest tilt a control asks for.
pub const TOP_TILT_SPEED: u8 = MAX_TILT_SPEED / 2;

/// Which way the head is driven.
#[derive(Debug, Clone, Copy, PartialEq, Eq, Structural)]
pub enum PanTiltDirection {
    /// Tilt up.
    Up,
    /// Tilt down.
    Down,
    /// Pan left.
    Left,
    /// Pan right.
    Right,
    /// Pan left while tilting up.
    UpLeft,
    /// Pan right while tilting up.
    UpRight,
    /// Pan left while tilting down.
    DownLeft,
    /// Pan right while tilting down.
    DownRight,
    /// Neither axis moves.
    Stop,
}

impl PanTiltDirection {
    /// Which way this pans, as a sign: right is positive.
    pub open spec fn pan_sign(self) -> int {
        match self {
            PanTiltDirection::Right | PanTiltDirection::UpRight | PanTiltDirection::DownRight => 1,
            PanTiltDirection::Left | PanTiltDirection::UpLeft | PanTiltDirection::DownLeft => -1,
            _ => 0,
        }
    }

    /// Which way this tilts, as a sign: up is positive.
    pub open spec fn tilt_sign(self) -> int {
        match self {
            PanTiltDirection::Up | PanTiltDirection::UpLeft | PanTiltDirection::UpRight => 1,
            PanTiltDirection::Down | PanTiltDirection::DownLeft | PanTiltDirection::DownRight => -1,
            _ => 0,
        }
    }
}

/// The sign of a number.
pub open spec fn sign(value: int) -> int {
    if value > 0 {
        1
    } else if value < 0 {
        -1
    } else {
        0
    }
}

/// The direction that pans and tilts the ways these two amounts point.
pub open spec fn direction_of(pan: int, tilt: int) -> PanTiltDirection {
    if pan > 0 {
        if tilt > 0 {
            PanTiltDirection::UpRight
        } else if tilt < 0 {
            PanTiltDirection::DownRight
        } else {
            PanTiltDirection::Right
        }
    } else if pan < 0 {
        if tilt > 0 {
            PanTiltDirection::UpLeft
        } else if tilt < 0 {
            PanTiltDirection::DownLeft
        } else {
            PanTiltDirection::Left
        }
    } else {
        if tilt > 0 {
            PanTiltDirection::Up
        } else if tilt < 0 {
            PanTiltDirection::Down
        } else {
            PanTiltDirection::Stop
        }
    }
}

/// A direction is the one that its own two signs name, and the direction named
/// by two amounts points along both of them.
pub proof fn a_direction_is_its_two_signs(direction: PanTiltDirection, pan: int, tilt: int)
    ensures
        direction_of(direction.pan_sign(), direction.tilt_sign()) == direction,
        direction_of(pan, tilt).pan_sign() == sign(pan),
        direction_of(pan, tilt).tilt_sign() == sign(tilt),
{
}

/// The direction that pans and tilts the ways these two amounts point.
pub fn direction_towards(pan: i32, tilt: i32) -> (direction: PanTiltDirection)
    ensures
        direction == direction_of(pan as int, tilt as int),
{
    if pan > 0 {
        if tilt > 0 {
            PanTiltDirection::UpRight
        } else if tilt < 0 {
            PanTiltDirection::DownRight
        } else {
            PanTiltDirection::Right
        }
    } else if pan < 0 {
        if tilt > 0 {
            PanTiltDirection::UpLeft
        } else if tilt < 0 {
            PanTiltDirection::DownLeft
        } else {
            PanTiltDirection::Left
        }
    } else {
        if tilt > 0 {
            PanTiltDirection::Up
        } else if tilt < 0 {
            PanTiltDirection::Down
        } else {
            PanTiltDirection::Stop
        }
    }
}

/// A continuous drive: which way, and how fast along each axis.
///
/// Both speeds go on the wire whichever axes move, so an axis that rests
/// still carries one for the camera to ignore.
#[derive(Debug, Clone, Copy, PartialEq, Eq, Structural)]
pub struct Velocity {
    /// Which way to drive, or [`PanTiltDirection::Stop`] to stop.
    pub direction: PanTiltDirection,
    /// How fast to pan, from 1 to [`MAX_PAN_SPEED`].
    pub pan_speed: u8,
    /// How fast to tilt, from 1 to [`MAX_TILT_SPEED`].
    pub tilt_speed: u8,
}

/// The nearest number to `value` from `least` to `most`.
pub open spec fn clamped(value: int, least: int, most: int) -> int {
    if value < least {
        least
    } else if value > most {
        most
    } else {
        value
    }
}

/// A number without its sign.
pub open spec fn magnitude(value: int) -> int {
    if value < 0 {
        -value
    } else {
        value
    }
}

fn speed_of(amount: i32, most: u8) -> (speed: u8)
    requires
        1 <= most,
    ensures
        speed == clamped(magnitude(amount as int), 1, most as int),
{
    let size: i64 = if amount < 0 {
        0 - amount as i64
    } else {
        amount as i64
    };
    if size < 1 {
        1
    } else if size > most as i64 {
        most
    } else {
        size as u8
    }
}

impl Velocity {
    /// Not moving.
    pub open spec fn stopped() -> Velocity {
        Velocity { direction: PanTiltDirection::Stop, pan_speed: MIN_SPEED, tilt_speed: MIN_SPEED }
    }

    /// Stop moving.
    #[verifier::when_used_as_spec(stopped)]
    pub fn stop() -> (velocity: Velocity)
        ensures
            velocity == Velocity::stopped(),
    {
        Velocity { direction: PanTiltDirection::Stop, pan_speed: MIN_SPEED, tilt_speed: MIN_SPEED }
    }

    /// Whether both speeds are ones that a control asks for.
    pub open spec fn steerable(self) -> bool {
        &&& MIN_SPEED <= self.pan_speed <= TOP_PAN_SPEED
        &&& MIN_SPEED <= self.tilt_speed <= TOP_TILT_SPEED
    }

    /// Whether this velocity ends movement rather than starting it.
    pub open spec fn stops(self) -> bool {
        self.direction == PanTiltDirection::Stop
    }

    /// Whether this velocity ends movement rather than starting it.
    #[verifier::when_used_as_spec(stops)]
    pub fn is_stop(self) -> (stop: bool)
        ensures
            stop == self.stops(),
    {
        self.direction == PanTiltDirection::Stop
    }

    /// The velocity that drives each axis at a signed speed, positive being
    /// right and up. A speed past the camera's fastest is held to it, and an
    /// axis at zero rests.
    pub fn from_signed(pan: i32, tilt: i32) -> (velocity: Velocity)
        ensures
            velocity.direction == direction_of(pan as int, tilt as int),
            velocity.pan_speed == clamped(magnitude(pan as int), 1, MAX_PAN_SPEED as int),
            velocity.tilt_speed == clamped(magnitude(tilt as int), 1, MAX_TILT_SPEED as int),
    {
        Velocity {
            direction: direction_towards(pan, tilt),
            pan_speed: speed_of(pan, MAX_PAN_SPEED),
            tilt_speed: speed_of(tilt, MAX_TILT_SPEED),
        }
    }
}

fn axis(push: Option<Push>) -> (way: i32)
    ensures
        way == axis_sign(push),
{
    match push {
        Some(push) => if push.positive {
            1
        } else {
            -1
        },
        None => 0,
    }
}

fn speed_or_slowest(push: Option<Push>) -> (speed: u8)
    ensures
        speed == axis_speed_or(push, MIN_SPEED),
{
    match push {
        Some(push) => push.speed,
        None => MIN_SPEED,
    }
}

/// The velocity that a control pushed along these two axes asks for, positive
/// being right and up.
///
/// The axes scale independently, so a control pushed hard right and a little
/// up pans fast while tilting slowly. One that rests on both stops.
pub fn velocity_from_axes(pan: Option<Push>, tilt: Option<Push>) -> (velocity: Velocity)
    ensures
        velocity == axes_velocity(pan, tilt),
        within(pan, MIN_SPEED, TOP_PAN_SPEED) && within(tilt, MIN_SPEED, TOP_TILT_SPEED)
            ==> velocity.steerable(),
{
    Velocity {
        direction: direction_towards(axis(pan), axis(tilt)),
        pan_speed: speed_or_slowest(pan),
        tilt_speed: speed_or_slowest(tilt),
    }
}

/// The velocity that two pushes ask for: the way both of them point, at each
/// one's own speed.
pub open spec fn axes_velocity(pan: Option<Push>, tilt: Option<Push>) -> Velocity {
    Velocity {
        direction: direction_of(axis_sign(pan), axis_sign(tilt)),
        pan_speed: axis_speed_or(pan, MIN_SPEED),
        tilt_speed: axis_speed_or(tilt, MIN_SPEED),
    }
}

/// A control drives exactly when it is pushed along some axis, and a resting
/// one asks for the stop itself.
pub proof fn only_a_resting_control_stops(pan: Option<Push>, tilt: Option<Push>)
    ensures
        axes_velocity(pan, tilt).stops() <==> pan is None && tilt is None,
        axes_velocity(None, None) == Velocity::stopped(),
{
}

/// Each axis goes the way and at the speed that its own push asks for, whatever
/// the other one does, and neither ever faster than a shot can be pointed by
/// hand. A full push gives all of that.
pub proof fn each_axis_follows_its_own_push(pan: Option<Push>, tilt: Option<Push>)
    requires
        within(pan, MIN_SPEED, TOP_PAN_SPEED),
        within(tilt, MIN_SPEED, TOP_TILT_SPEED),
    ensures
        axes_velocity(pan, tilt).steerable(),
        axes_velocity(pan, tilt).direction.pan_sign() == axis_sign(pan),
        axes_velocity(pan, tilt).direction.tilt_sign() == axis_sign(tilt),
        pan matches Some(push) ==> axes_velocity(pan, tilt).pan_speed == push.speed,
        tilt matches Some(push) ==> axes_velocity(pan, tilt).tilt_speed == push.speed,
        axes_velocity(pan, tilt).pan_speed == axes_velocity(pan, None).pan_speed,
        axes_velocity(pan, tilt).tilt_speed == axes_velocity(None, tilt).tilt_speed,
{
}

/// Whether `error` says that `value` is outside `min..max` for `parameter`.
pub open spec fn refuses(error: Error, parameter: Seq<char>, value: int, min: int, max: int) -> bool {
    match error {
        Error::ParameterOutOfRange { parameter: named, value: given, min: least, max: most } => {
            named@ == parameter && given == value && least == min && most == max
        },
        _ => false,
    }
}

/// Calls `grafton_visca::types::PanSpeed::new`, which accepts a speed up to
/// 0x18 as it is and refuses any other by name.
#[verifier::external_body]
pub(crate) fn pan_speed(speed: u8) -> (accepted: Result<u8, Error>)
    ensures
        speed <= 24 ==> accepted is Ok && accepted->Ok_0 == speed,
        speed > 24 ==> accepted is Err && refuses(
            accepted->Err_0,
            "PanSpeed"@,
            speed as int,
            0,
            24,
        ),
{
    match grafton_visca::types::PanSpeed::new(speed) {
        Ok(accepted) => Ok(accepted.value()),
        Err(grafton_visca::Error::ParameterOutOfRange { parameter, value, min, max }) => {
            Err(Error::ParameterOutOfRange { parameter, value, min, max })
        }
        Err(other) => Err(Error::Other(other.to_string())),
    }
}

/// Calls `grafton_visca::types::TiltSpeed::new`, which accepts a speed up to
/// 0x14 as it is and refuses any other by name.
#[verifier::external_body]
pub(crate) fn tilt_speed(speed: u8) -> (accepted: Result<u8, Error>)
    ensures
        speed <= 20 ==> accepted is Ok && accepted->Ok_0 == speed,
        speed > 20 ==> accepted is Err && refuses(
            accepted->Err_0,
            "TiltSpeed"@,
            speed as int,
            0,
            20,
        ),
{
    match grafton_visca::types::TiltSpeed::new(speed) {
        Ok(accepted) => Ok(accepted.value()),
        Err(grafton_visca::Error::ParameterOutOfRange { parameter, value, min, max }) => {
            Err(Error::ParameterOutOfRange { parameter, value, min, max })
        }
        Err(other) => Err(Error::Other(other.to_string())),
    }
}

/// Checks a pair of speeds the way the camera's commands take them, pan first.
pub fn accepted_speeds(pan: u8, tilt: u8) -> (speeds: Result<(u8, u8), Error>)
    ensures
        pan <= MAX_PAN_SPEED && tilt <= MAX_TILT_SPEED ==> speeds == Ok::<(u8, u8), Error>(
            (pan, tilt),
        ),
        pan > MAX_PAN_SPEED ==> speeds is Err && refuses(
            speeds->Err_0,
            "PanSpeed"@,
            pan as int,
            0,
            MAX_PAN_SPEED as int,
        ),
        pan <= MAX_PAN_SPEED && tilt > MAX_TILT_SPEED ==> speeds is Err && refuses(
            speeds->Err_0,
            "TiltSpeed"@,
            tilt as int,
            0,
            MAX_TILT_SPEED as int,
        ),
{
    match pan_speed(pan) {
        Ok(pan) => match tilt_speed(tilt) {
            Ok(tilt) => Ok((pan, tilt)),
            Err(error) => Err(error),
        },
        Err(error) => Err(error),
    }
}

/// Checks a velocity on its way to the camera's drive command, which takes its
/// direction and both of its speeds.
///
/// A stop goes out as a drive in the `Stop` direction: it is the same command.
pub fn drive(velocity: Velocity) -> (sent: Result<Velocity, Error>)
    ensures
        velocity.pan_speed <= MAX_PAN_SPEED && velocity.tilt_speed <= MAX_TILT_SPEED ==> sent
            == Ok::<Velocity, Error>(velocity),
        velocity.pan_speed > MAX_PAN_SPEED ==> sent is Err && refuses(
            sent->Err_0,
            "PanSpeed"@,
            velocity.pan_speed as int,
            0,
            MAX_PAN_SPEED as int,
        ),
        velocity.pan_speed <= MAX_PAN_SPEED && velocity.tilt_speed > MAX_TILT_SPEED ==> sent is Err
            && refuses(sent->Err_0, "TiltSpeed"@, velocity.tilt_speed as int, 0, MAX_TILT_SPEED as int),
{
    match accepted_speeds(velocity.pan_speed, velocity.tilt_speed) {
        Ok((pan_speed, tilt_speed)) => Ok(
            Velocity { direction: velocity.direction, pan_speed, tilt_speed },
        ),
        Err(error) => Err(error),
    }
}

/// A direction pans right exactly when its name says so, and so on for the
/// other three ways. The stop goes no way at all.
pub proof fn a_direction_goes_the_way_it_is_named(direction: PanTiltDirection)
    ensures
        direction.pan_sign() == 1 <==> direction is Right || direction is UpRight
            || direction is DownRight,
        direction.pan_sign() == -1 <==> direction is Left || direction is UpLeft
            || direction is DownLeft,
        direction.tilt_sign() == 1 <==> direction is Up || direction is UpLeft
            || direction is UpRight,
        direction.tilt_sign() == -1 <==> direction is Down || direction is DownLeft
            || direction is DownRight,
        direction.pan_sign() == 0 && direction.tilt_sign() == 0 <==> direction is Stop,
        -1 <= direction.pan_sign() <= 1,
        -1 <= direction.tilt_sign() <= 1,
{
}

/// The velocity that stops the head goes no way, at speeds that the camera
/// takes, and a velocity stops the head exactly when it goes no way.
pub proof fn a_stop_goes_no_way(velocity: Velocity)
    ensures
        Velocity::stopped().direction is Stop,
        Velocity::stopped().pan_speed == 1,
        Velocity::stopped().tilt_speed == 1,
        velocity.stops() <==> velocity.direction is Stop,
{
}

/// A push that rests drives its axis no way and at the slowest speed, and one
/// that doesn't drives it its own way at its own speed, whichever way the other
/// axis goes.
pub proof fn an_axis_goes_the_way_it_is_pushed(pan: Option<Push>, tilt: Option<Push>)
    ensures
        ({
            let velocity = axes_velocity(pan, tilt);
            let direction = velocity.direction;
            let right = direction is Right || direction is UpRight || direction is DownRight;
            let left = direction is Left || direction is UpLeft || direction is DownLeft;
            let up = direction is Up || direction is UpLeft || direction is UpRight;
            let down = direction is Down || direction is DownLeft || direction is DownRight;
            &&& right <==> pan is Some && pan->Some_0.positive
            &&& left <==> pan is Some && !pan->Some_0.positive
            &&& up <==> tilt is Some && tilt->Some_0.positive
            &&& down <==> tilt is Some && !tilt->Some_0.positive
            &&& pan matches Some(push) ==> velocity.pan_speed == push.speed
            &&& tilt matches Some(push) ==> velocity.tilt_speed == push.speed
            &&& pan is None ==> velocity.pan_speed == 1
            &&& tilt is None ==> velocity.tilt_speed == 1
        }),
{
}

/// A number held to a range is in it, and is the number itself when that is in
/// it already; one below or above the range comes out at the nearer end.
pub proof fn a_number_is_held_to_its_range(value: int, least: int, most: int)
    requires
        least <= most,
    ensures
        least <= clamped(value, least, most) <= most,
        least <= value <= most ==> clamped(value, least, most) == value,
        value < least ==> clamped(value, least, most) == least,
        value > most ==> clamped(value, least, most) == most,
        magnitude(value) >= 0,
        magnitude(value) == value || magnitude(value) == -value,
        sign(value) == 1 <==> value > 0,
        sign(value) == -1 <==> value < 0,
        sign(value) == 0 <==> value == 0,
{
}

/// What a control asks for is at most half of what the camera's drive takes,
/// and at least the slowest that it takes.
pub proof fn a_control_asks_for_half_at_most()
    ensures
        MIN_SPEED == 1,
        MAX_PAN_SPEED == 24,
        MAX_TILT_SPEED == 20,
        2 * TOP_PAN_SPEED == MAX_PAN_SPEED,
        2 * TOP_TILT_SPEED == MAX_TILT_SPEED,
{
}

/// A refusal names the number it is about, the number given and the range that
/// it is outside of.
pub proof fn a_refusal_says_what_was_wrong(
    error: Error,
    parameter: Seq<char>,
    value: int,
    min: int,
    max: int,
)
    ensures
        refuses(error, parameter, value, min, max) <==> {
            &&& error is ParameterOutOfRange
            &&& error->parameter@ == parameter
            &&& error->value == value
            &&& error->min == min
            &&& error->max == max
        },
{
}

} // verus!
