//! Single steps of the pan/tilt head, for aim that a held control can't give.
//!
//! A step is a distance rather than a speed: the camera moves exactly that
//! far from wherever it is and stops there by itself, so ten taps are exactly
//! ten steps.

use vstd::prelude::*;
use vstd::std_specs::ops::AddSpec;

use crate::error::Error;
use crate::pan_tilt::{self, direction_of, direction_towards, sign, PanTiltDirection};

verus! {

/// How far one tap moves an axis, in the camera's own position units. There is
/// no half unit to ask for.
pub const STEP_UNITS: i16 = 1;

/// How fast a step travels: the slowest the camera accepts, since the distance
/// is already decided and speed only makes the move more visible.
pub const STEP_SPEED: u8 = 1;

/// How far to move, in the camera's own position units, as an offset from
/// wherever it is pointing now.
///
/// Two steps add up into one.
#[derive(Debug, Clone, Copy, PartialEq, Eq, Structural)]
pub struct Step {
    /// How far to the right.
    pub pan: i16,
    /// How far up.
    pub tilt: i16,
}

/// The sum of two distances along one axis, held to what the axis can express.
pub open spec fn saturated(sum: int) -> i16 {
    if sum > i16::MAX {
        i16::MAX
    } else if sum < i16::MIN {
        i16::MIN
    } else {
        sum as i16
    }
}

fn saturating_sum(first: i16, second: i16) -> (sum: i16)
    ensures
        sum == saturated(first + second),
{
    let sum: i32 = first as i32 + second as i32;
    if sum > i16::MAX as i32 {
        i16::MAX
    } else if sum < i16::MIN as i32 {
        i16::MIN
    } else {
        sum as i16
    }
}

impl std::ops::Add<Step> for Step {
    type Output = Step;

    fn add(self, other: Step) -> (sum: Step) {
        Step {
            pan: saturating_sum(self.pan, other.pan),
            tilt: saturating_sum(self.tilt, other.tilt),
        }
    }
}

impl vstd::std_specs::ops::AddSpecImpl<Step> for Step {
    open spec fn obeys_add_spec() -> bool {
        true
    }

    open spec fn add_req(self, other: Step) -> bool {
        true
    }

    open spec fn add_spec(self, other: Step) -> Step {
        Step { pan: saturated(self.pan + other.pan), tilt: saturated(self.tilt + other.tilt) }
    }
}

impl Default for Step {
    /// Going nowhere.
    fn default() -> (step: Step)
        ensures
            step == Step::at_rest(),
    {
        Step::still()
    }
}

impl Step {
    /// Going nowhere.
    pub open spec fn at_rest() -> Step {
        Step { pan: 0, tilt: 0 }
    }

    /// Going nowhere: what a run of taps that cancelled each other out comes
    /// to, and what an empty sum starts from.
    #[verifier::when_used_as_spec(at_rest)]
    pub fn still() -> (step: Step)
        ensures
            step == Step::at_rest(),
    {
        Step { pan: 0, tilt: 0 }
    }

    /// One step in `direction`: a full step on each axis the direction moves.
    pub open spec fn one(direction: PanTiltDirection) -> Step {
        Step {
            pan: (direction.pan_sign() * STEP_UNITS) as i16,
            tilt: (direction.tilt_sign() * STEP_UNITS) as i16,
        }
    }

    /// One step in `direction`.
    ///
    /// Diagonals move both axes by a full step: a step is the smallest thing
    /// the camera can do, so there is nothing smaller to scale down to.
    #[verifier::when_used_as_spec(one)]
    pub fn towards(direction: PanTiltDirection) -> (step: Step)
        ensures
            step == Step::one(direction),
    {
        let pan: i16 = match direction {
            PanTiltDirection::Right | PanTiltDirection::UpRight | PanTiltDirection::DownRight => {
                STEP_UNITS
            },
            PanTiltDirection::Left | PanTiltDirection::UpLeft | PanTiltDirection::DownLeft => {
                -STEP_UNITS
            },
            _ => 0,
        };
        let tilt: i16 = match direction {
            PanTiltDirection::Up | PanTiltDirection::UpLeft | PanTiltDirection::UpRight => {
                STEP_UNITS
            },
            PanTiltDirection::Down | PanTiltDirection::DownLeft | PanTiltDirection::DownRight => {
                -STEP_UNITS
            },
            _ => 0,
        };
        Step { pan, tilt }
    }

    /// Whether this step goes nowhere and so is not worth a command.
    pub fn is_still(self) -> (still: bool)
        ensures
            still == (self == Step::at_rest()),
    {
        self.pan == 0 && self.tilt == 0
    }

    /// Which way this step goes.
    pub open spec fn way(self) -> PanTiltDirection {
        direction_of(self.pan as int, self.tilt as int)
    }

    /// Which way this step goes, for saying so in words.
    #[verifier::when_used_as_spec(way)]
    pub fn direction(self) -> (direction: PanTiltDirection)
        ensures
            direction == self.way(),
    {
        direction_towards(self.pan as i32, self.tilt as i32)
    }
}

/// A step goes the way it was asked to go, and is still exactly when it was
/// asked to go nowhere.
pub proof fn a_step_goes_the_way_it_was_asked(direction: PanTiltDirection)
    ensures
        Step::towards(direction).direction() == direction,
        Step::towards(direction) == Step::at_rest() <==> direction == PanTiltDirection::Stop,
{
}

/// Two steps add up to the same in either order, and a step to nowhere changes
/// nothing.
pub proof fn steps_add_up_in_any_order(first: Step, second: Step)
    ensures
        first.add_spec(second) == second.add_spec(first),
        first.add_spec(Step::at_rest()) == first,
        Step::at_rest().add_spec(first) == first,
{
}

/// Steps add up however they are grouped, as long as no axis runs past what it
/// can express.
pub proof fn steps_add_up(first: Step, second: Step, third: Step)
    requires
        i16::MIN <= first.pan + second.pan <= i16::MAX,
        i16::MIN <= second.pan + third.pan <= i16::MAX,
        i16::MIN <= first.tilt + second.tilt <= i16::MAX,
        i16::MIN <= second.tilt + third.tilt <= i16::MAX,
    ensures
        first.add_spec(second).add_spec(third) == first.add_spec(second.add_spec(third)),
        first.add_spec(second).pan == first.pan + second.pan,
        first.add_spec(second).tilt == first.tilt + second.tilt,
{
}

/// A sum that runs past the end of an axis stays at that end: it never comes
/// out pointing the other way.
pub proof fn a_sum_never_turns_round(first: Step, second: Step)
    ensures
        sign(first.pan as int) == sign(second.pan as int) ==> sign(
            first.add_spec(second).pan as int,
        ) == sign(first.pan as int),
        sign(first.tilt as int) == sign(second.tilt as int) ==> sign(
            first.add_spec(second).tilt as int,
        ) == sign(first.tilt as int),
{
}

/// The step that a number of taps in one direction adds up to.
pub open spec fn taps(direction: PanTiltDirection, count: nat) -> Step
    decreases count,
{
    if count == 0 {
        Step::at_rest()
    } else {
        taps(direction, (count - 1) as nat).add_spec(Step::one(direction))
    }
}

proof fn multiples(way: int, count: nat)
    requires
        -1 <= way <= 1,
        0 < count,
    ensures
        way * STEP_UNITS * count == way * STEP_UNITS * (count - 1) + way * STEP_UNITS,
        -count <= way * STEP_UNITS * count <= count,
{
    let unit = way * STEP_UNITS;
    assert(unit == way);
    assert(unit * count == unit * (count - 1) + unit) by (nonlinear_arith);
    assert(-count <= unit * count <= count) by (nonlinear_arith)
        requires
            -1 <= unit <= 1,
    ;
}

/// However many taps an axis can express are exactly that many steps.
pub proof fn taps_are_counted(direction: PanTiltDirection, count: nat)
    requires
        count <= i16::MAX,
    ensures
        taps(direction, count).pan == direction.pan_sign() * STEP_UNITS * count,
        taps(direction, count).tilt == direction.tilt_sign() * STEP_UNITS * count,
    decreases count,
{
    if count > 0 {
        taps_are_counted(direction, (count - 1) as nat);
        multiples(direction.pan_sign(), count);
        multiples(direction.tilt_sign(), count);
    }
}

/// A signed distance in the unsigned field that carries it: two's complement.
pub open spec fn field(value: i16) -> u16 {
    if value < 0 {
        (value + 0x10000) as u16
    } else {
        value as u16
    }
}

/// A signed distance in the unsigned field that carries it.
pub fn twos_complement(value: i16) -> (bits: u16)
    ensures
        bits == field(value),
{
    if value < 0 {
        (value as i32 + 0x10000) as u16
    } else {
        value as u16
    }
}

/// No two distances are carried by the same field, and a field below the half
/// way mark is the distance itself.
pub proof fn a_field_carries_one_distance(first: i16, second: i16)
    ensures
        field(first) == field(second) ==> first == second,
        first >= 0 <==> field(first) < 0x8000,
{
}

/// A move of the head by a distance from wherever it is.
#[derive(Debug, Clone, Copy, PartialEq, Eq, Structural)]
pub struct RelativeMove {
    /// How far to pan, in two's complement.
    pub pan: u16,
    /// How far to tilt, in two's complement.
    pub tilt: u16,
    /// How fast to pan.
    pub pan_speed: u8,
    /// How fast to tilt.
    pub tilt_speed: u8,
}

/// The move that takes the camera one `step`, if it goes anywhere.
pub open spec fn step_move(step: Step) -> Option<RelativeMove> {
    if step == Step::at_rest() {
        None
    } else {
        Some(
            RelativeMove {
                pan: field(step.pan),
                tilt: field(step.tilt),
                pan_speed: STEP_SPEED,
                tilt_speed: STEP_SPEED,
            },
        )
    }
}

/// The move that takes the camera one `step`, or `None` if the step goes
/// nowhere and nothing is to be sent.
pub fn nudge(step: Step) -> (command: Result<Option<RelativeMove>, Error>)
    ensures
        command == Ok::<Option<RelativeMove>, Error>(step_move(step)),
        command == Ok::<Option<RelativeMove>, Error>(
            if step == Step::at_rest() {
                None
            } else {
                Some(
                    RelativeMove {
                        pan: field(step.pan),
                        tilt: field(step.tilt),
                        pan_speed: STEP_SPEED,
                        tilt_speed: STEP_SPEED,
                    },
                )
            },
        ),
{
    if step.is_still() {
        return Ok(None);
    }
    match pan_tilt::accepted_speeds(STEP_SPEED, STEP_SPEED) {
        Ok((pan_speed, tilt_speed)) => Ok(
            Some(
                RelativeMove {
                    pan: twos_complement(step.pan),
                    tilt: twos_complement(step.tilt),
                    pan_speed,
                    tilt_speed,
                },
            ),
        ),
        Err(error) => Err(error),
    }
}

/// The distance that a field carries.
pub open spec fn distance(field: u16) -> int {
    if field < 0x8000 {
        field as int
    } else {
        field - 0x10000
    }
}

/// A field gives back the distance that was put into it.
pub proof fn a_field_gives_its_distance_back(value: i16)
    ensures
        distance(field(value)) == value,
{
}

/// A step moves the camera exactly as far as it says along both axes, at the
/// slowest speed there is, and one that goes nowhere takes no command.
pub proof fn a_step_moves_as_far_as_it_says(step: Step)
    ensures
        step_move(step) is None <==> step.pan == 0 && step.tilt == 0,
        step_move(step) matches Some(distances) ==> {
            &&& distance(distances.pan) == step.pan
            &&& distance(distances.tilt) == step.tilt
            &&& distances.pan_speed == 1
            &&& distances.tilt_speed == 1
        },
{
}

/// One step goes one unit along each axis that its direction names, and none
/// along the others.
pub proof fn one_step_is_one_unit(direction: PanTiltDirection)
    ensures
        ({
            let step = Step::one(direction);
            let right = direction is Right || direction is UpRight || direction is DownRight;
            let left = direction is Left || direction is UpLeft || direction is DownLeft;
            let up = direction is Up || direction is UpLeft || direction is UpRight;
            let down = direction is Down || direction is DownLeft || direction is DownRight;
            &&& right <==> step.pan == 1
            &&& left <==> step.pan == -1
            &&& !right && !left <==> step.pan == 0
            &&& up <==> step.tilt == 1
            &&& down <==> step.tilt == -1
            &&& !up && !down <==> step.tilt == 0
        }),
{
}

/// A step goes right exactly when its pan is above zero, left when it is below,
/// and up and down by its tilt in the same way.
pub proof fn a_step_points_where_it_goes(step: Step)
    ensures
        ({
            let way = step.way();
            &&& step.pan > 0 <==> way is Right || way is UpRight || way is DownRight
            &&& step.pan < 0 <==> way is Left || way is UpLeft || way is DownLeft
            &&& step.tilt > 0 <==> way is Up || way is UpLeft || way is UpRight
            &&& step.tilt < 0 <==> way is Down || way is DownLeft || way is DownRight
        }),
{
}

/// Each axis of a sum is the sum of that axis where it can be expressed, and
/// the nearer end of what can be where it can't.
pub proof fn a_sum_is_held_to_what_an_axis_expresses(first: Step, second: Step)
    ensures
        ({
            let sum = first.add_spec(second);
            &&& i16::MIN <= first.pan + second.pan <= i16::MAX ==> sum.pan == first.pan + second.pan
            &&& first.pan + second.pan > i16::MAX ==> sum.pan == i16::MAX
            &&& first.pan + second.pan < i16::MIN ==> sum.pan == i16::MIN
            &&& i16::MIN <= first.tilt + second.tilt <= i16::MAX ==> sum.tilt == first.tilt
                + second.tilt
            &&& first.tilt + second.tilt > i16::MAX ==> sum.tilt == i16::MAX
            &&& first.tilt + second.tilt < i16::MIN ==> sum.tilt == i16::MIN
        }),
{
}

} // verus!
