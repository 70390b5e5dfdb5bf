//! Continuous focus drive, held like the zoom: one command to start, one to
//! stop.

use vstd::prelude::*;

use crate::deflection::Push;
use crate::rocker::{self, notch_level, SpeedLevel};

verus! {

/// Which way a focus drive moves.
#[derive(Debug, Clone, Copy, PartialEq, Eq, Structural)]
pub enum FocusDirection {
    /// Focus nearer.
    Near,
    /// Focus farther.
    Far,
}

/// A focus drive: which way, and how fast.
#[derive(Debug, Clone, Copy, PartialEq, Eq, Structural)]
pub struct FocusDrive {
    /// Which way focus is travelling.
    pub direction: FocusDirection,
    /// How fast. The distance between sharp and soft is small, and at full
    /// pace it is easy to drive straight past it.
    pub speed: SpeedLevel,
}

/// The drive that a focus control asks for: the negative way is near, and the
/// speed is the notch its rocker is at.
pub open spec fn focus_drive(push: Option<Push>) -> Option<FocusDrive> {
    match push {
        Some(push) => Some(
            FocusDrive {
                direction: if push.positive {
                    FocusDirection::Far
                } else {
                    FocusDirection::Near
                },
                speed: notch_level(push.speed as int),
            },
        ),
        None => None,
    }
}

impl FocusDrive {
    /// The drive a rocker pushed this way asks for, or `None` while it rests.
    pub fn from_deflection(push: Option<Push>) -> (drive: Option<FocusDrive>)
        ensures
            drive == focus_drive(push),
    {
        let push = match push {
            Some(push) => push,
            None => return None,
        };
        let direction = if push.positive {
            FocusDirection::Far
        } else {
            FocusDirection::Near
        };
        match rocker::speed(Some(push.speed)) {
            Some(speed) => Some(FocusDrive { direction, speed }),
            None => None,
        }
    }
}

/// What the camera is told about its focus.
#[derive(Debug, Clone, Copy, PartialEq, Eq, Structural)]
pub enum FocusCommand {
    /// Focus nearer at this speed.
    Near(SpeedLevel),
    /// Focus farther at this speed.
    Far(SpeedLevel),
    /// Stop focusing.
    Stop,
    /// Leave focusing to the camera.
    Auto,
    /// Leave focusing to the operator.
    Manual,
}

/// What the camera is told to have its focus run `drive`, or rest.
pub open spec fn focus_command(drive: Option<FocusDrive>) -> FocusCommand {
    match drive {
        Some(drive) => match drive.direction {
            FocusDirection::Near => FocusCommand::Near(drive.speed),
            FocusDirection::Far => FocusCommand::Far(drive.speed),
        },
        None => FocusCommand::Stop,
    }
}

/// What the camera is told about who focuses.
pub open spec fn mode_command(auto: bool) -> FocusCommand {
    if auto {
        FocusCommand::Auto
    } else {
        FocusCommand::Manual
    }
}

/// The command that starts `drive`, or that stops the focus when it is `None`.
pub fn drive_focus(drive: Option<FocusDrive>) -> (command: FocusCommand)
    ensures
        command == focus_command(drive),
        command == (match drive {
            Some(drive) => match drive.direction {
                FocusDirection::Near => FocusCommand::Near(drive.speed),
                FocusDirection::Far => FocusCommand::Far(drive.speed),
            },
            None => FocusCommand::Stop,
        }),
{
    match drive {
        Some(drive) => match drive.direction {
            FocusDirection::Near => FocusCommand::Near(drive.speed),
            FocusDirection::Far => FocusCommand::Far(drive.speed),
        },
        None => FocusCommand::Stop,
    }
}

/// The command that switches focus between the camera's automatic and manual
/// modes. A focus drive only holds while focus is manual.
pub fn set_auto_focus(auto: bool) -> (command: FocusCommand)
    ensures
        command == mode_command(auto),
        command == if auto {
            FocusCommand::Auto
        } else {
            FocusCommand::Manual
        },
{
    if auto {
        FocusCommand::Auto
    } else {
        FocusCommand::Manual
    }
}

/// Focusing nearer and farther are the commands of those names, each at the
/// speed of the drive, and no drive is the stop. Switching the mode is neither.
pub proof fn a_focus_goes_the_way_it_is_asked(
    drive: Option<FocusDrive>,
    speed: SpeedLevel,
    auto: bool,
)
    ensures
        focus_command(drive) == FocusCommand::Near(speed) <==> drive is Some
            && drive->Some_0.direction is Near && drive->Some_0.speed == speed,
        focus_command(drive) == FocusCommand::Far(speed) <==> drive is Some
            && drive->Some_0.direction is Far && drive->Some_0.speed == speed,
        focus_command(drive) == FocusCommand::Stop <==> drive is None,
        mode_command(auto) == FocusCommand::Auto <==> auto,
        mode_command(auto) == FocusCommand::Manual <==> !auto,
{
}

/// A focus control pushed the positive way focuses farther and pushed the
/// other way nearer, at the speed of the notch it is at, and a resting one
/// doesn't focus.
pub proof fn a_push_focuses_its_own_way(push: Option<Push>)
    ensures
        focus_drive(push) is Some <==> push is Some,
        push matches Some(push) ==> {
            let drive = focus_drive(Some(push))->Some_0;
            &&& drive.direction is Far <==> push.positive
            &&& drive.direction is Near <==> !push.positive
            &&& drive.speed == notch_level(push.speed as int)
        },
{
}

} // verus!
