//! Continuous zoom drive: one command to start, one to stop, and however long
//! the control is held in between.

use vstd::prelude::*;

use crate::deflection::Push;
use crate::error::Error;
use crate::pan_tilt::refuses;

verus! {

/// Which way a zoom drive moves.
#[derive(Debug, Clone, Copy, PartialEq, Eq, Structural)]
pub enum ZoomDirection {
    /// Zoom in (telephoto).
    In,
    /// Zoom out (wide angle).
    Out,
}

/// The fastest speed the camera's variable zoom takes. Its slowest is zero,
/// which still moves.
pub const MAX_ZOOM_SPEED: u8 = 7;

/// A zoom drive: which way, and how fast.
#[derive(Debug, Clone, Copy, PartialEq, Eq, Structural)]
pub struct ZoomDrive {
    /// Which way the shot is going.
    pub direction: ZoomDirection,
    /// How fast, from 0 to [`MAX_ZOOM_SPEED`]. A slow zoom is the difference
    /// between a shot that can go out live and one that lurches.
    pub speed: u8,
}

/// Calls `grafton_visca::types::ZoomSpeed::new`, which accepts a speed up to
/// 0x07 as it is and refuses any other by name.
#[verifier::external_body]
fn zoom_speed(speed: u8) -> (accepted: Result<u8, Error>)
    ensures
        speed <= 7 ==> accepted is Ok && accepted->Ok_0 == speed,
        speed > 7 ==> accepted is Err && refuses(
            accepted->Err_0,
            "ZoomSpeed"@,
            speed as int,
            0,
            7,
        ),
{
    match grafton_visca::types::ZoomSpeed::new(speed) {
        Ok(accepted) => Ok(accepted.value()),
        Err(grafton_visca::Error::ParameterOutOfRange { parameter, value, min, max }) => {
            Err(Error::ParameterOutOfRange { parameter, value, min, max })
        }
        Err(other) => Err(Error::Other(other.to_string())),
    }
}

/// The drive that a zoom control asks for: the negative way is wide.
pub open spec fn zoom_drive(push: Option<Push>) -> Option<ZoomDrive> {
    match push {
        Some(push) => Some(
            ZoomDrive {
                direction: if push.positive {
                    ZoomDirection::In
                } else {
                    ZoomDirection::Out
                },
                speed: push.speed,
            },
        ),
        None => None,
    }
}

impl ZoomDrive {
    /// The drive a control pushed this way asks for, or `None` while it rests.
    pub fn from_deflection(push: Option<Push>) -> (drive: Option<ZoomDrive>)
        requires
            push matches Some(push) ==> push.speed <= MAX_ZOOM_SPEED,
        ensures
            drive == zoom_drive(push),
    {
        let push = match push {
            Some(push) => push,
            None => return None,
        };
        let direction = if push.positive {
            ZoomDirection::In
        } else {
            ZoomDirection::Out
        };
        match zoom_speed(push.speed) {
            Ok(speed) => Some(ZoomDrive { direction, speed }),
            Err(_) => None,
        }
    }
}

/// What the camera is told about its zoom.
#[derive(Debug, Clone, Copy, PartialEq, Eq, Structural)]
pub enum ZoomCommand {
    /// Zoom in at this speed.
    Tele(u8),
    /// Zoom out at this speed.
    Wide(u8),
    /// Stop zooming.
    Stop,
}

/// Whether the camera's variable zoom takes this drive.
pub open spec fn accepted_zoom(drive: Option<ZoomDrive>) -> bool {
    drive matches Some(drive) ==> drive.speed <= MAX_ZOOM_SPEED
}

/// What the camera is told to have its zoom run `drive`, or rest.
pub open spec fn zoom_command(drive: Option<ZoomDrive>) -> ZoomCommand {
    match drive {
        Some(drive) => match drive.direction {
            ZoomDirection::In => ZoomCommand::Tele(drive.speed),
            ZoomDirection::Out => ZoomCommand::Wide(drive.speed),
        },
        None => ZoomCommand::Stop,
    }
}

/// The command that starts `drive`, or that stops the zoom when it is `None`. A
/// speed that the camera does not take is refused.
pub fn drive_zoom(drive: Option<ZoomDrive>) -> (command: Result<ZoomCommand, Error>)
    ensures
        match drive {
            Some(drive) => if drive.speed <= MAX_ZOOM_SPEED {
                command == Ok::<ZoomCommand, Error>(
                    match drive.direction {
                        ZoomDirection::In => ZoomCommand::Tele(drive.speed),
                        ZoomDirection::Out => ZoomCommand::Wide(drive.speed),
                    },
                )
            } else {
                command is Err && refuses(
                    command->Err_0,
                    "ZoomSpeed"@,
                    drive.speed as int,
                    0,
                    MAX_ZOOM_SPEED as int,
                )
            },
            None => command == Ok::<ZoomCommand, Error>(ZoomCommand::Stop),
        },
        accepted_zoom(drive) ==> command == Ok::<ZoomCommand, Error>(zoom_command(drive)),
{
    let drive = match drive {
        Some(drive) => drive,
        None => return Ok(ZoomCommand::Stop),
    };
    match zoom_speed(drive.speed) {
        Ok(speed) => Ok(
            match drive.direction {
                ZoomDirection::In => ZoomCommand::Tele(speed),
                ZoomDirection::Out => ZoomCommand::Wide(speed),
            },
        ),
        Err(error) => Err(error),
    }
}

/// Zooming in is the telephoto command and zooming out the wide one, each at
/// the speed of the drive, and no drive is the stop: a command is given for
/// one drive only.
pub proof fn a_zoom_goes_the_way_it_is_asked(drive: Option<ZoomDrive>, speed: u8)
    ensures
        zoom_command(drive) == ZoomCommand::Tele(speed) <==> drive is Some
            && drive->Some_0.direction is In && drive->Some_0.speed == speed,
        zoom_command(drive) == ZoomCommand::Wide(speed) <==> drive is Some
            && drive->Some_0.direction is Out && drive->Some_0.speed == speed,
        zoom_command(drive) == ZoomCommand::Stop <==> drive is None,
        accepted_zoom(drive) <==> drive is None || drive->Some_0.speed <= 7,
{
}

/// A zoom control pushed the positive way zooms in and pushed the other way
/// zooms out, as fast as it is pushed, and a resting one doesn't zoom.
pub proof fn a_push_zooms_its_own_way(push: Option<Push>)
    ensures
        zoom_drive(push) is Some <==> push is Some,
        push matches Some(push) ==> {
            let drive = zoom_drive(Some(push))->Some_0;
            &&& drive.direction is In <==> push.positive
            &&& drive.direction is Out <==> !push.positive
            &&& drive.speed == push.speed
        },
{
}

} // verus!
