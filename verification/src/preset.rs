//! Camera presets, addressed by the 1-based number an operator sees on screen
//! rather than by the camera's own 0-based numbering.

use vstd::prelude::*;

use crate::error::Error;
use crate::pan_tilt::refuses;

verus! {

/// Calls `grafton_visca::command::PresetNumber::new`, which accepts every
/// number a byte can hold as it is.
#[verifier::external_body]
fn camera_preset(index: u8) -> (number: Result<u8, Error>)
    ensures
        number is Ok && number->Ok_0 == index,
{
    match grafton_visca::command::PresetNumber::new(index) {
        Ok(number) => Ok(number.value()),
        Err(other) => Err(Error::Other(other.to_string())),
    }
}

/// The camera's own number for the preset that is shown as `displayed`.
///
/// This only guards against a number too low to convert. How many presets the
/// camera has is the camera's to say when the command reaches it.
pub fn preset_number(displayed: u8) -> (number: Result<u8, Error>)
    ensures
        displayed > 0 ==> number == Ok::<u8, Error>((displayed - 1) as u8),
        displayed > 0 ==> number == Ok::<u8, Error>(own_number(displayed)),
        displayed == 0 ==> number is Err && refuses(number->Err_0, "preset"@, 0, 1, 255),
{
    if displayed == 0 {
        return Err(
            Error::ParameterOutOfRange {
                parameter: "preset",
                value: displayed as i32,
                min: 1,
                max: u8::MAX as i32,
            },
        );
    }
    camera_preset(displayed - 1)
}

/// The camera's own number for the preset that is shown as `displayed`.
pub open spec fn own_number(displayed: u8) -> u8 {
    (displayed - 1) as u8
}

/// What the camera is told about one of its presets.
#[derive(Debug, Clone, Copy, PartialEq, Eq, Structural)]
pub enum PresetCommand {
    /// Go to the preset with this number of the camera's own.
    Recall(u8),
    /// Store where the camera is as the preset with this number of its own.
    Save(u8),
}

/// The command that moves the camera to a preset saved earlier.
pub fn recall_preset(displayed: u8) -> (command: Result<PresetCommand, Error>)
    ensures
        displayed > 0 ==> command == Ok::<PresetCommand, Error>(
            PresetCommand::Recall((displayed - 1) as u8),
        ),
        displayed > 0 ==> command == Ok::<PresetCommand, Error>(
            PresetCommand::Recall(own_number(displayed)),
        ),
        displayed == 0 ==> command is Err && refuses(command->Err_0, "preset"@, 0, 1, 255),
{
    match preset_number(displayed) {
        Ok(number) => Ok(PresetCommand::Recall(number)),
        Err(error) => Err(error),
    }
}

/// The command that saves the camera's position to a preset, over whatever
/// was there before.
pub fn save_preset(displayed: u8) -> (command: Result<PresetCommand, Error>)
    ensures
        displayed > 0 ==> command == Ok::<PresetCommand, Error>(
            PresetCommand::Save((displayed - 1) as u8),
        ),
        displayed > 0 ==> command == Ok::<PresetCommand, Error>(
            PresetCommand::Save(own_number(displayed)),
        ),
        displayed == 0 ==> command is Err && refuses(command->Err_0, "preset"@, 0, 1, 255),
{
    match preset_number(displayed) {
        Ok(number) => Ok(PresetCommand::Save(number)),
        Err(error) => Err(error),
    }
}

/// The camera counts its presets from zero and the operator from one, so that
/// a number shown is one more than the camera's own, and no two presets shown
/// are one preset of the camera's.
pub proof fn presets_are_counted_from_one(displayed: u8, other: u8)
    requires
        displayed > 0,
        other > 0,
    ensures
        own_number(displayed) + 1 == displayed,
        own_number(displayed) == own_number(other) ==> displayed == other,
{
}

} // verus!
