//! Camera power.
//!
//! "Off" is standby: the camera stops imaging and parks its lens, but keeps
//! listening, which is what makes it possible to wake it over the same link.

use vstd::prelude::*;

use crate::error::Error;
use crate::wire::{self, TERMINATOR};

verus! {

/// `CAM_Power On`. A camera answers it once it has come up, which takes it far
/// longer than going to sleep does.
#[derive(Debug, Clone, Copy, PartialEq, Eq, Structural)]
pub struct PowerOn;

impl PowerOn {
    /// The message, addressed.
    pub open spec fn message(self, address: u8) -> Seq<u8> {
        seq![address, 0x01, 0x04, 0x00, 0x02, TERMINATOR]
    }

    /// Writes the message to the front of `buffer`, and says how long it is.
    pub fn write_into(&self, camera: u8, buffer: &mut [u8]) -> (written: Result<usize, Error>)
        requires
            1 <= camera <= 8,
        ensures
            wire::wrote(
                self.message((0x80 + camera) as u8),
                old(buffer)@,
                final(buffer)@,
                written,
            ),
    {
        let message: [u8; 6] = [wire::address_byte(camera), 0x01, 0x04, 0x00, 0x02, TERMINATOR];
        proof {
            assert(message@ =~= self.message((0x80 + camera) as u8));
        }
        wire::write_message(message.as_slice(), buffer)
    }
}

/// The message that wakes a camera ends once, whichever camera it is.
pub proof fn waking_up_ends_once(camera: u8)
    requires
        1 <= camera <= 8,
    ensures
        wire::ends_once(PowerOn.message((0x80 + camera) as u8)),
{
}

/// What the camera is told about its power.
#[derive(Debug, Clone, Copy, PartialEq, Eq, Structural)]
pub enum PowerCommand {
    /// Wake up.
    On(PowerOn),
    /// Go into standby.
    Off,
}

/// What the camera is told about its power.
pub open spec fn power_command(on: bool) -> PowerCommand {
    if on {
        PowerCommand::On(PowerOn)
    } else {
        PowerCommand::Off
    }
}

/// The command that powers the camera on, or puts it into standby.
pub fn set_power(on: bool) -> (command: PowerCommand)
    ensures
        command == power_command(on),
        command == if on {
            PowerCommand::On(PowerOn)
        } else {
            PowerCommand::Off
        },
{
    if on {
        PowerCommand::On(PowerOn)
    } else {
        PowerCommand::Off
    }
}

/// Powering on wakes the camera and powering off sends it to sleep. The message
/// that wakes one is the same for every camera but for the address it starts
/// with.
pub proof fn power_goes_the_way_it_is_asked(on: bool, address: u8)
    ensures
        power_command(on) is On <==> on,
        power_command(on) is Off <==> !on,
        PowerOn.message(address).first() == address,
        PowerOn.message(address).drop_first() == seq![0x01u8, 0x04, 0x00, 0x02, 0xFF],
{
    assert(PowerOn.message(address).drop_first() =~= seq![0x01u8, 0x04, 0x00, 0x02, 0xFF]);
}

} // verus!
