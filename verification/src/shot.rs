//! Going to a remembered position at a speed of one's own choosing.
//!
//! A preset recall takes no speed; the absolute position command takes one
//! for each axis. Only pan and tilt are restored: the lens has commands of
//! its own, and none of them carries a speed.

use vstd::prelude::*;

use crate::error::Error;
use crate::nudge::{a_field_gives_its_distance_back, distance, field, twos_complement};
use crate::pan_tilt::{accepted_speeds, refuses, MAX_PAN_SPEED, MAX_TILT_SPEED};
use crate::state::Position;
use crate::wire::{self, TERMINATOR};

verus! {

/// How fast to travel to a shot, on each axis.
///
/// A move with far to pan and little to tilt wants two different speeds: at
/// one speed the tilt finishes early and the shot hooks into its framing.
#[derive(Debug, Clone, Copy, PartialEq, Eq, Structural)]
pub struct Travel {
    /// How fast to pan, from 1 to [`MAX_PAN_SPEED`].
    pub pan_speed: u8,
    /// How fast to tilt, from 1 to [`MAX_TILT_SPEED`].
    pub tilt_speed: u8,
}

/// `Pan-tiltPosition Absolute Position`. A camera answers it once it has
/// physically arrived.
#[derive(Debug, Clone, Copy, PartialEq, Eq, Structural)]
pub struct AbsolutePosition {
    /// Where to go. Its zoom and focus are not sent.
    pub position: Position,
    /// How fast to pan.
    pub pan_speed: u8,
    /// How fast to tilt.
    pub tilt_speed: u8,
}

/// The four nibbles of `value`, most significant first.
pub open spec fn quad(value: u16) -> Seq<u8> {
    seq![
        (value / 0x1000) as u8,
        (value / 0x100 % 0x10) as u8,
        (value / 0x10 % 0x10) as u8,
        (value % 0x10) as u8,
    ]
}

/// The number that four nibbles stand for.
pub open spec fn quad_value(nibbles: Seq<u8>) -> int {
    nibbles[0] * 0x1000 + nibbles[1] * 0x100 + nibbles[2] * 0x10 + nibbles[3]
}

/// Splits `value` into four nibbles, most significant first.
pub fn nibbles(value: u16) -> (nibbles: [u8; 4])
    ensures
        nibbles@ == quad(value),
{
    let nibbles: [u8; 4] = [
        (value / 0x1000) as u8,
        (value / 0x100 % 0x10) as u8,
        (value / 0x10 % 0x10) as u8,
        (value % 0x10) as u8,
    ];
    proof {
        assert(nibbles@ =~= quad(value));
    }
    nibbles
}

/// Four nibbles carry the whole number, and none of them can be mistaken for
/// the byte that ends a message.
pub proof fn nibbles_carry_the_number(value: u16)
    ensures
        quad(value).len() == 4,
        quad_value(quad(value)) == value,
        forall|index: int| 0 <= index < 4 ==> #[trigger] quad(value)[index] < 0x10,
{
    let high = value as int / 0x100;
    assert(high / 0x10 == value as int / 0x1000) by (nonlinear_arith)
        requires
            high == value as int / 0x100,
            value >= 0,
    ;
    let low = value as int / 0x10;
    assert(low / 0x10 == high) by (nonlinear_arith)
        requires
            high == value as int / 0x100,
            low == value as int / 0x10,
            value >= 0,
    ;
}

impl AbsolutePosition {
    /// The message, addressed.
    pub open spec fn message(self, address: u8) -> Seq<u8> {
        seq![address, 0x01, 0x06, 0x02, self.pan_speed, self.tilt_speed] + quad(
            field(self.position.pan),
        ) + quad(field(self.position.tilt)) + seq![TERMINATOR]
    }

    /// Writes the message to the front of `buffer`, and says how long it is.
    pub fn write_into(&self, camera: u8, buffer: &mut [u8]) -> (written: Result<usize, Error>)
        requires
            1 <= camera <= 8,
        ensures
            wire::wrote(
                self.message((0x80 + camera) as u8),
                old(buffer)@,
                final(buffer)@,
                written,
            ),
    {
        let pan = nibbles(twos_complement(self.position.pan));
        let tilt = nibbles(twos_complement(self.position.tilt));
        let message: [u8; 15] = [
            wire::address_byte(camera),
            0x01,
            0x06,
            0x02,
            self.pan_speed,
            self.tilt_speed,
            pan[0],
            pan[1],
            pan[2],
            pan[3],
            tilt[0],
            tilt[1],
            tilt[2],
            tilt[3],
            TERMINATOR,
        ];
        proof {
            assert(message@ =~= self.message((0x80 + camera) as u8));
        }
        wire::write_message(message.as_slice(), buffer)
    }
}

/// The message that sends a camera to a shot ends once, wherever the shot is:
/// no part of a coordinate can be mistaken for the end.
pub proof fn a_shot_ends_once(command: AbsolutePosition, camera: u8)
    requires
        1 <= camera <= 8,
        command.pan_speed <= MAX_PAN_SPEED,
        command.tilt_speed <= MAX_TILT_SPEED,
    ensures
        wire::ends_once(command.message((0x80 + camera) as u8)),
{
    nibbles_carry_the_number(field(command.position.pan));
    nibbles_carry_the_number(field(command.position.tilt));
    let pan = quad(field(command.position.pan));
    let tilt = quad(field(command.position.tilt));
    let message = command.message((0x80 + camera) as u8);
    assert forall|index: int| 0 <= index < message.len() - 1 implies #[trigger] message[index]
        != TERMINATOR by {
        if 6 <= index < 10 {
            assert(message[index] == pan[index - 6]);
        } else if 10 <= index < 14 {
            assert(message[index] == tilt[index - 10]);
        }
    }
}

/// The command that sends the camera to `shot` at `travel`'s speeds.
pub fn go_to(shot: Position, travel: Travel) -> (command: Result<AbsolutePosition, Error>)
    ensures
        travel.pan_speed <= MAX_PAN_SPEED && travel.tilt_speed <= MAX_TILT_SPEED ==> command
            == Ok::<AbsolutePosition, Error>(
            AbsolutePosition {
                position: shot,
                pan_speed: travel.pan_speed,
                tilt_speed: travel.tilt_speed,
            },
        ),
        travel.pan_speed > MAX_PAN_SPEED ==> command is Err && refuses(
            command->Err_0,
            "PanSpeed"@,
            travel.pan_speed as int,
            0,
            MAX_PAN_SPEED as int,
        ),
        travel.pan_speed <= MAX_PAN_SPEED && travel.tilt_speed > MAX_TILT_SPEED ==> command is Err
            && refuses(command->Err_0, "TiltSpeed"@, travel.tilt_speed as int, 0, MAX_TILT_SPEED as int),
{
    match accepted_speeds(travel.pan_speed, travel.tilt_speed) {
        Ok((pan_speed, tilt_speed)) => Ok(
            AbsolutePosition { position: shot, pan_speed, tilt_speed },
        ),
        Err(error) => Err(error),
    }
}

/// A message that sends the camera to a shot starts with the address and the
/// command, carries the two speeds and then the four nibbles of each
/// coordinate, pan first, and ends. Nothing else of the shot is in it.
pub proof fn a_shot_is_carried_whole(command: AbsolutePosition, address: u8)
    ensures
        ({
            let message = command.message(address);
            &&& message.len() == 15
            &&& message[0] == address
            &&& message[1] == 0x01 && message[2] == 0x06 && message[3] == 0x02
            &&& message[4] == command.pan_speed
            &&& message[5] == command.tilt_speed
            &&& distance(quad_value(message.subrange(6, 10)) as u16) == command.position.pan
            &&& distance(quad_value(message.subrange(10, 14)) as u16) == command.position.tilt
            &&& message[14] == 0xFF
        }),
{
    let message = command.message(address);
    let pan = field(command.position.pan);
    let tilt = field(command.position.tilt);
    nibbles_carry_the_number(pan);
    nibbles_carry_the_number(tilt);
    a_field_gives_its_distance_back(command.position.pan);
    a_field_gives_its_distance_back(command.position.tilt);
    assert(message.subrange(6, 10) =~= quad(pan));
    assert(message.subrange(10, 14) =~= quad(tilt));
}

} // verus!
