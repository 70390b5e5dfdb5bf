//! Putting a message into the buffer it is sent from.

use vstd::prelude::*;

use crate::error::Error;

verus! {

/// The byte every message ends with.
pub const TERMINATOR: u8 = 0xFF;

/// Calls `grafton_visca::CameraId::to_address_byte` on the camera with this
/// number: the byte that addresses a message is 0x80 with the number in its
/// low bits.
#[verifier::external_body]
pub(crate) fn address_byte(camera: u8) -> (address: u8)
    requires
        1 <= camera <= 8,
    ensures
        address == 0x80 + camera,
{
    grafton_visca::CameraId::new(camera).unwrap_or_default().to_address_byte()
}

/// Whether a message ends where its terminator is, and nowhere before it: the
/// camera takes the first terminator it meets for the end.
pub open spec fn ends_once(message: Seq<u8>) -> bool {
    &&& message.len() > 0
    &&& message.last() == TERMINATOR
    &&& forall|index: int| 0 <= index < message.len() - 1 ==> #[trigger] message[index] != TERMINATOR
}

/// What writing `message` to the front of a buffer comes to: it is there, the
/// rest of the buffer is as it was, and the length is reported. A buffer that
/// cannot hold the message is left alone.
pub open spec fn wrote(
    message: Seq<u8>,
    before: Seq<u8>,
    after: Seq<u8>,
    written: Result<usize, Error>,
) -> bool {
    if message.len() <= before.len() {
        &&& written == Ok::<usize, Error>(message.len() as usize)
        &&& after == message + before.skip(message.len() as int)
    } else {
        &&& written == Err::<usize, Error>(
            Error::BufferTooSmall {
                required: message.len() as usize,
                actual: before.len() as usize,
            },
        )
        &&& after == before
    }
}

/// Writes `message` to the front of `buffer`, and says how long it is.
pub fn write_message(message: &[u8], buffer: &mut [u8]) -> (written: Result<usize, Error>)
    ensures
        wrote(message@, old(buffer)@, final(buffer)@, written),
{
    if buffer.len() < message.len() {
        return Err(Error::BufferTooSmall { required: message.len(), actual: buffer.len() });
    }
    let mut index: usize = 0;
    while index < message.len()
        invariant
            index <= message@.len() <= buffer@.len(),
            buffer@.len() == old(buffer)@.len(),
            buffer@ == message@.take(index as int) + old(buffer)@.skip(index as int),
        decreases message@.len() - index,
    {
        buffer[index] = message[index];
        index += 1;
        proof {
            assert(buffer@ =~= message@.take(index as int) + old(buffer)@.skip(index as int));
        }
    }
    proof {
        assert(message@.take(index as int) =~= message@);
    }
    Ok(message.len())
}

/// A message that fits is in the buffer from its first byte on, byte for byte,
/// with everything after it untouched and its length reported. One that
/// doesn't fit touches nothing, and says how much room it would take.
pub proof fn a_message_is_written_whole_or_not_at_all(
    message: Seq<u8>,
    before: Seq<u8>,
    after: Seq<u8>,
    written: Result<usize, Error>,
    place: int,
)
    requires
        wrote(message, before, after, written),
        before.len() <= usize::MAX,
        message.len() <= usize::MAX,
        0 <= place < before.len(),
    ensures
        after.len() == before.len(),
        written is Ok <==> message.len() <= before.len(),
        written is Ok ==> written->Ok_0 == message.len(),
        written is Ok && place < message.len() ==> after[place] == message[place],
        written is Ok && place >= message.len() ==> after[place] == before[place],
        written is Err ==> after[place] == before[place],
        written is Err ==> written->Err_0 is BufferTooSmall && written->Err_0->required
            == message.len() && written->Err_0->actual == before.len(),
{
}

/// Every message ends with the same byte.
pub proof fn the_end_is_marked_by_one_byte()
    ensures
        TERMINATOR == 0xFF,
{
}

} // verus!
