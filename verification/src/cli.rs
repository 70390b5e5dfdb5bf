//! A bare command mode, for when full-screen redraws are more than one wants
//! to parse from a script: the same session, printing each result as a line.

use vstd::prelude::*;
use vstd::string::*;
use vstd::utf8::encode_utf8;

use crate::error::Error;
use crate::session::Report;
use crate::ui::KEY_LEGEND;

verus! {

/// A line of output: the text, with an explicit carriage return and newline.
///
/// Raw mode turns off the terminal's own translation, and a bare newline would
/// move the cursor down without returning it to the start of the line.
pub open spec fn line(text: Seq<char>) -> Seq<u8> {
    encode_utf8(text) + seq![0x0D, 0x0A]
}

/// Writes one line of output.
pub fn write_line(stdout: &mut Vec<u8>, text: &str)
    ensures
        final(stdout)@ == old(stdout)@ + line(text@),
{
    stdout.extend_from_slice(text.as_bytes());
    stdout.push(0x0D);
    stdout.push(0x0A);
    proof {
        assert(stdout@ =~= old(stdout)@ + line(text@));
    }
}

/// The bare mode's view of a session: every message is a line of transcript,
/// and there's no frame to redraw between them.
#[derive(Debug)]
pub struct Transcript {
    /// What has been written and not yet printed.
    pub stdout: Vec<u8>,
}

impl Report for Transcript {
    fn refresh(&mut self) -> (refreshed: Result<(), Error>)
        ensures
            refreshed is Ok,
            final(self).stdout@ == old(self).stdout@,
    {
        Ok(())
    }

    fn status(&mut self, text: &str) -> (reported: Result<(), Error>)
        ensures
            reported is Ok,
            final(self).stdout@ == old(self).stdout@ + line(text@),
    {
        write_line(&mut self.stdout, text);
        Ok(())
    }

    fn camera_state(&mut self, text: &str) -> (reported: Result<(), Error>)
        ensures
            reported is Ok,
            final(self).stdout@ == old(self).stdout@ + line(text@),
    {
        write_line(&mut self.stdout, text);
        Ok(())
    }
}

impl Transcript {
    /// A transcript that opens with what the camera is and with the key
    /// legend.
    pub fn opening(connection_summary: &str) -> (transcript: Transcript)
        ensures
            transcript.stdout@ == line(connection_summary@) + line(KEY_LEGEND@),
    {
        let mut stdout: Vec<u8> = Vec::new();
        write_line(&mut stdout, connection_summary);
        write_line(&mut stdout, KEY_LEGEND);
        proof {
            assert(stdout@ =~= line(connection_summary@) + line(KEY_LEGEND@));
        }
        Transcript { stdout }
    }
}

/// A line is its text and then a carriage return and a newline, and nothing
/// else.
pub proof fn a_line_ends_where_the_next_begins(text: Seq<char>)
    ensures
        line(text).len() == encode_utf8(text).len() + 2,
        line(text).take(line(text).len() - 2) == encode_utf8(text),
        line(text)[line(text).len() - 2] == 0x0D,
        line(text).last() == 0x0A,
{
    assert(line(text).take(line(text).len() - 2) =~= encode_utf8(text));
}

} // verus!
