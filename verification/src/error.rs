//! What can go wrong with a command, as far as the library tells it apart.

use vstd::prelude::*;
use vstd::string::*;

use crate::text::{decimal, signed};

verus! {

/// Why a command failed.
#[derive(Debug)]
pub enum Error {
    /// The camera does not know the command.
    SyntaxError,
    /// A message does not fit the buffer it was to be written to.
    BufferTooSmall {
        /// How many bytes the message takes.
        required: usize,
        /// How many bytes the buffer has.
        actual: usize,
    },
    /// A number is outside the range that the command takes.
    ParameterOutOfRange {
        /// What the number is for.
        parameter: &'static str,
        /// The number.
        value: i32,
        /// The least that is accepted.
        min: i32,
        /// The most that is accepted.
        max: i32,
    },
    /// Anything else, in the words it was reported in.
    Other(String),
}

/// What an error says to the operator.
pub open spec fn error_message(error: Error) -> Seq<char> {
    match error {
        Error::SyntaxError => "Syntax error in VISCA command"@,
        Error::BufferTooSmall { required, actual } => "Buffer too small: required "@ + decimal(
            required as nat,
        ) + " bytes, but only "@ + decimal(actual as nat) + " available"@,
        Error::ParameterOutOfRange { parameter, value, min, max } => "Parameter out of range: "@
            + parameter@ + " = "@ + signed(value as int) + " (valid range: "@ + signed(min as int)
            + ".."@ + signed(max as int) + ")"@,
        Error::Other(text) => text@,
    }
}

/// Calls `to_string` on the `grafton_visca::Error` with the same variant and
/// fields, whose `Display` puts the fields into a fixed sentence.
#[verifier::external_body]
fn protocol_message(error: &Error) -> (message: String)
    requires
        !(error is Other),
    ensures
        message@ == error_message(*error),
{
    match error {
        Error::BufferTooSmall { required, actual } => {
            grafton_visca::Error::BufferTooSmall { required: *required, actual: *actual }
        }
        Error::ParameterOutOfRange { parameter, value, min, max } => {
            grafton_visca::Error::ParameterOutOfRange { parameter, value: *value, min: *min, max: *max }
        }
        Error::Other(text) => return text.clone(),
        Error::SyntaxError => grafton_visca::Error::SyntaxError,
    }.to_string()
}

impl Error {
    /// What this error says to the operator.
    pub fn message(&self) -> (message: String)
        ensures
            message@ == error_message(*self),
    {
        match self {
            Error::Other(text) => text.clone(),
            _ => protocol_message(self),
        }
    }
}

/// An error reported in words says those words, and every other says what was
/// wrong with the numbers in it.
pub proof fn an_error_says_what_was_wrong(
    text: String,
    required: usize,
    actual: usize,
    parameter: &'static str,
    value: i32,
    min: i32,
    max: i32,
)
    ensures
        error_message(Error::Other(text)) == text@,
        error_message(Error::SyntaxError) == "Syntax error in VISCA command"@,
        error_message(Error::BufferTooSmall { required, actual }) == "Buffer too small: required "@
            + decimal(required as nat) + " bytes, but only "@ + decimal(actual as nat)
            + " available"@,
        error_message(Error::ParameterOutOfRange { parameter, value, min, max })
            == "Parameter out of range: "@ + parameter@ + " = "@ + signed(value as int)
            + " (valid range: "@ + signed(min as int) + ".."@ + signed(max as int) + ")"@,
{
}

} // verus!
