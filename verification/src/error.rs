//! The failures that can arrive in place of a notification.
//!
//! There are two kinds and no third: the connection itself failed, or the
//! server answered with an error frame.

use vstd::prelude::*;
use vstd::std_specs::convert::FromSpecImpl;
use vstd::string::StringExecFns;
use mpd_protocol::response::Error;
use mpd_protocol::MpdProtocolError;
use crate::decimal::{decimal, decimal_string, lemma_decimal_shape};
use crate::text::{holds, holds_at};

verus! {

/// The error frame of `mpd_protocol`, `response::Error`, with the public fields
/// that the crate defines for it: the numeric `code`, the `command_index`, the
/// `current_command` and the `message`.
#[verifier::external_type_specification]
pub struct ExError(Error);

/// The unrecoverable error of `mpd_protocol`. Nothing here looks inside it: it
/// is carried from where it arose to whoever asks for the cause.
#[verifier::external_type_specification]
#[verifier::external_body]
pub struct ExMpdProtocolError(MpdProtocolError);

/// Errors which may occur while listening for state change events.
#[derive(Debug)]
pub enum StateChangeError {
    /// An underlying protocol error occurred, including IO errors.
    Protocol(MpdProtocolError),
    /// The state change message contained an error frame.
    ErrorMessage(Error),
}

/// How an error frame reads: its code in decimal notation and its message,
/// both inline.
pub open spec fn frame_text(code: u64, message: Seq<char>) -> Seq<char> {
    "message contained an error frame [code "@ + decimal(code as nat) + "]: "@ + message
}

/// Writes out how an error frame with this code and message reads.
pub fn frame_string(code: u64, message: &str) -> (text: String)
    ensures
        text@ == frame_text(code, message@),
{
    let mut text = String::from_str("message contained an error frame [code ");
    let digits = decimal_string(code);
    text.append(digits.as_str());
    text.append("]: ");
    text.append(message);
    text
}

impl StateChangeError {
    /// How this error reads. A protocol error reads the same whatever its cause,
    /// which [`StateChangeError::source`] gives; an error frame reads as
    /// [`frame_text`] says.
    pub open spec fn text(&self) -> Seq<char> {
        match self {
            StateChangeError::Protocol(_) => "protocol error"@,
            StateChangeError::ErrorMessage(frame) => frame_text(frame.code, frame.message@),
        }
    }

    /// The underlying cause: the protocol error where there is one, nothing for
    /// an error frame, which is its own explanation.
    pub open spec fn cause(&self) -> Option<&MpdProtocolError> {
        match self {
            StateChangeError::Protocol(cause) => Some(cause),
            StateChangeError::ErrorMessage(_) => None,
        }
    }

    /// Returns the text of this error for a human reader.
    pub fn describe(&self) -> (text: String)
        ensures
            text@ == self.text(),
    {
        match self {
            StateChangeError::Protocol(_) => String::from_str("protocol error"),
            StateChangeError::ErrorMessage(frame) => frame_string(frame.code, &frame.message),
        }
    }

    /// Returns the error that caused this one, if any.
    pub fn source(&self) -> (cause: Option<&MpdProtocolError>)
        ensures
            cause == self.cause(),
    {
        match self {
            StateChangeError::Protocol(cause) => Some(cause),
            StateChangeError::ErrorMessage(_) => None,
        }
    }
}

impl From<Error> for StateChangeError {
    fn from(frame: Error) -> (error: StateChangeError) {
        StateChangeError::ErrorMessage(frame)
    }
}

impl FromSpecImpl<Error> for StateChangeError {
    open spec fn obeys_from_spec() -> bool {
        true
    }

    open spec fn from_spec(frame: Error) -> StateChangeError {
        StateChangeError::ErrorMessage(frame)
    }
}

impl From<MpdProtocolError> for StateChangeError {
    fn from(cause: MpdProtocolError) -> (error: StateChangeError) {
        StateChangeError::Protocol(cause)
    }
}

impl FromSpecImpl<MpdProtocolError> for StateChangeError {
    open spec fn obeys_from_spec() -> bool {
        true
    }

    open spec fn from_spec(cause: MpdProtocolError) -> StateChangeError {
        StateChangeError::Protocol(cause)
    }
}

/// The text of an error frame holds the frame's code, in decimal notation, and
/// the frame's message, each whole and unbroken.
pub proof fn lemma_frame_text_holds_code_and_message(code: u64, message: Seq<char>)
    ensures
        holds(frame_text(code, message), decimal(code as nat)),
        holds(frame_text(code, message), message),
{
    let head = "message contained an error frame [code "@;
    let digits = decimal(code as nat);
    let mid = "]: "@;
    let whole = frame_text(code, message);
    let start: int = head.len() as int;
    assert(whole.subrange(start, start + digits.len()) =~= digits);
    assert(holds_at(whole, digits, start));
    let before: int = start + digits.len() + mid.len();
    assert(whole.subrange(before, before + message.len()) =~= message);
    assert(holds_at(whole, message, before));
}

/// A frame whose code is below ten shows that code as its one digit.
pub proof fn lemma_frame_text_of_small_code(code: u64, message: Seq<char>)
    requires
        code < 10,
    ensures
        holds(frame_text(code, message), seq![crate::decimal::digit(code as nat)]),
{
    lemma_decimal_shape(code as nat);
    lemma_frame_text_holds_code_and_message(code, message);
}

/// Of the two kinds of error, only a protocol error has a cause.
pub proof fn lemma_cause_iff_protocol(error: StateChangeError)
    ensures
        error.cause() is Some <==> error is Protocol,
        error is Protocol <==> !(error is ErrorMessage),
{
}

} // verus!
