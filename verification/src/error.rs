//! The one error shape that every operation reports.

use vstd::prelude::*;

verus! {

/// The message of a service-reported error that names no message of its own.
pub const UNKNOWN_ERROR: &'static str = "Unknown error";

/// The message for a rejected credential.
pub const INVALID_API_KEY: &'static str = "Invalid API key";

/// The message for a reply whose body is no JSON text.
pub const NOT_JSON: &'static str = "Malformed response: body is not valid JSON";

/// What precedes the name of a field that a reply lacks or holds in
/// another shape than the protocol gives it.
pub const MALFORMED_FIELD: &'static str = "Malformed response: missing or invalid field ";

/// What precedes a task state that the protocol does not know.
pub const UNKNOWN_STATUS: &'static str = "Unknown status: ";

/// The message for a reply that lacks the field `path`, or holds it in the
/// wrong shape.
pub open spec fn malformed_field_message(path: Seq<char>) -> Seq<char> {
    MALFORMED_FIELD@ + path
}

/// The message for a task state that the protocol does not know.
pub open spec fn unknown_status_message(state: Seq<char>) -> Seq<char> {
    UNKNOWN_STATUS@ + state
}

/// A failed operation, with a message for a human reader.
///
/// Failures of the transport, errors that the service reports and replies
/// that cannot be decoded all take this shape.
#[derive(Debug)]
pub struct HCopError {
    pub message: String,
}

impl View for HCopError {
    type V = Seq<char>;

    /// An error is its message.
    open spec fn view(&self) -> Seq<char> {
        self.message@
    }
}

impl HCopError {
    /// The error that carries `message`.
    pub fn new(message: &str) -> (error: HCopError)
        ensures
            error@ == message@,
    {
        HCopError { message: message.to_owned() }
    }

    /// The decode error for the field `path`.
    pub fn malformed_field(path: &str) -> (error: HCopError)
        ensures
            error@ == malformed_field_message(path@),
    {
        HCopError { message: String::from_str(MALFORMED_FIELD).concat(path) }
    }

    /// The decode error for the task state `state`.
    pub fn unknown_status(state: &str) -> (error: HCopError)
        ensures
            error@ == unknown_status_message(state@),
    {
        HCopError { message: String::from_str(UNKNOWN_STATUS).concat(state) }
    }

    /// The message, as the error displays it.
    pub fn to_string(&self) -> (text: String)
        ensures
            text@ == self@,
    {
        self.message.clone()
    }
}

} // verus!
