//! The error that the library reports.

use vstd::prelude::*;

use crate::text::join;

verus! {

/// What an error is about.
#[derive(Clone, Copy, Debug, PartialEq, Eq, Structural)]
pub enum ErrorKind {
    /// A configuration that cannot be used.
    InvalidInput,
    /// Recorded evidence that cannot be continued.
    InvalidData,
    /// Anything else, such as a failure of the policy process.
    Other,
}

/// An error with its message.
#[derive(Debug)]
pub struct PolicyError {
    pub kind: ErrorKind,
    pub message: String,
}

/// What an error stands for.
pub struct ErrorView {
    pub kind: ErrorKind,
    pub message: Seq<char>,
}

impl View for PolicyError {
    type V = ErrorView;

    open spec fn view(&self) -> ErrorView {
        ErrorView { kind: self.kind, message: self.message@ }
    }
}

/// An error about a configuration.
pub open spec fn invalid_error(message: Seq<char>) -> ErrorView {
    ErrorView { kind: ErrorKind::InvalidInput, message }
}

/// An error about recorded evidence.
pub open spec fn data_error(message: Seq<char>) -> ErrorView {
    ErrorView { kind: ErrorKind::InvalidData, message }
}

/// Any other error.
pub open spec fn other_error(message: Seq<char>) -> ErrorView {
    ErrorView { kind: ErrorKind::Other, message }
}

/// A failure of the policy process or of the exchange with it.
pub open spec fn infrastructure_error(message: Seq<char>) -> ErrorView {
    other_error("context policy infrastructure failure: "@ + message)
}

/// The error for a configuration that cannot be used.
pub fn invalid(message: &str) -> (error: PolicyError)
    ensures
        error@ == invalid_error(message@),
{
    PolicyError { kind: ErrorKind::InvalidInput, message: message.to_owned() }
}

/// The error for evidence that cannot be continued.
pub(crate) fn invalid_data(message: &str) -> (error: PolicyError)
    ensures
        error@ == data_error(message@),
{
    PolicyError { kind: ErrorKind::InvalidData, message: message.to_owned() }
}

/// The error for anything else.
pub(crate) fn other(message: &str) -> (error: PolicyError)
    ensures
        error@ == other_error(message@),
{
    PolicyError { kind: ErrorKind::Other, message: message.to_owned() }
}

/// The error for a failure of the policy process or of the exchange with it.
pub fn infrastructure(message: &str) -> (error: PolicyError)
    ensures
        error@ == infrastructure_error(message@),
{
    PolicyError {
        kind: ErrorKind::Other,
        message: join("context policy infrastructure failure: ", message),
    }
}

/// An error of a configuration, of recorded evidence and of the policy process each
/// say so by their kind. Only what the policy process fails at is marked in the
/// message, which is kept behind the mark.
pub proof fn law_errors_keep_their_message(message: Seq<char>)
    ensures
        invalid_error(message).kind == ErrorKind::InvalidInput,
        invalid_error(message).message == message,
        data_error(message).kind == ErrorKind::InvalidData,
        data_error(message).message == message,
        other_error(message).kind == ErrorKind::Other,
        other_error(message).message == message,
        infrastructure_error(message).kind == ErrorKind::Other,
        infrastructure_error(message).message == "context policy infrastructure failure: "@
            + message,
{
}

/// What an error stands for is its kind and the characters of its message.
pub proof fn law_error_view_is_the_error(error: PolicyError)
    ensures
        error@.kind == error.kind,
        error@.message == error.message@,
{
}

} // verus!
