//! The errors that a greeter session reports.
use vstd::prelude::*;

verus! {

/// Why a step of the session did not give an action.
#[derive(Debug, PartialEq, Eq)]
pub enum GreeterError {
    /// The connection to the broker broke: a read or write failed, or the
    /// stream ended inside a frame. The session must be discarded.
    Transport,
    /// A frame did not hold a valid response message.
    Decoding,
    /// A request could not be turned into a frame.
    Encoding,
    /// The broker asked for an answer and none was given. Nothing changed:
    /// the step may be repeated with an answer.
    MissingData,
    /// The broker rejected the attempt. The session is over; a new one may be
    /// started.
    AuthenticationFailed { message: String },
    /// The session had already failed.
    SessionTerminated,
}

impl GreeterError {
    /// Whether the error means that the connection can no longer be used.
    pub open spec fn spec_is_fatal(&self) -> bool {
        match self {
            GreeterError::Transport | GreeterError::Decoding | GreeterError::Encoding => true,
            _ => false,
        }
    }

    /// Whether the error means that the connection can no longer be used.
    #[verifier::when_used_as_spec(spec_is_fatal)]
    pub fn is_fatal(&self) -> (r: bool)
        ensures
            r == self.spec_is_fatal(),
    {
        match self {
            GreeterError::Transport | GreeterError::Decoding | GreeterError::Encoding => true,
            _ => false,
        }
    }
}

} // verus!
