//! Status codes and the three classes of failure.

use vstd::prelude::*;

verus! {

/// Status code of an engine operation or of a handler.
#[derive(Clone, Copy, Debug, PartialEq, Eq, Structural)]
pub enum Status {
    /// An argument was malformed.
    InvalidParameter,
    /// The object is not in a state that admits the operation.
    InvalidState,
    /// A table or the engine ran out of room.
    OutOfMemory,
    /// The operation was abandoned.
    Aborted,
    /// Any other code, as the engine reported it.
    Engine(u32),
}

/// The failure classes of the wrapper layer.
#[derive(Clone, Copy, Debug, PartialEq, Eq, Structural)]
pub enum Error {
    /// Creating a native object failed.
    EngineInit(Status),
    /// An operation was refused synchronously.
    Status(Status),
    /// A user handler returned a failing result from inside a callback.
    Handler(Status),
}

impl Error {
    /// The status code that the failure carries.
    pub open spec fn spec_status(self) -> Status {
        match self {
            Error::EngineInit(s) => s,
            Error::Status(s) => s,
            Error::Handler(s) => s,
        }
    }

    #[verifier::when_used_as_spec(spec_status)]
    pub fn status(self) -> (s: Status)
        ensures
            s == self.spec_status(),
    {
        match self {
            Error::EngineInit(s) => s,
            Error::Status(s) => s,
            Error::Handler(s) => s,
        }
    }
}

/// What a callback hands back to the engine once the handler has returned.
#[derive(Clone, Copy, Debug, PartialEq, Eq, Structural)]
pub enum CallbackOutcome {
    /// The handler accepted the event.
    Continue,
    /// The handler failed: the engine is to tear the object down.
    Abort(Status),
}

/// The outcome that a handler's result stands for.
pub open spec fn outcome_of(result: Result<(), Status>) -> CallbackOutcome {
    match result {
        Ok(_) => CallbackOutcome::Continue,
        Err(s) => CallbackOutcome::Abort(s),
    }
}

/// Turns a handler's result into the outcome reported to the engine. A failing
/// result is never retried: it asks for teardown of the object.
pub fn callback_outcome(result: Result<(), Status>) -> (outcome: CallbackOutcome)
    ensures
        outcome == outcome_of(result),
{
    match result {
        Ok(_) => CallbackOutcome::Continue,
        Err(s) => CallbackOutcome::Abort(s),
    }
}

} // verus!
