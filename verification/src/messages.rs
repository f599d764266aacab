//! The typed messages of the result protocol: what an asynchronous handler
//! sends over its result channel, and the record of callback invocations
//! that the drain loop makes against the host's callback set.

use vstd::prelude::*;

verus! {

/// A result message emitted by an asynchronous action handler.
///
/// `Terminal` carries the handler's final outcome (success or error payload)
/// and closes the dispatch's callback lifecycle; `Progress` carries an
/// intermediate notification and leaves the lifecycle open.
pub enum AsyncActionResult {
    Terminal(Result<String, String>),
    Progress(String),
}

/// A callback invocation, at the specification level: which of the host's
/// three sinks was invoked, and with what payload.
pub enum Call {
    Success(Seq<char>),
    Failure(Seq<char>),
    Progress(Seq<char>),
}

/// A recorded callback invocation, as an executable value.
#[derive(Debug, PartialEq, Eq)]
pub enum CallbackCall {
    Success(String),
    Failure(String),
    Progress(String),
}

impl View for CallbackCall {
    type V = Call;

    open spec fn view(&self) -> Call {
        match self {
            CallbackCall::Success(p) => Call::Success(p@),
            CallbackCall::Failure(p) => Call::Failure(p@),
            CallbackCall::Progress(p) => Call::Progress(p@),
        }
    }
}

/// The view of an executable `Result` of strings, payload by payload.
pub open spec fn result_view(r: Result<String, String>) -> Result<Seq<char>, Seq<char>> {
    match r {
        Ok(p) => Ok(p@),
        Err(p) => Err(p@),
    }
}

} // verus!
