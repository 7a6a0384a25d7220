use vstd::prelude::*;

use crate::DebuggerError;
use crate::command::DebuggerCommandRequest;
use crate::event::DebuggerEvent;
use crate::wire::WireResponse;

verus! {

/// What the front-end session observed in one round.
pub enum SessionInput {
    /// The debugger produced an event, or failed.
    Event(Result<DebuggerEvent, DebuggerError>),
    /// A request was read (`Some(Ok(..))`), reading failed (`Some(Err(..))`),
    /// or the input ended (`None`).
    Request(Option<Result<DebuggerCommandRequest, std::io::Error>>),
}

/// What the session does next.
pub enum SessionAction {
    /// Write this message to the front end.
    Send(WireResponse),
    /// Have the debugger carry out the request, then send its answer.
    Handle(DebuggerCommandRequest),
    /// End the session with this error.
    Fail(DebuggerError),
    /// End the session normally.
    Stop,
}

/// The step of the session loop for one round's observation: events are
/// forwarded as notifications, requests are handled, a failing debugger ends
/// the session with its error, and the end or failure of the input ends it
/// normally.
pub fn session_step(input: SessionInput) -> (action: SessionAction)
    ensures
        match input {
            SessionInput::Event(Ok(event)) => action == SessionAction::Send(
                WireResponse::Notification { event },
            ),
            SessionInput::Event(Err(e)) => action == SessionAction::Fail(e),
            SessionInput::Request(Some(Ok(req))) => action == SessionAction::Handle(req),
            SessionInput::Request(_) => action is Stop,
        },
{
    match input {
        SessionInput::Event(Ok(event)) => SessionAction::Send(WireResponse::Notification { event }),
        SessionInput::Event(Err(e)) => SessionAction::Fail(e),
        SessionInput::Request(Some(Ok(request))) => SessionAction::Handle(request),
        SessionInput::Request(_) => SessionAction::Stop,
    }
}

} // verus!
