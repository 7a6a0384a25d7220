//! Verified core of a debugger backend bridge: the data model that the bridge
//! exchanges with its front end, command dispatch, wire framing, and the
//! decisions that translate the Windows debugger engine's state into events.

use vstd::prelude::*;

pub mod command;
pub mod event;
pub mod state;
pub mod session;
pub mod windbg;
pub mod wire;

verus! {

/// `anyhow::Error`: an error from elsewhere, carried through unread.
#[verifier::external_type_specification]
#[verifier::external_body]
pub struct ExAnyhowError(anyhow::Error);

/// `std::io::Error`: an input or output failure, carried through unread.
#[verifier::external_type_specification]
#[verifier::external_body]
pub struct ExIoError(std::io::Error);

/// `serde_json::Error`: a failure to read or write JSON, carried through unread.
#[verifier::external_type_specification]
#[verifier::external_body]
pub struct ExJsonError(serde_json::Error);

/// Why the backend could not do what it was asked.
#[derive(Debug)]
pub enum DebuggerError {
    /// The debuggee went away while an answer was awaited.
    TargetExited,
    Other(anyhow::Error),
    Io(std::io::Error),
    Serialization(serde_json::Error),
}

/// The message that arrived from the debugger's side, or `TargetExited` when
/// that side closed its channel (`None`).
pub fn received_or_exited<T>(message: Option<T>) -> (r: Result<T, DebuggerError>)
    ensures
        message matches Some(m) ==> r == Ok::<T, DebuggerError>(m),
        message is None ==> r matches Err(DebuggerError::TargetExited),
{
    match message {
        Some(m) => Ok(m),
        None => Err(DebuggerError::TargetExited),
    }
}

} // verus!
