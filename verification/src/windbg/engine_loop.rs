use vstd::prelude::*;

use crate::command::DebuggerCommandRequest;
use crate::windbg::events::{DebugeeStateChange, WinDbgEvent, has_all_bits, DEBUG_CDS_ALL};

verus! {

/// What the engine thread's loop observed in one round.
pub enum EngineLoopInput {
    /// The engine's event channel delivered an event, or closed (`None`).
    Event(Option<WinDbgEvent>),
    /// The request channel delivered a request, or closed (`None`).
    Command(Option<DebuggerCommandRequest>),
    /// Neither channel delivered anything in time.
    TimedOut,
}

/// What the engine thread does next.
pub enum EngineLoopAction {
    /// Capture the stopped or resumed debuggee and forward the resulting event.
    TranslateStateChange(DebugeeStateChange),
    /// Run the request through the command handlers and forward any answer.
    Dispatch(DebuggerCommandRequest),
    /// Go round again.
    Wait,
    /// Leave the loop.
    Stop,
}

/// Whether an engine event is forwarded to the front end: only changes that
/// cover all of the debuggee's state are.
pub fn translates(event: &WinDbgEvent) -> (b: bool)
    ensures
        b == (event matches WinDbgEvent::DebugeeStateChange(c) && has_all_bits(
            c.spec_bits(),
            DEBUG_CDS_ALL,
        )),
{
    match event {
        WinDbgEvent::DebugeeStateChange(change) => change.is_complete_change(),
    }
}

/// The step of the engine thread's loop for one round's observation.
pub fn engine_loop_step(input: EngineLoopInput) -> (action: EngineLoopAction)
    ensures
        match input {
            EngineLoopInput::Event(Some(WinDbgEvent::DebugeeStateChange(c))) => if has_all_bits(
                c.spec_bits(),
                DEBUG_CDS_ALL,
            ) {
                action == EngineLoopAction::TranslateStateChange(c)
            } else {
                action is Wait
            },
            EngineLoopInput::Event(None) => action is Stop,
            EngineLoopInput::Command(Some(req)) => action == EngineLoopAction::Dispatch(req),
            EngineLoopInput::Command(None) => action is Stop,
            EngineLoopInput::TimedOut => action is Wait,
        },
{
    match input {
        EngineLoopInput::Event(Some(event)) => {
            if translates(&event) {
                match event {
                    WinDbgEvent::DebugeeStateChange(change) => EngineLoopAction::TranslateStateChange(
                        change,
                    ),
                }
            } else {
                EngineLoopAction::Wait
            }
        },
        EngineLoopInput::Event(None) => EngineLoopAction::Stop,
        EngineLoopInput::Command(Some(request)) => EngineLoopAction::Dispatch(request),
        EngineLoopInput::Command(None) => EngineLoopAction::Stop,
        EngineLoopInput::TimedOut => EngineLoopAction::Wait,
    }
}

} // verus!
