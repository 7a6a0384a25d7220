use vstd::prelude::*;

use crate::state::registers::Register;
use crate::state::stack::StackTrace;
use crate::state::value::RelativeAddress;

verus! {

/// A notification the backend sends to its front end without being asked.
pub enum DebuggerEvent {
    /// The debuggee stopped; its position, non-zero registers and stack.
    DebuggeeStateChange {
        instruction_offset: RelativeAddress,
        registers: Vec<Register>,
        stack_trace: StackTrace,
    },
    /// The debuggee resumed running.
    DebuggeeContinued,
}

} // verus!
