use vstd::prelude::*;

use crate::state::stack::{StackFrame, StackTrace};
use crate::state::value::{Value, le_bytes_u64, u64_from_le_bytes, lemma_value_from_u64_round_trip};
use crate::windbg::error::{WinDbgError, failed, check_succeeded};

verus! {

/// The engine's code for a target that is running.
pub const DEBUG_STATUS_GO: u32 = 1;

/// The engine's code for stepping over calls.
pub const DEBUG_STATUS_STEP_OVER: u32 = 4;

/// The engine's code for stepping into calls.
pub const DEBUG_STATUS_STEP_INTO: u32 = 5;

/// The engine's code for a target that is stopped.
pub const DEBUG_STATUS_BREAK: u32 = 6;

/// The engine's code for running to the next branch.
pub const DEBUG_STATUS_STEP_BRANCH: u32 = 8;

/// How many frames a captured stack trace asks the engine for.
pub const STACK_TRACE_DEPTH: u32 = 10;

/// The execution states of the debuggee that the backend reads and sets.
#[derive(PartialEq, Eq, Structural, Clone, Copy)]
pub enum DebuggerExecutionStatus {
    Break,
    StepInto,
    StepToBranch,
    StepOver,
    Continue,
}

/// The engine's code for `status`.
pub open spec fn status_code(status: DebuggerExecutionStatus) -> u32 {
    match status {
        DebuggerExecutionStatus::Break => DEBUG_STATUS_BREAK,
        DebuggerExecutionStatus::StepInto => DEBUG_STATUS_STEP_INTO,
        DebuggerExecutionStatus::StepToBranch => DEBUG_STATUS_STEP_BRANCH,
        DebuggerExecutionStatus::StepOver => DEBUG_STATUS_STEP_OVER,
        DebuggerExecutionStatus::Continue => DEBUG_STATUS_GO,
    }
}

/// The status whose engine code is `code`, if there is one.
pub open spec fn status_of_code(code: u32) -> Option<DebuggerExecutionStatus> {
    if code == DEBUG_STATUS_BREAK {
        Some(DebuggerExecutionStatus::Break)
    } else if code == DEBUG_STATUS_STEP_INTO {
        Some(DebuggerExecutionStatus::StepInto)
    } else if code == DEBUG_STATUS_STEP_BRANCH {
        Some(DebuggerExecutionStatus::StepToBranch)
    } else if code == DEBUG_STATUS_STEP_OVER {
        Some(DebuggerExecutionStatus::StepOver)
    } else if code == DEBUG_STATUS_GO {
        Some(DebuggerExecutionStatus::Continue)
    } else {
        None
    }
}

impl DebuggerExecutionStatus {
    /// The engine's code for this status.
    pub fn to_raw(&self) -> (code: u32)
        ensures
            code == status_code(*self),
    {
        match self {
            DebuggerExecutionStatus::Break => DEBUG_STATUS_BREAK,
            DebuggerExecutionStatus::StepInto => DEBUG_STATUS_STEP_INTO,
            DebuggerExecutionStatus::StepToBranch => DEBUG_STATUS_STEP_BRANCH,
            DebuggerExecutionStatus::StepOver => DEBUG_STATUS_STEP_OVER,
            DebuggerExecutionStatus::Continue => DEBUG_STATUS_GO,
        }
    }

    /// The status with engine code `code`, or `None` for a code that names
    /// none of them.
    pub fn from_raw(code: u32) -> (s: Option<Self>)
        ensures
            s == status_of_code(code),
    {
        if code == DEBUG_STATUS_BREAK {
            Some(DebuggerExecutionStatus::Break)
        } else if code == DEBUG_STATUS_STEP_INTO {
            Some(DebuggerExecutionStatus::StepInto)
        } else if code == DEBUG_STATUS_STEP_BRANCH {
            Some(DebuggerExecutionStatus::StepToBranch)
        } else if code == DEBUG_STATUS_STEP_OVER {
            Some(DebuggerExecutionStatus::StepOver)
        } else if code == DEBUG_STATUS_GO {
            Some(DebuggerExecutionStatus::Continue)
        } else {
            None
        }
    }
}

/// The engine's codes for the statuses: running is 1, stepping over 4,
/// stepping into 5, stopped 6, and running to a branch 8.
pub proof fn lemma_status_codes()
    ensures
        status_code(DebuggerExecutionStatus::Continue) == 1,
        status_code(DebuggerExecutionStatus::StepOver) == 4,
        status_code(DebuggerExecutionStatus::StepInto) == 5,
        status_code(DebuggerExecutionStatus::Break) == 6,
        status_code(DebuggerExecutionStatus::StepToBranch) == 8,
{
}

/// Reading back the code of a status gives that status, and a code that names
/// a status is that status's code.
pub proof fn lemma_status_code_round_trip(status: DebuggerExecutionStatus, code: u32)
    ensures
        status_of_code(status_code(status)) == Some(status),
        status_of_code(code) == Some(status) ==> status_code(status) == code,
{
}

/// The outcome of asking the engine for the execution status: result code
/// `res` and status code `code`. A code that names no known status is reported
/// as `UnknownError`.
pub fn execution_status_from_raw(res: i32, code: u32) -> (r: Result<
    DebuggerExecutionStatus,
    WinDbgError,
>)
    ensures
        failed(res) ==> r == Err::<DebuggerExecutionStatus, WinDbgError>(
            WinDbgError::FfiError("Unable to get current execution status", res),
        ),
        !failed(res) ==> r == (match status_of_code(code) {
            Some(s) => Ok(s),
            None => Err(WinDbgError::UnknownError),
        }),
{
    check_succeeded(res, "Unable to get current execution status")?;
    match DebuggerExecutionStatus::from_raw(code) {
        Some(s) => Ok(s),
        None => Err(WinDbgError::UnknownError),
    }
}

/// The parts of one of the engine's stack frame records that a trace keeps.
#[derive(Clone, Copy)]
pub struct RawStackFrame {
    pub instruction_offset: u64,
    pub return_offset: u64,
    pub params: [u64; 4],
    pub frame_number: u32,
}

/// `frame` carries the number, offsets and parameters of `raw`, each
/// parameter as the bytes of its value.
pub open spec fn frame_from_raw(frame: StackFrame, raw: RawStackFrame) -> bool {
    &&& frame.spec_frame_index() == raw.frame_number
    &&& frame.spec_instruction_offset() == raw.instruction_offset
    &&& frame.spec_return_offset() == raw.return_offset
    &&& frame.spec_params().len() == 4
    &&& forall|k: int|
        0 <= k < 4 ==> (#[trigger] frame.spec_params()[k])@ == le_bytes_u64(raw.params@[k])
}

/// Each parameter of a frame built from a record reads back, at the same
/// position, as the record's parameter there; the number and offsets are the
/// record's.
pub proof fn lemma_frame_keeps_params_in_place(frame: StackFrame, raw: RawStackFrame)
    requires
        frame_from_raw(frame, raw),
    ensures
        frame.spec_frame_index() == raw.frame_number,
        frame.spec_instruction_offset() == raw.instruction_offset,
        frame.spec_return_offset() == raw.return_offset,
        frame.spec_params().len() == 4,
        forall|k: int|
            0 <= k < 4 ==> {
                &&& (#[trigger] frame.spec_params()[k])@.len() == 8
                &&& u64_from_le_bytes(frame.spec_params()[k]@) == raw.params@[k]
            },
{
    assert forall|k: int| 0 <= k < 4 implies {
        &&& (#[trigger] frame.spec_params()[k])@.len() == 8
        &&& u64_from_le_bytes(frame.spec_params()[k]@) == raw.params@[k]
    } by {
        lemma_value_from_u64_round_trip(raw.params@[k]);
    }
}

/// A stack frame built from one of the engine's records.
pub fn stack_frame_from_raw(raw: &RawStackFrame) -> (f: StackFrame)
    ensures
        frame_from_raw(f, *raw),
{
    let mut params: Vec<Value> = Vec::new();
    let mut k: usize = 0;
    while k < 4
        invariant
            k <= 4,
            params@.len() == k,
            forall|j: int| 0 <= j < k ==> (#[trigger] params@[j])@ == le_bytes_u64(raw.params@[j]),
        decreases 4 - k,
    {
        let p = raw.params[k];
        params.push(Value::from(p));
        k = k + 1;
    }
    StackFrame::new(raw.frame_number, raw.instruction_offset, raw.return_offset, params)
}

/// The trace made from the engine's answer to a stack request: result code
/// `res`, and `filled` records at the start of `frames`.
pub fn stack_trace_from_raw(res: i32, frames: &[RawStackFrame], filled: u32) -> (r: Result<
    StackTrace,
    WinDbgError,
>)
    requires
        !failed(res) ==> filled <= frames@.len(),
    ensures
        r is Ok <==> !failed(res),
        r matches Err(e) ==> e == WinDbgError::FfiError("Unable to get stack frames", res),
        r matches Ok(t) ==> {
            &&& t.frames().len() == filled
            &&& forall|i: int|
                0 <= i < filled ==> frame_from_raw(#[trigger] t.frames()[i], frames@[i])
        },
{
    check_succeeded(res, "Unable to get stack frames")?;
    let mut out: Vec<StackFrame> = Vec::new();
    let mut i: usize = 0;
    let n: usize = filled as usize;
    while i < n
        invariant
            n == filled,
            n <= frames@.len(),
            i <= n,
            out@.len() == i,
            forall|j: int| 0 <= j < i ==> frame_from_raw(#[trigger] out@[j], frames@[j]),
        decreases n - i,
    {
        out.push(stack_frame_from_raw(&frames[i]));
        i = i + 1;
    }
    Ok(StackTrace::new(out))
}

} // verus!
