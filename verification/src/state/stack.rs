use vstd::prelude::*;

use crate::state::value::Value;

verus! {

/// The call stack of the debuggee, innermost frame first.
pub struct StackTrace {
    frames: Vec<StackFrame>,
}

/// One frame of a call stack.
pub struct StackFrame {
    index: u32,
    instruction_offset: u64,
    return_offset: u64,
    params: Vec<Value>,
}

impl StackTrace {
    /// The frames of the trace, in order.
    pub closed spec fn frames(&self) -> Seq<StackFrame> {
        self.frames@
    }

    /// A trace made of `frames`, kept in the given order.
    pub fn new(frames: Vec<StackFrame>) -> (t: Self)
        ensures
            t.frames() == frames@,
    {
        Self { frames }
    }

    /// The number of frames in the trace.
    pub fn len(&self) -> (n: usize)
        ensures
            n == self.frames().len(),
    {
        self.frames.len()
    }

    /// The frame at position `i`.
    pub fn frame(&self, i: usize) -> (f: &StackFrame)
        requires
            i < self.frames().len(),
        ensures
            *f == self.frames()[i as int],
    {
        &self.frames[i]
    }
}

impl StackFrame {
    /// The position of the frame in its trace.
    pub closed spec fn spec_frame_index(&self) -> u32 {
        self.index
    }

    /// The address the frame is executing.
    pub closed spec fn spec_instruction_offset(&self) -> u64 {
        self.instruction_offset
    }

    /// The address execution returns to from this frame.
    pub closed spec fn spec_return_offset(&self) -> u64 {
        self.return_offset
    }

    /// The parameters passed to the frame's function.
    pub closed spec fn spec_params(&self) -> Seq<Value> {
        self.params@
    }

    /// A frame made of the given parts.
    pub fn new(index: u32, instruction_offset: u64, return_offset: u64, params: Vec<Value>) -> (f:
        Self)
        ensures
            f.spec_frame_index() == index,
            f.spec_instruction_offset() == instruction_offset,
            f.spec_return_offset() == return_offset,
            f.spec_params() == params@,
    {
        Self { index, instruction_offset, return_offset, params }
    }

    /// The position of the frame in its trace.
    pub fn index(&self) -> (r: u32)
        ensures
            r == self.spec_frame_index(),
    {
        self.index
    }

    /// The address the frame is executing.
    pub fn instruction_offset(&self) -> (r: u64)
        ensures
            r == self.spec_instruction_offset(),
    {
        self.instruction_offset
    }

    /// The address execution returns to from this frame.
    pub fn return_offset(&self) -> (r: u64)
        ensures
            r == self.spec_return_offset(),
    {
        self.return_offset
    }

    /// The parameters passed to the frame's function.
    pub fn params(&self) -> (r: &Vec<Value>)
        ensures
            r@ == self.spec_params(),
    {
        &self.params
    }
}

} // verus!
