use vstd::prelude::*;

use crate::state::value::Value;

verus! {

/// A named machine register of the debuggee and the value it holds.
#[derive(Debug)]
pub struct Register {
    pub name: String,
    pub index: u32,
    pub value: Value,
}

} // verus!
