//! Snapshots of debuggee state: raw values, registers and stack traces.

pub mod registers;
pub mod stack;
pub mod value;
