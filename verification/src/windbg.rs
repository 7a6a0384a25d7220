//! The decisions of the backend for the Windows debugger engine: result-code
//! checks, execution status codes, event flags, and the translation of the
//! engine's register and stack records into the shared data model.

pub mod control;
pub mod error;
pub mod events;
pub mod registers;
pub mod state_change;
pub mod symbols;
pub mod engine_loop;
