//! Supervision of a local backend process: where it lives, how it is
//! launched and confirmed alive, the supervisor's state machine, and the
//! safe file writes and chat exports offered beside it.
use vstd::prelude::*;

pub mod atomic_write;
pub mod export;
pub mod health;
pub mod launcher;
pub mod paths;
pub mod supervisor;

pub use export::{escape_rtf, ExportMessage, ExportPayload};

verus! {

} // verus!
