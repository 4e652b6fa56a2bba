//! The records of every attempt, and the three operations on them: an
//! attempt, its completion, and giving it up.

pub mod laws;
pub mod model;
pub mod store;

pub use model::{decide_begin, BeginOutcome, GateError, RecordState};
pub use store::IdempotencyGate;
