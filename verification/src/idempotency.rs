//! Request deduplication keyed by caller identity and idempotency key.

pub mod columns;
pub mod gate;
pub mod key;
pub mod response;

pub use columns::{from_columns, to_columns, RecordColumns};
pub use gate::{BeginOutcome, GateError, IdempotencyGate, RecordState};
pub use key::{IdempotencyKey, InvalidIdempotencyKey};
pub use response::{HeaderPair, SavedResponse};
