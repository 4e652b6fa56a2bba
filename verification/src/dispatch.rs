//! The fan-out of one issue to the confirmed subscribers: which sends are
//! made, in which order, and how the run ends. The sending itself is left to
//! the driver of a run.

pub mod dispatcher;
pub mod laws;
pub mod model;
pub mod rows;

pub use dispatcher::{DeliveryOutcome, DispatchAction, FanOutDispatcher};
pub use model::DeliveryStatus;
pub use rows::{confirmed_subscribers, ConfirmedSubscriber};
