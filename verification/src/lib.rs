//! Idempotent newsletter publishing: a request gate keyed by caller and
//! idempotency key, a fan-out dispatcher that tolerates corrupt subscriber
//! rows, and the request building and reply classification of the outbound
//! email transport.

pub mod dispatch;
pub mod domain;
pub mod email_client;
pub mod idempotency;
pub mod publish;
pub mod routes;
