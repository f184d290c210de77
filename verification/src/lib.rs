//! Core of a newsletter service: validated value types, an idempotent
//! publish command handler backed by an idempotency store, a transactional
//! outbox of delivery tasks, and the decision logic of the asynchronous
//! delivery worker.

pub mod domain;
pub mod email_client;
pub mod idempotency;
pub mod issues;
pub mod outbox;
pub mod publish;
pub mod routes;
pub mod subscribers;
pub mod worker;
