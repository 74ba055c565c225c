//! A multi-tenant payments ledger with an outbox-fed webhook delivery pipeline.
//!
//! The crate holds the decisions of the service: how a money movement is
//! validated and what it writes, how an outbox event moves through its states,
//! when a failed delivery is retried, how retry timer keys are named and read
//! back, and how API keys are issued, rotated, revoked and checked.
pub mod text;
pub mod accounts;
pub mod auth;
pub mod delivery;
pub mod keys;
pub mod ledger;
pub mod outbox;
pub mod ratelimit;
pub mod scheduler;
pub mod store;
pub mod webhooks;
