//! Per-user, per-event notification preferences.
//!
//! A subscription is the ordered list of channel preferences that one user
//! has for one event; the pair of user and event is its identity. The store
//! keeps at most one subscription for each pair and offers four operations on
//! it (subscribe, unsubscribe, read, update), each carried out as a single
//! statement of a storage backend.
//!
//! - [`model`]: channels, preferences, subscriptions and requests.
//! - [`codec`]: the text in which a preference list is stored, and back.
//! - [`backend`]: the statements sent to the backend and its answers.
//! - [`store`]: the operations, as a statement and a decision on its answer.
//! - [`table`]: a table in memory that answers the statements.
//! - [`laws`]: what holds of the operations however they are combined.
//! - [`error`]: the failures and how they are shown.
//! - [`config`]: the settings that the service is started with.

pub mod backend;
pub mod codec;
pub mod config;
pub mod error;
pub mod laws;
pub mod model;
pub mod store;
pub mod table;
