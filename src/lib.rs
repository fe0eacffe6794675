//! A per-key counter store: validated keys, an atomic increment-or-create
//! step, an in-memory backend, and the decision logic that drives the same
//! step as a database transaction.
pub mod config;
pub mod entry;
pub mod key;
pub mod model;
pub mod step;
pub mod memstore;
pub mod txn;
pub mod http;
