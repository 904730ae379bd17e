//! Tamper-evident audit logs: hash-chained entries, chain verification,
//! the running state of an append-only log, and Merkle anchoring.

pub mod entry;
pub mod health;
pub mod log_state;
pub mod merkle;
pub mod verify;
