//! OpenTimestamps anchoring of monthly governance registries.

pub mod anchor;
pub mod client;
pub mod summaries;
pub mod verify;
