//! Governance forks: versioned rulesets, their comparison, and the executor
//! that validates a target ruleset and switches to it.

pub mod config;
pub mod detection;
pub mod executor;
pub mod types;
pub mod versioning;
