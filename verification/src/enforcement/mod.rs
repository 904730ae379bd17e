//! Enforcement: whether a pull request may merge, and the status texts that
//! report it.

pub mod emergency;
pub mod merge_block;
pub mod status_checks;
