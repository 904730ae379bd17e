//! The node registry's API answers.

pub mod api;
