//! Release builds across the organization's repositories: the order in
//! which they are waited for and triggered, and what a release publishes.

pub mod orchestration;
pub mod release;
