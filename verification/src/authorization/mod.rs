//! Authorized governance servers and the checks that decide whether a
//! server may act.

pub mod server;
pub mod verification;
