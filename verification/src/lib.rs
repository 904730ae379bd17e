//! Verified core of the governance application: audit hash chains, Merkle
//! anchoring, server authorization, multisignature thresholds and the
//! governance policy rules that decide merges, vetoes and sanctions.

pub mod audit;
pub mod authorization;
pub mod build;
pub mod clock;
pub mod config;
pub mod crypto;
pub mod database;
pub mod digest;
pub mod economic_nodes;
pub mod enforcement;
pub mod error;
pub mod fork;
pub mod github;
pub mod governance;
pub mod governance_review;
pub mod json;
pub mod node_registry;
pub mod nostr;
pub mod ots;
pub mod security_gate;
pub mod text;
