//! GitHub: repository content, webhooks, and cross-layer status checks.

pub mod cross_layer_status;
pub mod file_operations;
pub mod webhooks;
