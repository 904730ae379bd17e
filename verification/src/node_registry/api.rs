//! The answers of the node registry API.

use vstd::prelude::*;
use vstd::string::*;

verus! {

/// A registered node as the API lists it.
#[derive(Debug)]
pub struct NodeRegistration {
    pub node_id: String,
    pub node_name: String,
    pub node_type: String,
    pub bitcoin_addresses: Vec<String>,
}

/// The answer to a registration.
#[derive(Debug)]
pub struct RegisterNodeResponse {
    pub success: bool,
    pub message: String,
}

/// The answer to a lookup of one node.
#[derive(Debug)]
pub struct GetNodeResponse {
    pub node: Option<NodeRegistration>,
}

/// The answer to a listing of the active nodes.
#[derive(Debug)]
pub struct ListNodesResponse {
    pub nodes: Vec<NodeRegistration>,
}

impl RegisterNodeResponse {
    /// The answer when the node was registered.
    pub fn registered(node_id: &str) -> (r: Self)
        ensures
            r.success,
            r.message@ == "Node "@ + node_id@ + " registered successfully"@,
    {
        let mut m = String::from_str("Node ");
        m.append(node_id);
        m.append(" registered successfully");
        RegisterNodeResponse { success: true, message: m }
    }

    /// The answer when registration failed with the given error text.
    pub fn failed(error: &str) -> (r: Self)
        ensures
            !r.success,
            r.message@ == "Failed to register node: "@ + error@,
    {
        let mut m = String::from_str("Failed to register node: ");
        m.append(error);
        RegisterNodeResponse { success: false, message: m }
    }

    /// The answer when no database is available.
    pub fn no_database() -> (r: Self)
        ensures
            !r.success,
            r.message@ == "Database pool not available"@,
    {
        RegisterNodeResponse { success: false, message: String::from_str("Database pool not available") }
    }
}

} // verus!
