//! The monthly governance registry that is anchored to Bitcoin, and the
//! per-server audit log summaries it carries.

use vstd::prelude::*;
use vstd::string::*;

verus! {

/// A maintainer listed in a registry.
#[derive(Debug)]
pub struct Maintainer {
    pub id: i32,
    pub name: String,
    pub npub: String,
    /// Seconds since the Unix epoch.
    pub added_at: i64,
    pub status: String,
}

/// Who operates a server.
#[derive(Debug)]
pub struct OperatorInfo {
    pub name: String,
    pub jurisdiction: String,
    pub contact: Option<String>,
}

/// A server's public keys.
#[derive(Debug)]
pub struct ServerKeys {
    pub nostr_npub: String,
    pub ssh_fingerprint: String,
}

/// How a server is deployed.
#[derive(Debug)]
pub struct InfrastructureInfo {
    pub vpn_ip: Option<String>,
    pub github_runner: bool,
    pub ots_enabled: bool,
}

/// A server as listed in a registry; its status is free text.
#[derive(Debug)]
pub struct AuthorizedServer {
    pub server_id: String,
    pub operator: OperatorInfo,
    pub keys: ServerKeys,
    pub infrastructure: InfrastructureInfo,
    pub status: String,
    /// Seconds since the Unix epoch.
    pub added_at: i64,
}

/// Summary of one server's audit log.
#[derive(Debug)]
pub struct AuditLogSummary {
    pub entries_count: u64,
    pub first_entry_hash: String,
    pub last_entry_hash: String,
    pub merkle_root: String,
}

/// How many maintainer signatures the registry requires.
#[derive(Debug)]
pub struct MultisigConfig {
    pub required_signatures: usize,
    pub total_maintainers: usize,
}

/// A monthly governance registry; registries chain by hash.
#[derive(Debug)]
pub struct GovernanceRegistry {
    pub version: String,
    /// Seconds since the Unix epoch.
    pub timestamp: i64,
    pub previous_registry_hash: String,
    pub maintainers: Vec<Maintainer>,
    pub authorized_servers: Vec<AuthorizedServer>,
    /// Audit log summary per server, keyed by server id.
    pub audit_logs: Vec<(String, AuditLogSummary)>,
    pub multisig_config: MultisigConfig,
}

/// A copy of an optional string.
pub fn clone_opt_string(o: &Option<String>) -> (r: Option<String>)
    ensures
        r == *o,
{
    match o {
        Some(s) => Some(s.clone()),
        None => None,
    }
}

impl Clone for OperatorInfo {
    fn clone(&self) -> (r: Self)
        ensures
            r == *self,
    {
        OperatorInfo { name: self.name.clone(), jurisdiction: self.jurisdiction.clone(), contact: clone_opt_string(&self.contact) }
    }
}

impl Clone for ServerKeys {
    fn clone(&self) -> (r: Self)
        ensures
            r == *self,
    {
        ServerKeys { nostr_npub: self.nostr_npub.clone(), ssh_fingerprint: self.ssh_fingerprint.clone() }
    }
}

impl Clone for InfrastructureInfo {
    fn clone(&self) -> (r: Self)
        ensures
            r == *self,
    {
        InfrastructureInfo { vpn_ip: clone_opt_string(&self.vpn_ip), github_runner: self.github_runner, ots_enabled: self.ots_enabled }
    }
}

impl Clone for AuthorizedServer {
    fn clone(&self) -> (r: Self)
        ensures
            r == *self,
    {
        AuthorizedServer {
            server_id: self.server_id.clone(),
            operator: self.operator.clone(),
            keys: self.keys.clone(),
            infrastructure: self.infrastructure.clone(),
            status: self.status.clone(),
            added_at: self.added_at,
        }
    }
}

impl Clone for Maintainer {
    fn clone(&self) -> (r: Self)
        ensures
            r == *self,
    {
        Maintainer { id: self.id, name: self.name.clone(), npub: self.npub.clone(), added_at: self.added_at, status: self.status.clone() }
    }
}

impl Clone for AuditLogSummary {
    fn clone(&self) -> (r: Self)
        ensures
            r == *self,
    {
        AuditLogSummary {
            entries_count: self.entries_count,
            first_entry_hash: self.first_entry_hash.clone(),
            last_entry_hash: self.last_entry_hash.clone(),
            merkle_root: self.merkle_root.clone(),
        }
    }
}

impl Clone for MultisigConfig {
    fn clone(&self) -> (r: Self)
        ensures
            r == *self,
    {
        MultisigConfig { required_signatures: self.required_signatures, total_maintainers: self.total_maintainers }
    }
}

} // verus!
