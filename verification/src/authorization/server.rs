//! Authorized servers, their status, and approval records.

use vstd::prelude::*;
use vstd::string::*;
use crate::clock::{current_unix_time, in_date_range, rfc3339_utc, spec_rfc3339_utc};
use crate::ots::anchor;
use crate::ots::anchor::clone_opt_string;
use crate::text::str_eq;

verus! {

/// Who operates a server.
#[derive(Debug)]
pub struct OperatorInfo {
    pub name: String,
    pub jurisdiction: String,
    pub contact: Option<String>,
}

/// A server's public keys.
#[derive(Debug)]
pub struct ServerKeys {
    pub nostr_npub: String,
    pub ssh_fingerprint: String,
}

/// How a server is deployed.
#[derive(Debug)]
pub struct InfrastructureInfo {
    pub vpn_ip: Option<String>,
    pub github_runner: bool,
    pub ots_enabled: bool,
}

/// Lifecycle status of a server.
#[derive(Debug, Clone, Copy, PartialEq, Eq, Structural)]
pub enum ServerStatus {
    Active,
    Retiring,
    Inactive,
    Compromised,
}

/// The text of a status.
pub open spec fn status_text(s: ServerStatus) -> Seq<char> {
    match s {
        ServerStatus::Active => "active"@,
        ServerStatus::Retiring => "retiring"@,
        ServerStatus::Inactive => "inactive"@,
        ServerStatus::Compromised => "compromised"@,
    }
}

/// The status a text names, if any.
pub open spec fn status_from_text(t: Seq<char>) -> Option<ServerStatus> {
    if t == "active"@ { Some(ServerStatus::Active) }
    else if t == "retiring"@ { Some(ServerStatus::Retiring) }
    else if t == "inactive"@ { Some(ServerStatus::Inactive) }
    else if t == "compromised"@ { Some(ServerStatus::Compromised) }
    else { None }
}

/// Parsing the text of a server status gives the status back.
pub proof fn lemma_status_round_trip(st: ServerStatus)
    ensures
        status_from_text(status_text(st)) == Some(st),
{
    reveal_strlit("active");
    reveal_strlit("retiring");
    reveal_strlit("inactive");
    reveal_strlit("compromised");
    assert("active"@ != "retiring"@) by { assert("active"@[0] != "retiring"@[0]); }
    assert("active"@ != "inactive"@) by { assert("active"@[0] != "inactive"@[0]); }
    assert("retiring"@ != "inactive"@) by { assert("retiring"@[0] != "inactive"@[0]); }
    assert("active"@ != "compromised"@) by { assert("active"@[0] != "compromised"@[0]); }
    assert("retiring"@ != "compromised"@) by { assert("retiring"@[0] != "compromised"@[0]); }
    assert("inactive"@ != "compromised"@) by { assert("inactive"@[0] != "compromised"@[0]); }
}

impl ServerStatus {
    /// Only an active server is operational.
    pub fn is_operational(&self) -> (r: bool)
        ensures
            r == (*self == ServerStatus::Active),
    {
        match self {
            ServerStatus::Active => true,
            _ => false,
        }
    }

    /// Is the server compromised?
    pub fn is_compromised(&self) -> (r: bool)
        ensures
            r == (*self == ServerStatus::Compromised),
    {
        match self {
            ServerStatus::Compromised => true,
            _ => false,
        }
    }

    /// The status as text.
    pub fn as_str(&self) -> (r: &'static str)
        ensures
            r@ == status_text(*self),
    {
        match self {
            ServerStatus::Active => "active",
            ServerStatus::Retiring => "retiring",
            ServerStatus::Inactive => "inactive",
            ServerStatus::Compromised => "compromised",
        }
    }

    /// The status as an owned string.
    pub fn to_string(&self) -> (r: String)
        ensures
            r@ == status_text(*self),
    {
        String::from_str(self.as_str())
    }

    /// Parses a status; anything but the four names is refused with
    /// `Invalid server status: <text>`.
    pub fn parse_status(s: &str) -> (r: Result<ServerStatus, String>)
        ensures
            status_from_text(s@) matches Some(st) ==> r == Ok::<ServerStatus, String>(st),
            status_from_text(s@) is None ==> (r matches Err(m) && m@ == "Invalid server status: "@ + s@),
    {
        proof {
            reveal_strlit("active");
            reveal_strlit("retiring");
            reveal_strlit("inactive");
            reveal_strlit("compromised");
        }
        if str_eq(s, "active") {
            Ok(ServerStatus::Active)
        } else if str_eq(s, "retiring") {
            Ok(ServerStatus::Retiring)
        } else if str_eq(s, "inactive") {
            Ok(ServerStatus::Inactive)
        } else if str_eq(s, "compromised") {
            Ok(ServerStatus::Compromised)
        } else {
            let mut m = String::from_str("Invalid server status: ");
            m.append(s);
            Err(m)
        }
    }
}

impl std::str::FromStr for ServerStatus {
    type Err = String;

    fn from_str(s: &str) -> (r: Result<ServerStatus, String>)
        ensures
            status_from_text(s@) matches Some(st) ==> r == Ok::<ServerStatus, String>(st),
            status_from_text(s@) is None ==> (r matches Err(m) && m@ == "Invalid server status: "@ + s@),
    {
        ServerStatus::parse_status(s)
    }
}

/// A server authorized to run governance jobs.
#[derive(Debug)]
pub struct AuthorizedServer {
    pub server_id: String,
    pub operator: OperatorInfo,
    pub keys: ServerKeys,
    pub infrastructure: InfrastructureInfo,
    pub status: ServerStatus,
    /// Seconds since the Unix epoch.
    pub added_at: i64,
    /// Seconds since the Unix epoch.
    pub last_verified: Option<i64>,
}

/// The server a registry entry describes: the same fields, its status parsed
/// (an unknown status reads as inactive), and never verified.
pub open spec fn converted_server(s: anchor::AuthorizedServer) -> AuthorizedServer {
    AuthorizedServer {
        server_id: s.server_id,
        operator: OperatorInfo { name: s.operator.name, jurisdiction: s.operator.jurisdiction, contact: s.operator.contact },
        keys: ServerKeys { nostr_npub: s.keys.nostr_npub, ssh_fingerprint: s.keys.ssh_fingerprint },
        infrastructure: InfrastructureInfo {
            vpn_ip: s.infrastructure.vpn_ip,
            github_runner: s.infrastructure.github_runner,
            ots_enabled: s.infrastructure.ots_enabled,
        },
        status: match status_from_text(s.status@) { Some(st) => st, None => ServerStatus::Inactive },
        added_at: s.added_at,
        last_verified: None,
    }
}

/// Key/value pairs as texts.
pub open spec fn pair_views(v: Seq<(String, String)>) -> Seq<(Seq<char>, Seq<char>)> {
    Seq::new(v.len(), |i: int| (v[i].0@, v[i].1@))
}

/// The verification pairs of a server.
pub open spec fn verification_pairs(s: AuthorizedServer) -> Seq<(Seq<char>, Seq<char>)> {
    let base = seq![
        ("server_id"@, s.server_id@),
        ("nostr_npub"@, s.keys.nostr_npub@),
        ("ssh_fingerprint"@, s.keys.ssh_fingerprint@),
        ("status"@, status_text(s.status)),
        ("added_at"@, spec_rfc3339_utc(s.added_at as int)),
    ];
    match s.last_verified {
        Some(v) => base.push(("last_verified"@, spec_rfc3339_utc(v as int))),
        None => base,
    }
}

impl AuthorizedServer {
    /// A newly added server: active, added now, not yet verified.
    pub fn new(server_id: String, operator: OperatorInfo, keys: ServerKeys, infrastructure: InfrastructureInfo) -> (r: Self)
        ensures
            r.server_id == server_id,
            r.operator == operator,
            r.keys == keys,
            r.infrastructure == infrastructure,
            r.status == ServerStatus::Active,
            r.last_verified is None,
    {
        let now = current_unix_time();
        AuthorizedServer { server_id, operator, keys, infrastructure, status: ServerStatus::Active, added_at: now, last_verified: None }
    }

    /// Authorized exactly when operational.
    pub fn is_authorized(&self) -> (r: bool)
        ensures
            r == (self.status == ServerStatus::Active),
    {
        self.status.is_operational()
    }

    /// Is the server compromised?
    pub fn is_compromised(&self) -> (r: bool)
        ensures
            r == (self.status == ServerStatus::Compromised),
    {
        self.status.is_compromised()
    }

    /// `<id> (<operator>) - <jurisdiction> - <status>`.
    pub fn summary(&self) -> (r: String)
        ensures
            r@ == self.server_id@ + " ("@ + self.operator.name@ + ") - "@ + self.operator.jurisdiction@ + " - "@
                + status_text(self.status),
    {
        let mut s = self.server_id.clone();
        s.append(" (");
        s.append(self.operator.name.as_str());
        s.append(") - ");
        s.append(self.operator.jurisdiction.as_str());
        s.append(" - ");
        s.append(self.status.as_str());
        s
    }

    /// What a verifier is told about the server, as (key, value) pairs: its
    /// id, Nostr key, SSH fingerprint, status and when it was added, and when
    /// it was last verified if it was.
    pub fn verification_info(&self) -> (r: Vec<(String, String)>)
        requires
            in_date_range(self.added_at as int),
            self.last_verified matches Some(v) ==> in_date_range(v as int),
        ensures
            pair_views(r@) == verification_pairs(*self),
    {
        let mut out: Vec<(String, String)> = Vec::new();
        out.push((String::from_str("server_id"), self.server_id.clone()));
        out.push((String::from_str("nostr_npub"), self.keys.nostr_npub.clone()));
        out.push((String::from_str("ssh_fingerprint"), self.keys.ssh_fingerprint.clone()));
        out.push((String::from_str("status"), String::from_str(self.status.as_str())));
        let added = match rfc3339_utc(self.added_at) {
            Some(t) => t,
            None => String::new(),
        };
        out.push((String::from_str("added_at"), added));
        match self.last_verified {
            Some(v) => {
                let t = match rfc3339_utc(v) {
                    Some(t) => t,
                    None => String::new(),
                };
                out.push((String::from_str("last_verified"), t));
            },
            None => {},
        }
        proof {
            assert(pair_views(out@) =~= verification_pairs(*self));
        }
        out
    }

    /// Converts a registry entry into a server record.
    pub fn from_registry(s: anchor::AuthorizedServer) -> (r: Self)
        ensures
            r == converted_server(s),
    {
        let status = match ServerStatus::parse_status(s.status.as_str()) {
            Ok(st) => st,
            Err(_) => ServerStatus::Inactive,
        };
        AuthorizedServer {
            server_id: s.server_id,
            operator: OperatorInfo { name: s.operator.name, jurisdiction: s.operator.jurisdiction, contact: s.operator.contact },
            keys: ServerKeys { nostr_npub: s.keys.nostr_npub, ssh_fingerprint: s.keys.ssh_fingerprint },
            infrastructure: InfrastructureInfo {
                vpn_ip: s.infrastructure.vpn_ip,
                github_runner: s.infrastructure.github_runner,
                ots_enabled: s.infrastructure.ots_enabled,
            },
            status,
            added_at: s.added_at,
            last_verified: None,
        }
    }
}

impl Clone for OperatorInfo {
    fn clone(&self) -> (r: Self)
        ensures
            r == *self,
    {
        OperatorInfo { name: self.name.clone(), jurisdiction: self.jurisdiction.clone(), contact: clone_opt_string(&self.contact) }
    }
}

impl Clone for ServerKeys {
    fn clone(&self) -> (r: Self)
        ensures
            r == *self,
    {
        ServerKeys { nostr_npub: self.nostr_npub.clone(), ssh_fingerprint: self.ssh_fingerprint.clone() }
    }
}

impl Clone for InfrastructureInfo {
    fn clone(&self) -> (r: Self)
        ensures
            r == *self,
    {
        InfrastructureInfo { vpn_ip: clone_opt_string(&self.vpn_ip), github_runner: self.github_runner, ots_enabled: self.ots_enabled }
    }
}

impl Clone for AuthorizedServer {
    fn clone(&self) -> (r: Self)
        ensures
            r == *self,
    {
        AuthorizedServer {
            server_id: self.server_id.clone(),
            operator: self.operator.clone(),
            keys: self.keys.clone(),
            infrastructure: self.infrastructure.clone(),
            status: self.status,
            added_at: self.added_at,
            last_verified: self.last_verified,
        }
    }
}

/// What an approval asks for.
#[derive(Debug, Clone, Copy, PartialEq, Eq, Structural)]
pub enum ServerAction {
    Add,
    Remove,
    Compromise,
}

/// The text of an action.
pub open spec fn action_text(a: ServerAction) -> Seq<char> {
    match a {
        ServerAction::Add => "add"@,
        ServerAction::Remove => "remove"@,
        ServerAction::Compromise => "compromise"@,
    }
}

impl ServerAction {
    /// The action as text.
    pub fn as_str(&self) -> (r: &'static str)
        ensures
            r@ == action_text(*self),
    {
        match self {
            ServerAction::Add => "add",
            ServerAction::Remove => "remove",
            ServerAction::Compromise => "compromise",
        }
    }

    /// Parses an action; anything else is refused with
    /// `Invalid server action: <text>`.
    pub fn parse_action(s: &str) -> (r: Result<ServerAction, String>)
        ensures
            s@ == "add"@ ==> r == Ok::<ServerAction, String>(ServerAction::Add),
            s@ == "remove"@ ==> r == Ok::<ServerAction, String>(ServerAction::Remove),
            s@ == "compromise"@ ==> r == Ok::<ServerAction, String>(ServerAction::Compromise),
            s@ != "add"@ && s@ != "remove"@ && s@ != "compromise"@ ==> (r matches Err(m) && m@ == "Invalid server action: "@ + s@),
    {
        proof {
            reveal_strlit("add");
            reveal_strlit("remove");
            reveal_strlit("compromise");
            assert("add"@ != "remove"@) by { assert("add"@.len() != "remove"@.len()); }
            assert("add"@ != "compromise"@) by { assert("add"@.len() != "compromise"@.len()); }
            assert("remove"@ != "compromise"@) by { assert("remove"@.len() != "compromise"@.len()); }
        }
        if str_eq(s, "add") {
            Ok(ServerAction::Add)
        } else if str_eq(s, "remove") {
            Ok(ServerAction::Remove)
        } else if str_eq(s, "compromise") {
            Ok(ServerAction::Compromise)
        } else {
            let mut m = String::from_str("Invalid server action: ");
            m.append(s);
            Err(m)
        }
    }
}

impl std::str::FromStr for ServerAction {
    type Err = String;

    fn from_str(s: &str) -> (r: Result<ServerAction, String>)
        ensures
            s@ == "add"@ ==> r == Ok::<ServerAction, String>(ServerAction::Add),
            s@ == "remove"@ ==> r == Ok::<ServerAction, String>(ServerAction::Remove),
            s@ == "compromise"@ ==> r == Ok::<ServerAction, String>(ServerAction::Compromise),
            s@ != "add"@ && s@ != "remove"@ && s@ != "compromise"@ ==> (r matches Err(m) && m@ == "Invalid server action: "@ + s@),
    {
        ServerAction::parse_action(s)
    }
}

/// A maintainer's signed approval of a server action.
#[derive(Debug)]
pub struct ServerApproval {
    pub server_id: String,
    pub maintainer_id: i32,
    pub action: ServerAction,
    pub signature: String,
    /// Seconds since the Unix epoch.
    pub timestamp: i64,
}

impl ServerApproval {
    /// An approval made now.
    pub fn new(server_id: String, maintainer_id: i32, action: ServerAction, signature: String) -> (r: Self)
        ensures
            r.server_id == server_id,
            r.maintainer_id == maintainer_id,
            r.action == action,
            r.signature == signature,
    {
        let now = current_unix_time();
        ServerApproval { server_id, maintainer_id, action, signature, timestamp: now }
    }
}

} // verus!
