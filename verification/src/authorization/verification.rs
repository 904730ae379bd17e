//! Checks of a server against the authorized-server list of a registry,
//! selections over that list, and validation of a server's configuration.

use vstd::prelude::*;
use vstd::string::*;
use crate::authorization::server::{converted_server, status_from_text, status_text, AuthorizedServer, ServerStatus};
use crate::ots::anchor;
use crate::ots::anchor::GovernanceRegistry;
use crate::text::{dec_nat, is_prefix, starts_with, str_eq, u64_to_string};

verus! {

/// `i` is the first position of `s` at which `p` holds.
pub open spec fn is_first<A>(s: Seq<A>, i: int, p: spec_fn(A) -> bool) -> bool {
    0 <= i < s.len() && p(s[i]) && forall|j: int| 0 <= j < i ==> !p(#[trigger] s[j])
}

/// `p` holds nowhere in `s`.
pub open spec fn none_match<A>(s: Seq<A>, p: spec_fn(A) -> bool) -> bool {
    forall|j: int| 0 <= j < s.len() ==> !p(#[trigger] s[j])
}

/// The first position at which a predicate holds is unique.
pub proof fn lemma_first_unique<A>(s: Seq<A>, i: int, k: int, p: spec_fn(A) -> bool)
    requires
        is_first(s, i, p),
        is_first(s, k, p),
    ensures
        i == k,
{
    if i < k {
        assert(!p(s[i]));
    } else if k < i {
        assert(!p(s[k]));
    }
}

/// The server has the given id.
pub open spec fn has_id(id: Seq<char>) -> spec_fn(anchor::AuthorizedServer) -> bool {
    |s: anchor::AuthorizedServer| s.server_id@ == id
}

/// The server has the given Nostr key.
pub open spec fn has_npub(npub: Seq<char>) -> spec_fn(anchor::AuthorizedServer) -> bool {
    |s: anchor::AuthorizedServer| s.keys.nostr_npub@ == npub
}

/// The server has the given id and the given Nostr key.
pub open spec fn has_id_npub(id: Seq<char>, npub: Seq<char>) -> spec_fn(anchor::AuthorizedServer) -> bool {
    |s: anchor::AuthorizedServer| s.server_id@ == id && s.keys.nostr_npub@ == npub
}

/// Registry servers whose status text is `t`, converted, in list order.
pub open spec fn servers_with_status(s: Seq<anchor::AuthorizedServer>, t: Seq<char>) -> Seq<AuthorizedServer>
    decreases s.len(),
{
    if s.len() == 0 {
        Seq::empty()
    } else {
        let rest = servers_with_status(s.drop_last(), t);
        if s.last().status@ == t { rest.push(converted_server(s.last())) } else { rest }
    }
}

/// Why a server failed authorization outright.
#[derive(Debug, Clone, PartialEq, Eq)]
pub enum AuthorizationError {
    /// The server with this id is marked compromised.
    Compromised(String),
}

impl AuthorizationError {
    /// `Server <id> is marked as compromised`.
    pub fn to_string(&self) -> (r: String)
        ensures
            self matches AuthorizationError::Compromised(id) && r@ == "Server "@ + id@ + " is marked as compromised"@,
    {
        match self {
            AuthorizationError::Compromised(id) => {
                let mut s = String::from_str("Server ");
                s.append(id.as_str());
                s.append(" is marked as compromised");
                s
            },
        }
    }
}

fn find_by_id_npub(servers: &Vec<anchor::AuthorizedServer>, id: &str, npub: &str) -> (r: Option<usize>)
    ensures
        r matches Some(i) ==> is_first(servers@, i as int, has_id_npub(id@, npub@)),
        r is None ==> none_match(servers@, has_id_npub(id@, npub@)),
{
    let n = servers.len();
    let mut i: usize = 0;
    while i < n
        invariant
            n == servers@.len(),
            i <= n,
            forall|j: int| 0 <= j < i ==> !has_id_npub(id@, npub@)(#[trigger] servers@[j]),
        decreases n - i,
    {
        if str_eq(servers[i].server_id.as_str(), id) && str_eq(servers[i].keys.nostr_npub.as_str(), npub) {
            return Some(i);
        }
        i = i + 1;
    }
    None
}

fn find_by_id(servers: &Vec<anchor::AuthorizedServer>, id: &str) -> (r: Option<usize>)
    ensures
        r matches Some(i) ==> is_first(servers@, i as int, has_id(id@)),
        r is None ==> none_match(servers@, has_id(id@)),
{
    let n = servers.len();
    let mut i: usize = 0;
    while i < n
        invariant
            n == servers@.len(),
            i <= n,
            forall|j: int| 0 <= j < i ==> !has_id(id@)(#[trigger] servers@[j]),
        decreases n - i,
    {
        if str_eq(servers[i].server_id.as_str(), id) {
            return Some(i);
        }
        i = i + 1;
    }
    None
}

fn find_by_npub(servers: &Vec<anchor::AuthorizedServer>, npub: &str) -> (r: Option<usize>)
    ensures
        r matches Some(i) ==> is_first(servers@, i as int, has_npub(npub@)),
        r is None ==> none_match(servers@, has_npub(npub@)),
{
    let n = servers.len();
    let mut i: usize = 0;
    while i < n
        invariant
            n == servers@.len(),
            i <= n,
            forall|j: int| 0 <= j < i ==> !has_npub(npub@)(#[trigger] servers@[j]),
        decreases n - i,
    {
        if str_eq(servers[i].keys.nostr_npub.as_str(), npub) {
            return Some(i);
        }
        i = i + 1;
    }
    None
}

/// Is the server with this id and key authorized? The first listed server
/// with both decides: active means yes, compromised is an error, any other
/// status means no; no such server means no.
pub fn verify_server_authorization(server_id: &str, nostr_npub: &str, registry: &GovernanceRegistry) -> (r: Result<bool, AuthorizationError>)
    ensures
        none_match(registry.authorized_servers@, has_id_npub(server_id@, nostr_npub@)) ==> r == Ok::<bool, AuthorizationError>(false),
        forall|i: int| #[trigger] is_first(registry.authorized_servers@, i, has_id_npub(server_id@, nostr_npub@)) ==> {
            let st = registry.authorized_servers@[i].status@;
            &&& st == "active"@ ==> r == Ok::<bool, AuthorizationError>(true)
            &&& st == "compromised"@ ==> (r matches Err(AuthorizationError::Compromised(id)) && id@ == server_id@)
            &&& (st != "active"@ && st != "compromised"@) ==> r == Ok::<bool, AuthorizationError>(false)
        },
{
    match find_by_id_npub(&registry.authorized_servers, server_id, nostr_npub) {
        None => Ok(false),
        Some(i) => {
            let s = &registry.authorized_servers[i];
            proof {
                reveal_strlit("active");
                reveal_strlit("compromised");
                assert("active"@ != "compromised"@) by { assert("active"@.len() != "compromised"@.len()); }
                assert forall|j: int| #[trigger] is_first(registry.authorized_servers@, j, has_id_npub(server_id@, nostr_npub@))
                    implies j == i by {
                    lemma_first_unique(registry.authorized_servers@, j, i as int, has_id_npub(server_id@, nostr_npub@));
                }
            }
            if str_eq(s.status.as_str(), "active") {
                Ok(true)
            } else if str_eq(s.status.as_str(), "compromised") {
                Err(AuthorizationError::Compromised(String::from_str(server_id)))
            } else {
                Ok(false)
            }
        },
    }
}

/// Detailed outcome of a server check.
#[derive(Debug)]
pub struct ServerVerificationResult {
    pub is_authorized: bool,
    pub is_active: bool,
    pub is_compromised: bool,
    pub error_message: Option<String>,
    pub server_info: Option<anchor::AuthorizedServer>,
}

/// The detailed outcome for the server `s` found by id, checked against `npub`.
pub open spec fn detailed_outcome(s: anchor::AuthorizedServer, npub: Seq<char>, r: ServerVerificationResult) -> bool {
    let active = s.status@ == "active"@;
    let compromised = s.status@ == "compromised"@;
    &&& r.is_active == active
    &&& r.is_compromised == compromised
    &&& r.server_info == Some(s)
    &&& if s.keys.nostr_npub@ != npub {
        &&& !r.is_authorized
        &&& r.error_message matches Some(m) && m@ == "NPUB does not match"@
    } else {
        &&& r.is_authorized == (active && !compromised)
        &&& compromised ==> (r.error_message matches Some(m) && m@ == "Server is marked as compromised"@)
        &&& (!compromised && !active) ==> (r.error_message matches Some(m) && m@ == "Server is not active (status: "@ + s.status@ + ")"@)
        &&& (active && !compromised) ==> r.error_message is None
    }
}

/// Checks the first server listed with this id: whether it is active or
/// compromised, whether its key matches, and why it is not authorized.
pub fn verify_server_authorization_detailed(server_id: &str, nostr_npub: &str, registry: &GovernanceRegistry) -> (r: ServerVerificationResult)
    ensures
        none_match(registry.authorized_servers@, has_id(server_id@)) ==> {
            &&& !r.is_authorized && !r.is_active && !r.is_compromised
            &&& r.error_message matches Some(m) && m@ == "Server not found in authorized list"@
            &&& r.server_info is None
        },
        forall|i: int| #[trigger] is_first(registry.authorized_servers@, i, has_id(server_id@))
            ==> detailed_outcome(registry.authorized_servers@[i], nostr_npub@, r),
{
    match find_by_id(&registry.authorized_servers, server_id) {
        None => ServerVerificationResult {
            is_authorized: false,
            is_active: false,
            is_compromised: false,
            error_message: Some(String::from_str("Server not found in authorized list")),
            server_info: None,
        },
        Some(i) => {
            let s = &registry.authorized_servers[i];
            let is_active = str_eq(s.status.as_str(), "active");
            let is_compromised = str_eq(s.status.as_str(), "compromised");
            if !str_eq(s.keys.nostr_npub.as_str(), nostr_npub) {
                return ServerVerificationResult {
                    is_authorized: false,
                    is_active,
                    is_compromised,
                    error_message: Some(String::from_str("NPUB does not match")),
                    server_info: Some(s.clone()),
                };
            }
            let is_authorized = is_active && !is_compromised;
            let error_message = if is_compromised {
                Some(String::from_str("Server is marked as compromised"))
            } else if !is_active {
                let mut m = String::from_str("Server is not active (status: ");
                m.append(s.status.as_str());
                m.append(")");
                Some(m)
            } else {
                None
            };
            ServerVerificationResult { is_authorized, is_active, is_compromised, error_message, server_info: Some(s.clone()) }
        },
    }
}

/// The one-line verdict of a result.
pub open spec fn result_summary(r: ServerVerificationResult) -> Seq<char> {
    if r.is_authorized {
        "✅ Server is authorized and active"@
    } else if r.is_compromised {
        "❌ Server is compromised"@
    } else if !r.is_active {
        "⚠️ Server is not active"@
    } else {
        "❌ Server is not authorized"@
    }
}

/// A tick or a cross.
pub open spec fn mark(b: bool) -> Seq<char> {
    if b { "✅"@ } else { "❌"@ }
}

/// The status lines of a result, joined by newlines.
pub open spec fn result_details(r: ServerVerificationResult) -> Seq<char> {
    "Authorized: "@ + mark(r.is_authorized) + "\n"@
        + "Active: "@ + mark(r.is_active) + "\n"@
        + "Compromised: "@ + (if r.is_compromised { "⚠️"@ } else { "✅"@ })
        + (match r.error_message { Some(e) => "\n"@ + "Error: "@ + e@, None => Seq::empty() })
        + (match r.server_info { Some(s) => "\n"@ + "Server: "@ + s.server_id@ + " ("@ + s.status@ + ")"@, None => Seq::empty() })
}

impl ServerVerificationResult {
    /// The one-line verdict.
    pub fn summary(&self) -> (r: String)
        ensures
            r@ == result_summary(*self),
    {
        if self.is_authorized {
            String::from_str("✅ Server is authorized and active")
        } else if self.is_compromised {
            String::from_str("❌ Server is compromised")
        } else if !self.is_active {
            String::from_str("⚠️ Server is not active")
        } else {
            String::from_str("❌ Server is not authorized")
        }
    }

    /// Every check of the result, one per line.
    pub fn detailed_status(&self) -> (r: String)
        ensures
            r@ == result_details(*self),
    {
        let mut s = String::from_str("Authorized: ");
        s.append(if self.is_authorized { "✅" } else { "❌" });
        s.append("\n");
        s.append("Active: ");
        s.append(if self.is_active { "✅" } else { "❌" });
        s.append("\n");
        s.append("Compromised: ");
        s.append(if self.is_compromised { "⚠️" } else { "✅" });
        match &self.error_message {
            Some(e) => {
                s.append("\n");
                s.append("Error: ");
                s.append(e.as_str());
            },
            None => {},
        }
        match &self.server_info {
            Some(sv) => {
                s.append("\n");
                s.append("Server: ");
                s.append(sv.server_id.as_str());
                s.append(" (");
                s.append(sv.status.as_str());
                s.append(")");
            },
            None => {},
        }
        s
    }
}

fn servers_with_status_text(servers: &Vec<anchor::AuthorizedServer>, t: &str) -> (r: Vec<AuthorizedServer>)
    ensures
        r@ == servers_with_status(servers@, t@),
{
    let mut res: Vec<AuthorizedServer> = Vec::new();
    let n = servers.len();
    let mut i: usize = 0;
    while i < n
        invariant
            n == servers@.len(),
            i <= n,
            res@ == servers_with_status(servers@.take(i as int), t@),
        decreases n - i,
    {
        proof {
            assert(servers@.take(i + 1).drop_last() =~= servers@.take(i as int));
            assert(servers@.take(i + 1).last() == servers@[i as int]);
        }
        if str_eq(servers[i].status.as_str(), t) {
            res.push(AuthorizedServer::from_registry(servers[i].clone()));
        }
        i = i + 1;
    }
    proof {
        assert(servers@.take(n as int) =~= servers@);
    }
    res
}

/// The active servers of the registry.
pub fn get_authorized_servers(registry: &GovernanceRegistry) -> (r: Vec<AuthorizedServer>)
    ensures
        r@ == servers_with_status(registry.authorized_servers@, "active"@),
{
    servers_with_status_text(&registry.authorized_servers, "active")
}

/// The servers of the registry with the given status.
pub fn get_servers_by_status(registry: &GovernanceRegistry, status: ServerStatus) -> (r: Vec<AuthorizedServer>)
    ensures
        r@ == servers_with_status(registry.authorized_servers@, status_text(status)),
{
    servers_with_status_text(&registry.authorized_servers, status.as_str())
}

/// The first server with this id.
pub fn get_server_by_id(registry: &GovernanceRegistry, server_id: &str) -> (r: Option<AuthorizedServer>)
    ensures
        none_match(registry.authorized_servers@, has_id(server_id@)) ==> r is None,
        forall|i: int| #[trigger] is_first(registry.authorized_servers@, i, has_id(server_id@))
            ==> r == Some(converted_server(registry.authorized_servers@[i])),
{
    match find_by_id(&registry.authorized_servers, server_id) {
        Some(i) => Some(AuthorizedServer::from_registry(registry.authorized_servers[i].clone())),
        None => None,
    }
}

/// The first server with this Nostr key.
pub fn get_server_by_npub(registry: &GovernanceRegistry, nostr_npub: &str) -> (r: Option<AuthorizedServer>)
    ensures
        none_match(registry.authorized_servers@, has_npub(nostr_npub@)) ==> r is None,
        forall|i: int| #[trigger] is_first(registry.authorized_servers@, i, has_npub(nostr_npub@))
            ==> r == Some(converted_server(registry.authorized_servers@[i])),
{
    match find_by_npub(&registry.authorized_servers, nostr_npub) {
        Some(i) => Some(AuthorizedServer::from_registry(registry.authorized_servers[i].clone())),
        None => None,
    }
}

/// Is a server with this id listed?
pub fn server_exists(registry: &GovernanceRegistry, server_id: &str) -> (r: bool)
    ensures
        r == !none_match(registry.authorized_servers@, has_id(server_id@)),
{
    match find_by_id(&registry.authorized_servers, server_id) {
        Some(i) => {
            assert(has_id(server_id@)(registry.authorized_servers@[i as int]));
            true
        },
        None => false,
    }
}

/// Number of listed servers, overall and per status.
#[derive(Debug, Clone)]
pub struct ServerStatistics {
    pub total_servers: usize,
    pub active_servers: usize,
    pub compromised_servers: usize,
    pub inactive_servers: usize,
    pub retiring_servers: usize,
}

/// Counts the registry's servers, overall and per status.
pub fn get_server_statistics(registry: &GovernanceRegistry) -> (r: ServerStatistics)
    ensures
        r.total_servers == registry.authorized_servers@.len(),
        r.active_servers == servers_with_status(registry.authorized_servers@, "active"@).len(),
        r.compromised_servers == servers_with_status(registry.authorized_servers@, "compromised"@).len(),
        r.inactive_servers == servers_with_status(registry.authorized_servers@, "inactive"@).len(),
        r.retiring_servers == servers_with_status(registry.authorized_servers@, "retiring"@).len(),
        r.active_servers + r.compromised_servers + r.inactive_servers + r.retiring_servers <= r.total_servers,
        r.active_servers + r.compromised_servers + r.inactive_servers + r.retiring_servers == r.total_servers
            <==> forall|k: int| 0 <= k < registry.authorized_servers@.len()
                ==> (status_from_text(#[trigger] registry.authorized_servers@[k].status@) is Some),
{
    proof {
        lemma_status_counts(registry.authorized_servers@);
    }
    let total_servers = registry.authorized_servers.len();
    let active_servers = get_servers_by_status(registry, ServerStatus::Active).len();
    let compromised_servers = get_servers_by_status(registry, ServerStatus::Compromised).len();
    let inactive_servers = get_servers_by_status(registry, ServerStatus::Inactive).len();
    let retiring_servers = get_servers_by_status(registry, ServerStatus::Retiring).len();
    ServerStatistics { total_servers, active_servers, compromised_servers, inactive_servers, retiring_servers }
}

/// The four per-status counts of a server list added together.
pub open spec fn status_count_sum(s: Seq<anchor::AuthorizedServer>) -> nat {
    servers_with_status(s, "active"@).len() + servers_with_status(s, "compromised"@).len()
        + servers_with_status(s, "inactive"@).len() + servers_with_status(s, "retiring"@).len()
}

/// The per-status counts of the statistics never add up to more than the
/// total, and add up to the total exactly when every server's status is one
/// of the four known ones.
pub proof fn lemma_status_counts(s: Seq<anchor::AuthorizedServer>)
    ensures
        status_count_sum(s) <= s.len(),
        status_count_sum(s) == s.len() <==> forall|k: int| 0 <= k < s.len() ==> (status_from_text(#[trigger] s[k].status@) is Some),
    decreases s.len(),
{
    reveal_strlit("active");
    reveal_strlit("retiring");
    reveal_strlit("inactive");
    reveal_strlit("compromised");
    assert("active"@ != "retiring"@) by { assert("active"@[0] != "retiring"@[0]); }
    assert("active"@ != "inactive"@) by { assert("active"@[0] != "inactive"@[0]); }
    assert("retiring"@ != "inactive"@) by { assert("retiring"@[0] != "inactive"@[0]); }
    assert("active"@ != "compromised"@) by { assert("active"@[0] != "compromised"@[0]); }
    assert("retiring"@ != "compromised"@) by { assert("retiring"@[0] != "compromised"@[0]); }
    assert("inactive"@ != "compromised"@) by { assert("inactive"@[0] != "compromised"@[0]); }
    if s.len() > 0 {
        let p = s.drop_last();
        lemma_status_counts(p);
        let t = s.last().status@;
        let known = status_from_text(t) is Some;
        if known {
            assert(status_count_sum(s) == status_count_sum(p) + 1);
        } else {
            assert(status_count_sum(s) == status_count_sum(p));
        }
        if status_count_sum(s) == s.len() {
            assert forall|k: int| 0 <= k < s.len() implies (status_from_text(#[trigger] s[k].status@) is Some) by {
                if k < p.len() {
                    assert(s[k] == p[k]);
                }
            }
        }
        if forall|k: int| 0 <= k < s.len() ==> (status_from_text(#[trigger] s[k].status@) is Some) {
            assert(status_from_text(s[s.len() - 1].status@) is Some);
            assert forall|k: int| 0 <= k < p.len() implies (status_from_text(#[trigger] p[k].status@) is Some) by {
                assert(s[k] == p[k]);
            }
        }
    }
}

impl ServerStatistics {
    /// `Servers: <t> total, <a> active, <c> compromised, <i> inactive, <r> retiring`.
    pub fn summary(&self) -> (r: String)
        ensures
            r@ == "Servers: "@ + dec_nat(self.total_servers as nat) + " total, "@ + dec_nat(self.active_servers as nat)
                + " active, "@ + dec_nat(self.compromised_servers as nat) + " compromised, "@
                + dec_nat(self.inactive_servers as nat) + " inactive, "@ + dec_nat(self.retiring_servers as nat)
                + " retiring"@,
    {
        let mut s = String::from_str("Servers: ");
        let t = u64_to_string(self.total_servers as u64);
        s.append(t.as_str());
        s.append(" total, ");
        let a = u64_to_string(self.active_servers as u64);
        s.append(a.as_str());
        s.append(" active, ");
        let c = u64_to_string(self.compromised_servers as u64);
        s.append(c.as_str());
        s.append(" compromised, ");
        let i = u64_to_string(self.inactive_servers as u64);
        s.append(i.as_str());
        s.append(" inactive, ");
        let r = u64_to_string(self.retiring_servers as u64);
        s.append(r.as_str());
        s.append(" retiring");
        s
    }
}

/// The first defect of a server configuration.
#[derive(Debug, Clone, Copy, PartialEq, Eq)]
pub enum ServerConfigError {
    EmptyServerId,
    EmptyOperatorName,
    EmptyOperatorJurisdiction,
    EmptyNostrNpub,
    EmptySshFingerprint,
    InvalidNpubFormat,
    InvalidSshFingerprintFormat,
}

/// The defect reported for a configuration, checked in this order; `None`
/// when the configuration is valid.
pub open spec fn config_defect(s: anchor::AuthorizedServer) -> Option<ServerConfigError> {
    if s.server_id@.len() == 0 { Some(ServerConfigError::EmptyServerId) }
    else if s.operator.name@.len() == 0 { Some(ServerConfigError::EmptyOperatorName) }
    else if s.operator.jurisdiction@.len() == 0 { Some(ServerConfigError::EmptyOperatorJurisdiction) }
    else if s.keys.nostr_npub@.len() == 0 { Some(ServerConfigError::EmptyNostrNpub) }
    else if s.keys.ssh_fingerprint@.len() == 0 { Some(ServerConfigError::EmptySshFingerprint) }
    else if !is_prefix("npub1"@, s.keys.nostr_npub@) { Some(ServerConfigError::InvalidNpubFormat) }
    else if !is_prefix("SHA256:"@, s.keys.ssh_fingerprint@) { Some(ServerConfigError::InvalidSshFingerprintFormat) }
    else { None }
}

/// The message of a configuration defect.
pub open spec fn config_error_text(e: ServerConfigError) -> Seq<char> {
    match e {
        ServerConfigError::EmptyServerId => "Server ID cannot be empty"@,
        ServerConfigError::EmptyOperatorName => "Operator name cannot be empty"@,
        ServerConfigError::EmptyOperatorJurisdiction => "Operator jurisdiction cannot be empty"@,
        ServerConfigError::EmptyNostrNpub => "Nostr NPUB cannot be empty"@,
        ServerConfigError::EmptySshFingerprint => "SSH fingerprint cannot be empty"@,
        ServerConfigError::InvalidNpubFormat => "Invalid NPUB format"@,
        ServerConfigError::InvalidSshFingerprintFormat => "Invalid SSH fingerprint format"@,
    }
}

impl ServerConfigError {
    /// The message of the defect.
    pub fn message(&self) -> (r: &'static str)
        ensures
            r@ == config_error_text(*self),
    {
        match self {
            ServerConfigError::EmptyServerId => "Server ID cannot be empty",
            ServerConfigError::EmptyOperatorName => "Operator name cannot be empty",
            ServerConfigError::EmptyOperatorJurisdiction => "Operator jurisdiction cannot be empty",
            ServerConfigError::EmptyNostrNpub => "Nostr NPUB cannot be empty",
            ServerConfigError::EmptySshFingerprint => "SSH fingerprint cannot be empty",
            ServerConfigError::InvalidNpubFormat => "Invalid NPUB format",
            ServerConfigError::InvalidSshFingerprintFormat => "Invalid SSH fingerprint format",
        }
    }
}

/// Validates a server's configuration: all fields present, the key an
/// `npub1` key, the fingerprint a `SHA256:` fingerprint.
pub fn validate_server_config(server: &anchor::AuthorizedServer) -> (r: Result<(), ServerConfigError>)
    ensures
        config_defect(*server) is None ==> r is Ok,
        config_defect(*server) matches Some(d) ==> r == Err::<(), ServerConfigError>(d),
{
    if server.server_id.as_str().unicode_len() == 0 {
        return Err(ServerConfigError::EmptyServerId);
    }
    if server.operator.name.as_str().unicode_len() == 0 {
        return Err(ServerConfigError::EmptyOperatorName);
    }
    if server.operator.jurisdiction.as_str().unicode_len() == 0 {
        return Err(ServerConfigError::EmptyOperatorJurisdiction);
    }
    if server.keys.nostr_npub.as_str().unicode_len() == 0 {
        return Err(ServerConfigError::EmptyNostrNpub);
    }
    if server.keys.ssh_fingerprint.as_str().unicode_len() == 0 {
        return Err(ServerConfigError::EmptySshFingerprint);
    }
    if !starts_with(server.keys.nostr_npub.as_str(), "npub1") {
        return Err(ServerConfigError::InvalidNpubFormat);
    }
    if !starts_with(server.keys.ssh_fingerprint.as_str(), "SHA256:") {
        return Err(ServerConfigError::InvalidSshFingerprintFormat);
    }
    Ok(())
}

} // verus!
