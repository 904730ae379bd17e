//! The fork executor: the current ruleset, the rulesets available to fork
//! to (keyed by id, `current` naming the one in force), the validation of a
//! fork target, and the switch to it.

use vstd::prelude::*;
use vstd::string::*;
use vstd::utf8::encode_utf8;
use crate::digest::{sha256, spec_sha256};
use crate::error::GovernanceError;
use crate::fork::types::{version_text, Ruleset, RulesetVersion};
use crate::fork::versioning::RulesetVersioning;
use crate::json::{json_has_key, spec_json_has_key};
use crate::text::{hex_encode, str_eq, to_hex};

verus! {

/// The key at position `i` of a keyed list.
pub open spec fn key_at(s: Seq<(String, Ruleset)>, i: int) -> Seq<char> {
    s[i].0@
}

/// No key occurs twice.
pub open spec fn keys_unique(s: Seq<(String, Ruleset)>) -> bool {
    forall|i: int, j: int| 0 <= i < j < s.len() ==> key_at(s, i) != key_at(s, j)
}

/// Some entry has key `k`.
pub open spec fn has_key(s: Seq<(String, Ruleset)>, k: Seq<char>) -> bool {
    exists|i: int| 0 <= i < s.len() && key_at(s, i) == k
}

/// The ruleset under key `k`, where there is one.
pub open spec fn ruleset_for(s: Seq<(String, Ruleset)>, k: Seq<char>) -> Option<Ruleset> {
    if has_key(s, k) {
        Some(s[choose|i: int| 0 <= i < s.len() && key_at(s, i) == k].1)
    } else {
        None
    }
}

/// With unique keys, the entry at `i` is the one `ruleset_for` gives.
proof fn lemma_ruleset_for_at(s: Seq<(String, Ruleset)>, i: int)
    requires
        keys_unique(s),
        0 <= i < s.len(),
    ensures
        ruleset_for(s, key_at(s, i)) == Some(s[i].1),
{
    let k = key_at(s, i);
    assert(has_key(s, k));
    let j = choose|j: int| 0 <= j < s.len() && key_at(s, j) == k;
    if j != i {
        if j < i {
            assert(key_at(s, j) != key_at(s, i));
        } else {
            assert(key_at(s, i) != key_at(s, j));
        }
    }
}

/// The hash of a configuration: the hex SHA-256 of its UTF-8 text.
pub open spec fn config_hash(config: Seq<char>) -> Seq<char> {
    hex_encode(spec_sha256(encode_utf8(config)))
}

/// The key under which the ruleset in force is also listed.
pub open spec fn current_key() -> Seq<char> {
    "current"@
}

/// The first defect of a fork target, given the ruleset in force.
pub open spec fn target_defect(current: Option<Ruleset>, target: Ruleset) -> Option<Seq<char>> {
    if !spec_json_has_key(target.config@, "action_tiers"@) {
        Some("Ruleset missing action_tiers configuration"@)
    } else if !spec_json_has_key(target.config@, "economic_nodes"@) {
        Some("Ruleset missing economic_nodes configuration"@)
    } else if !spec_json_has_key(target.config@, "maintainers"@) {
        Some("Ruleset missing maintainers configuration"@)
    } else if current matches Some(c) && c.version.major != target.version.major {
        Some("Incompatible ruleset version: "@ + version_text(current->0.version) + " -> "@ + version_text(target.version))
    } else {
        None
    }
}

/// A fork target passes exactly when its configuration has the
/// `action_tiers`, `economic_nodes` and `maintainers` sections and, where a
/// ruleset is in force, its major version is the same.
pub proof fn lemma_target_accepted_iff(current: Option<Ruleset>, target: Ruleset)
    ensures
        target_defect(current, target) is None <==> (spec_json_has_key(target.config@, "action_tiers"@)
            && spec_json_has_key(target.config@, "economic_nodes"@)
            && spec_json_has_key(target.config@, "maintainers"@)
            && (current matches Some(c) ==> c.version.major == target.version.major)),
{
}

/// The status of the executor at a given time.
#[derive(Debug)]
pub struct ForkStatus {
    pub current_ruleset: Option<String>,
    pub available_rulesets: Vec<String>,
    pub fork_in_progress: bool,
    /// Seconds since the Unix epoch.
    pub last_check: i64,
}

/// Executes governance forks and keeps the rulesets they can switch to.
pub struct ForkExecutor {
    pub export_path: String,
    pub current_ruleset: Option<Ruleset>,
    pub available_rulesets: Vec<(String, Ruleset)>,
    pub versioning: RulesetVersioning,
}

impl ForkExecutor {
    /// The keys of the available rulesets are unique.
    pub open spec fn wf(&self) -> bool {
        keys_unique(self.available_rulesets@)
    }

    /// An executor with no ruleset yet.
    pub fn new(export_path: &str) -> (r: Result<Self, GovernanceError>)
        ensures
            r matches Ok(ex) && ex.wf() && ex.export_path@ == export_path@
                && ex.current_ruleset is None && ex.available_rulesets@.len() == 0,
    {
        Ok(ForkExecutor {
            export_path: String::from_str(export_path),
            current_ruleset: None,
            available_rulesets: Vec::new(),
            versioning: RulesetVersioning::new(),
        })
    }

    /// The hash of a configuration text.
    pub fn calculate_config_hash(config: &str) -> (r: String)
        ensures
            r@ == config_hash(config@),
    {
        let bytes = config.as_bytes_vec();
        let digest = sha256(bytes.as_slice());
        to_hex(digest.as_slice())
    }

    /// The ruleset of the configuration in force, at version 1.0.0.
    pub fn create_ruleset_from_config(config: String, ruleset_id: &str, created_at: i64) -> (r: Ruleset)
        ensures
            r.id@ == ruleset_id@,
            r.name@ == "Governance Ruleset "@ + ruleset_id@,
            r.version == (RulesetVersion { major: 1, minor: 0, patch: 0 }),
            r.hash@ == config_hash(config@),
            r.created_at == created_at,
            r.config == config,
            r.description matches Some(d) && d@ == "Current governance configuration"@,
    {
        let hash = Self::calculate_config_hash(config.as_str());
        let mut name = String::from_str("Governance Ruleset ");
        name.append(ruleset_id);
        Ruleset {
            id: String::from_str(ruleset_id),
            name,
            version: RulesetVersion::new(1, 0, 0),
            hash,
            created_at,
            config,
            description: Some(String::from_str("Current governance configuration")),
        }
    }

    /// The ruleset of an export found in the export directory.
    pub fn ruleset_from_export(ruleset_id: &str, version: RulesetVersion, config: String, created_at: i64, source_repository: &str) -> (r: Ruleset)
        ensures
            r.id@ == ruleset_id@,
            r.name@ == "Ruleset "@ + ruleset_id@,
            r.version == version,
            r.hash@ == config_hash(config@),
            r.created_at == created_at,
            r.config == config,
            r.description matches Some(d) && d@ == "Exported ruleset from "@ + source_repository@,
    {
        let hash = Self::calculate_config_hash(config.as_str());
        let mut name = String::from_str("Ruleset ");
        name.append(ruleset_id);
        let mut description = String::from_str("Exported ruleset from ");
        description.append(source_repository);
        Ruleset {
            id: String::from_str(ruleset_id),
            name,
            version,
            hash,
            created_at,
            config,
            description: Some(description),
        }
    }

    /// Lists `ruleset` under `key`, replacing what was listed there.
    pub fn insert_ruleset(&mut self, key: &str, ruleset: Ruleset)
        requires
            old(self).wf(),
        ensures
            final(self).wf(),
            final(self).export_path == old(self).export_path,
            final(self).current_ruleset == old(self).current_ruleset,
            ruleset_for(final(self).available_rulesets@, key@) == Some(ruleset),
            forall|k: Seq<char>| k != key@ ==> ruleset_for(final(self).available_rulesets@, k)
                == ruleset_for(old(self).available_rulesets@, k),
    {
        let ghost old_s = self.available_rulesets@;
        let n = self.available_rulesets.len();
        let mut i: usize = 0;
        while i < n
            invariant
                n == self.available_rulesets@.len(),
                *self == *old(self),
                self.available_rulesets@ == old_s,
                keys_unique(old_s),
                i <= n,
                forall|j: int| 0 <= j < i ==> key_at(old_s, j) != key@,
            decreases n - i,
        {
            if str_eq(self.available_rulesets[i].0.as_str(), key) {
                let entry = (String::from_str(key), ruleset);
                self.available_rulesets.set(i, entry);
                proof {
                    let s = self.available_rulesets@;
                    assert(s == old_s.update(i as int, entry));
                    assert(key_at(old_s, i as int) == key@);
                    assert forall|a: int| 0 <= a < s.len() implies key_at(s, a) == key_at(old_s, a) by {
                        if a == i {
                            assert(key_at(s, a) == key@);
                        }
                    }
                    assert forall|a: int, b: int| 0 <= a < b < s.len() implies key_at(s, a) != key_at(s, b) by {
                        assert(key_at(s, a) == key_at(old_s, a));
                        assert(key_at(s, b) == key_at(old_s, b));
                    }
                    lemma_ruleset_for_at(s, i as int);
                    assert forall|k: Seq<char>| k != key@ implies ruleset_for(s, k) == ruleset_for(old_s, k) by {
                        if has_key(old_s, k) {
                            let j = choose|j: int| 0 <= j < old_s.len() && key_at(old_s, j) == k;
                            lemma_ruleset_for_at(old_s, j);
                            assert(key_at(s, j) == k);
                            lemma_ruleset_for_at(s, j);
                        } else {
                            if has_key(s, k) {
                                let j = choose|j: int| 0 <= j < s.len() && key_at(s, j) == k;
                                assert(key_at(old_s, j) == k);
                            }
                        }
                    }
                }
                return;
            }
            i = i + 1;
        }
        let entry = (String::from_str(key), ruleset);
        self.available_rulesets.push(entry);
        proof {
            let s = self.available_rulesets@;
            assert(s == old_s.push(entry));
            assert forall|a: int, b: int| 0 <= a < b < s.len() implies key_at(s, a) != key_at(s, b) by {
                assert(key_at(s, a) == key_at(old_s, a));
                if b < n {
                    assert(key_at(s, b) == key_at(old_s, b));
                } else {
                    assert(key_at(s, b) == key@);
                }
            }
            lemma_ruleset_for_at(s, n as int);
            assert forall|k: Seq<char>| k != key@ implies ruleset_for(s, k) == ruleset_for(old_s, k) by {
                if has_key(old_s, k) {
                    let j = choose|j: int| 0 <= j < old_s.len() && key_at(old_s, j) == k;
                    lemma_ruleset_for_at(old_s, j);
                    assert(key_at(s, j) == k);
                    lemma_ruleset_for_at(s, j);
                } else {
                    if has_key(s, k) {
                        let j = choose|j: int| 0 <= j < s.len() && key_at(s, j) == k;
                        assert(j < n);
                        assert(key_at(old_s, j) == k);
                    }
                }
            }
        }
    }

    /// Puts the governance configuration in force: its ruleset, with id
    /// `current` and created at `now`, becomes the current one and is listed
    /// under `current`.
    pub fn initialize(&mut self, config: String, now: i64)
        requires
            old(self).wf(),
        ensures
            final(self).wf(),
            final(self).export_path == old(self).export_path,
            final(self).current_ruleset matches Some(r) && r.id@ == current_key()
                && r.name@ == "Governance Ruleset "@ + current_key()
                && r.version == (RulesetVersion { major: 1, minor: 0, patch: 0 })
                && r.hash@ == config_hash(config@) && r.created_at == now && r.config == config
                && (r.description matches Some(d) && d@ == "Current governance configuration"@),
            ruleset_for(final(self).available_rulesets@, current_key()) == final(self).current_ruleset,
            forall|k: Seq<char>| k != current_key() ==> ruleset_for(final(self).available_rulesets@, k)
                == ruleset_for(old(self).available_rulesets@, k),
    {
        let ruleset = Self::create_ruleset_from_config(config, "current", now);
        self.perform_fork_transition(&ruleset);
    }

    /// Puts a ruleset in force: it becomes the current one and is listed
    /// under `current`.
    pub fn perform_fork_transition(&mut self, target_ruleset: &Ruleset)
        requires
            old(self).wf(),
        ensures
            final(self).wf(),
            final(self).export_path == old(self).export_path,
            final(self).current_ruleset == Some(*target_ruleset),
            ruleset_for(final(self).available_rulesets@, current_key()) == Some(*target_ruleset),
            forall|k: Seq<char>| k != current_key() ==> ruleset_for(final(self).available_rulesets@, k)
                == ruleset_for(old(self).available_rulesets@, k),
    {
        self.current_ruleset = Some(target_ruleset.clone());
        proof {
            reveal_strlit("current");
        }
        self.insert_ruleset("current", target_ruleset.clone());
    }

    /// Lists a ruleset found in the export directory under its own id.
    pub fn add_available_ruleset(&mut self, ruleset: Ruleset)
        requires
            old(self).wf(),
        ensures
            final(self).wf(),
            final(self).current_ruleset == old(self).current_ruleset,
            ruleset_for(final(self).available_rulesets@, ruleset.id@) == Some(ruleset),
            forall|k: Seq<char>| k != ruleset.id@ ==> ruleset_for(final(self).available_rulesets@, k)
                == ruleset_for(old(self).available_rulesets@, k),
    {
        let key = ruleset.id.clone();
        self.insert_ruleset(key.as_str(), ruleset);
    }

    /// Checks a fork target: its configuration must hold action tiers,
    /// economic nodes and maintainers, and its major version must match the
    /// ruleset in force, if any.
    pub fn validate_ruleset(&self, ruleset: &Ruleset) -> (r: Result<(), GovernanceError>)
        ensures
            match target_defect(self.current_ruleset, *ruleset) {
                None => r is Ok,
                Some(m) => r matches Err(GovernanceError::ConfigError(e)) && e@ == m,
            },
            r is Ok <==> (spec_json_has_key(ruleset.config@, "action_tiers"@)
                && spec_json_has_key(ruleset.config@, "economic_nodes"@)
                && spec_json_has_key(ruleset.config@, "maintainers"@)
                && (self.current_ruleset matches Some(c) ==> c.version.major == ruleset.version.major)),
    {
        let config = ruleset.config.as_str();
        if !json_has_key(config, "action_tiers") {
            return Err(GovernanceError::ConfigError(String::from_str("Ruleset missing action_tiers configuration")));
        }
        if !json_has_key(config, "economic_nodes") {
            return Err(GovernanceError::ConfigError(String::from_str("Ruleset missing economic_nodes configuration")));
        }
        if !json_has_key(config, "maintainers") {
            return Err(GovernanceError::ConfigError(String::from_str("Ruleset missing maintainers configuration")));
        }
        match &self.current_ruleset {
            Some(current) => {
                if !self.versioning.is_compatible(&current.version, &ruleset.version) {
                    let mut m = String::from_str("Incompatible ruleset version: ");
                    let a = current.version.to_string();
                    m.append(a.as_str());
                    m.append(" -> ");
                    let b = ruleset.version.to_string();
                    m.append(b.as_str());
                    return Err(GovernanceError::ConfigError(m));
                }
            },
            None => {},
        }
        Ok(())
    }

    /// The ruleset a fork would switch to, once it is found and validated.
    pub fn check_fork_target(&self, target_ruleset_id: &str) -> (r: Result<Ruleset, GovernanceError>)
        requires
            self.wf(),
        ensures
            match ruleset_for(self.available_rulesets@, target_ruleset_id@) {
                None => r matches Err(GovernanceError::ConfigError(e))
                    && e@ == "Target ruleset not found: "@ + target_ruleset_id@,
                Some(t) => match target_defect(self.current_ruleset, t) {
                    None => r == Ok::<Ruleset, GovernanceError>(t),
                    Some(m) => r matches Err(GovernanceError::ConfigError(e)) && e@ == m,
                },
            },
    {
        let n = self.available_rulesets.len();
        let mut i: usize = 0;
        while i < n
            invariant
                n == self.available_rulesets@.len(),
                keys_unique(self.available_rulesets@),
                i <= n,
                forall|j: int| 0 <= j < i ==> key_at(self.available_rulesets@, j) != target_ruleset_id@,
            decreases n - i,
        {
            if str_eq(self.available_rulesets[i].0.as_str(), target_ruleset_id) {
                proof {
                    lemma_ruleset_for_at(self.available_rulesets@, i as int);
                }
                let target = self.available_rulesets[i].1.clone();
                match self.validate_ruleset(&target) {
                    Ok(()) => return Ok(target),
                    Err(e) => return Err(e),
                }
            }
            i = i + 1;
        }
        let mut m = String::from_str("Target ruleset not found: ");
        m.append(target_ruleset_id);
        Err(GovernanceError::ConfigError(m))
    }

    /// The ruleset in force.
    pub fn get_current_ruleset(&self) -> (r: Option<&Ruleset>)
        ensures
            r == (match self.current_ruleset { Some(c) => Some(&c), None => None::<&Ruleset> }),
    {
        self.current_ruleset.as_ref()
    }

    /// The available rulesets, keyed.
    pub fn get_available_rulesets(&self) -> (r: &Vec<(String, Ruleset)>)
        ensures
            r@ == self.available_rulesets@,
    {
        &self.available_rulesets
    }

    /// Whether a fork is under way; forks are carried out at once, so never.
    pub fn is_fork_in_progress(&self) -> (r: bool)
        ensures
            !r,
    {
        false
    }

    /// The status at the given time: the id in force, the keys listed, and
    /// no fork under way.
    pub fn get_fork_status(&self, now: i64) -> (r: ForkStatus)
        ensures
            r.current_ruleset == (match self.current_ruleset { Some(c) => Some(c.id), None => None::<String> }),
            r.available_rulesets@.len() == self.available_rulesets@.len(),
            forall|i: int| 0 <= i < r.available_rulesets@.len() ==> #[trigger] r.available_rulesets@[i]
                == self.available_rulesets@[i].0,
            !r.fork_in_progress,
            r.last_check == now,
    {
        let current = match &self.current_ruleset {
            Some(c) => Some(c.id.clone()),
            None => None,
        };
        let mut keys: Vec<String> = Vec::new();
        let n = self.available_rulesets.len();
        let mut i: usize = 0;
        while i < n
            invariant
                n == self.available_rulesets@.len(),
                i <= n,
                keys@.len() == i,
                forall|j: int| 0 <= j < i ==> #[trigger] keys@[j] == self.available_rulesets@[j].0,
            decreases n - i,
        {
            keys.push(self.available_rulesets[i].0.clone());
            i = i + 1;
        }
        ForkStatus { current_ruleset: current, available_rulesets: keys, fork_in_progress: self.is_fork_in_progress(), last_check: now }
    }
}

/// What a write of the available rulesets gives back: after a ruleset is put
/// in force, reading `current` gives it, and every other key reads as before.
pub proof fn lemma_transition_read_back(before: ForkExecutor, after: ForkExecutor, target: Ruleset, k: Seq<char>)
    requires
        before.wf(),
        after.wf(),
        after.current_ruleset == Some(target),
        ruleset_for(after.available_rulesets@, current_key()) == Some(target),
        forall|k2: Seq<char>| k2 != current_key() ==> ruleset_for(after.available_rulesets@, k2)
            == ruleset_for(before.available_rulesets@, k2),
    ensures
        ruleset_for(after.available_rulesets@, k) == (if k == current_key() {
            Some(target)
        } else {
            ruleset_for(before.available_rulesets@, k)
        }),
{
}

} // verus!
