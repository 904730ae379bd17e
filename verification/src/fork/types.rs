//! Rulesets and their semantic versions.

use vstd::prelude::*;
use vstd::string::*;
use crate::text::{dec_nat, u64_to_string};

verus! {

/// A semantic version `major.minor.patch`.
#[derive(Debug, PartialEq, Eq, Structural)]
pub struct RulesetVersion {
    pub major: u32,
    pub minor: u32,
    pub patch: u32,
}

/// The text of a version: `major.minor.patch`.
pub open spec fn version_text(v: RulesetVersion) -> Seq<char> {
    dec_nat(v.major as nat) + "."@ + dec_nat(v.minor as nat) + "."@ + dec_nat(v.patch as nat)
}

impl RulesetVersion {
    /// The version with the given parts.
    pub fn new(major: u32, minor: u32, patch: u32) -> (r: Self)
        ensures
            r == (RulesetVersion { major, minor, patch }),
    {
        RulesetVersion { major, minor, patch }
    }

    /// The text of the version.
    pub fn to_string(&self) -> (r: String)
        ensures
            r@ == version_text(*self),
    {
        let mut s = u64_to_string(self.major as u64);
        s.append(".");
        let m = u64_to_string(self.minor as u64);
        s.append(m.as_str());
        s.append(".");
        let p = u64_to_string(self.patch as u64);
        s.append(p.as_str());
        s
    }

    /// A copy of the version.
    pub fn copy(&self) -> (r: Self)
        ensures
            r == *self,
    {
        RulesetVersion { major: self.major, minor: self.minor, patch: self.patch }
    }
}

/// A governance ruleset; `config` is its configuration as JSON text and
/// `hash` the hex SHA-256 of that text.
#[derive(Debug)]
pub struct Ruleset {
    pub id: String,
    pub name: String,
    pub version: RulesetVersion,
    pub hash: String,
    /// Seconds since the Unix epoch.
    pub created_at: i64,
    pub config: String,
    pub description: Option<String>,
}

impl Clone for Ruleset {
    fn clone(&self) -> (r: Self)
        ensures
            r == *self,
    {
        Ruleset {
            id: self.id.clone(),
            name: self.name.clone(),
            version: self.version.copy(),
            hash: self.hash.clone(),
            created_at: self.created_at,
            config: self.config.clone(),
            description: crate::ots::anchor::clone_opt_string(&self.description),
        }
    }
}

} // verus!
