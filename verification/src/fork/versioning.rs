//! Semantic versioning of governance rulesets: how a version moves for each
//! kind of change, how two versions compare, which versions are compatible,
//! and the hash that identifies a ruleset version.

use vstd::prelude::*;
use vstd::string::*;
use vstd::utf8::encode_utf8;
use crate::clock::current_rfc3339;
use crate::digest::{sha256, spec_sha256};
use crate::error::GovernanceError;
use crate::fork::types::{version_text, Ruleset, RulesetVersion};
use crate::text::{hex_encode, to_hex};

verus! {

/// The kind of change a new version records.
#[derive(Debug, PartialEq, Eq, Structural)]
pub enum VersionChangeType {
    /// Breaking changes.
    Major,
    /// New features, backward compatible.
    Minor,
    /// Fixes, backward compatible.
    Patch,
}

/// How one version stands to another.
#[derive(Debug, PartialEq, Eq, Structural)]
pub enum VersionComparison {
    Older,
    Equal,
    Newer,
}

/// Lexicographic comparison of `(major, minor, patch)`.
pub open spec fn compare_spec(a: RulesetVersion, b: RulesetVersion) -> VersionComparison {
    if a.major < b.major {
        VersionComparison::Older
    } else if a.major > b.major {
        VersionComparison::Newer
    } else if a.minor < b.minor {
        VersionComparison::Older
    } else if a.minor > b.minor {
        VersionComparison::Newer
    } else if a.patch < b.patch {
        VersionComparison::Older
    } else if a.patch > b.patch {
        VersionComparison::Newer
    } else {
        VersionComparison::Equal
    }
}

/// The version after a change of the given kind.
pub open spec fn incremented(v: RulesetVersion, change: VersionChangeType) -> RulesetVersion {
    match change {
        VersionChangeType::Major => RulesetVersion { major: (v.major + 1) as u32, minor: 0, patch: 0 },
        VersionChangeType::Minor => RulesetVersion { major: v.major, minor: (v.minor + 1) as u32, patch: 0 },
        VersionChangeType::Patch => RulesetVersion { major: v.major, minor: v.minor, patch: (v.patch + 1) as u32 },
    }
}

/// The part a change of this kind raises is below its maximum.
pub open spec fn can_increment(v: RulesetVersion, change: VersionChangeType) -> bool {
    match change {
        VersionChangeType::Major => v.major < u32::MAX,
        VersionChangeType::Minor => v.minor < u32::MAX,
        VersionChangeType::Patch => v.patch < u32::MAX,
    }
}

/// The hash of a ruleset version: the hex SHA-256 of the UTF-8 bytes of the
/// id, the version text, the configuration text and the time stamp, in turn.
pub open spec fn ruleset_hash(id: Seq<char>, v: RulesetVersion, config: Seq<char>, stamp: Seq<char>) -> Seq<char> {
    hex_encode(spec_sha256(encode_utf8(id + version_text(v) + config + stamp)))
}

/// Versioning of rulesets.
pub struct RulesetVersioning;

impl RulesetVersioning {
    /// The versioning service.
    pub fn new() -> (r: Self) {
        RulesetVersioning
    }

    /// The version after a change: the first version, 1.0.0, where there is
    /// none yet, else the current one raised by the change.
    pub fn version_ruleset(&self, current_version: Option<&RulesetVersion>, change_type: VersionChangeType) -> (r: Result<RulesetVersion, GovernanceError>)
        requires
            current_version matches Some(v) ==> can_increment(*v, change_type),
        ensures
            r == Ok::<RulesetVersion, GovernanceError>(match current_version {
                Some(v) => incremented(*v, change_type),
                None => RulesetVersion { major: 1, minor: 0, patch: 0 },
            }),
    {
        match current_version {
            Some(v) => Ok(self.increment_version(v, change_type)),
            None => Ok(RulesetVersion::new(1, 0, 0)),
        }
    }

    /// Raises a version: a major change resets minor and patch, a minor
    /// change resets patch.
    pub fn increment_version(&self, current: &RulesetVersion, change_type: VersionChangeType) -> (r: RulesetVersion)
        requires
            can_increment(*current, change_type),
        ensures
            r == incremented(*current, change_type),
            change_type == VersionChangeType::Major ==> r.major == current.major + 1 && r.minor == 0 && r.patch == 0,
            change_type == VersionChangeType::Minor ==> r.major == current.major && r.minor == current.minor + 1 && r.patch == 0,
            change_type == VersionChangeType::Patch ==> r.major == current.major && r.minor == current.minor
                && r.patch == current.patch + 1,
    {
        match change_type {
            VersionChangeType::Major => RulesetVersion::new(current.major + 1, 0, 0),
            VersionChangeType::Minor => RulesetVersion::new(current.major, current.minor + 1, 0),
            VersionChangeType::Patch => RulesetVersion::new(current.major, current.minor, current.patch + 1),
        }
    }

    /// Compares two versions.
    pub fn compare_versions(&self, v1: &RulesetVersion, v2: &RulesetVersion) -> (r: VersionComparison)
        ensures
            r == compare_spec(*v1, *v2),
            (r == VersionComparison::Older) <==> (v1.major < v2.major || (v1.major == v2.major && (v1.minor < v2.minor
                || (v1.minor == v2.minor && v1.patch < v2.patch)))),
            (r == VersionComparison::Newer) <==> (v2.major < v1.major || (v1.major == v2.major && (v2.minor < v1.minor
                || (v1.minor == v2.minor && v2.patch < v1.patch)))),
            (r == VersionComparison::Equal) <==> (v1.major == v2.major && v1.minor == v2.minor && v1.patch == v2.patch),
    {
        if v1.major < v2.major {
            VersionComparison::Older
        } else if v1.major > v2.major {
            VersionComparison::Newer
        } else if v1.minor < v2.minor {
            VersionComparison::Older
        } else if v1.minor > v2.minor {
            VersionComparison::Newer
        } else if v1.patch < v2.patch {
            VersionComparison::Older
        } else if v1.patch > v2.patch {
            VersionComparison::Newer
        } else {
            VersionComparison::Equal
        }
    }

    /// Versions are compatible when their major versions agree.
    pub fn is_compatible(&self, version1: &RulesetVersion, version2: &RulesetVersion) -> (r: bool)
        ensures
            r == (version1.major == version2.major),
    {
        version1.major == version2.major
    }

    /// The hash of a ruleset version stamped with the given time text.
    pub fn generate_ruleset_hash_at(&self, ruleset_id: &str, version: &RulesetVersion, config: &str, stamp: &str) -> (r: String)
        ensures
            r@ == ruleset_hash(ruleset_id@, *version, config@, stamp@),
    {
        let mut text = String::from_str(ruleset_id);
        let v = version.to_string();
        text.append(v.as_str());
        text.append(config);
        text.append(stamp);
        let bytes = text.as_str().as_bytes_vec();
        let digest = sha256(bytes.as_slice());
        to_hex(digest.as_slice())
    }

    /// The hash of a ruleset version stamped with the current time: for some
    /// time text, the hash of the id, version and configuration with it.
    pub fn generate_ruleset_hash(&self, ruleset_id: &str, version: &RulesetVersion, config: &str) -> (r: Result<String, GovernanceError>)
        ensures
            r matches Ok(h) && exists|stamp: Seq<char>| h@ == ruleset_hash(ruleset_id@, *version, config@, stamp),
    {
        let stamp = current_rfc3339();
        let h = self.generate_ruleset_hash_at(ruleset_id, version, config, stamp.as_str());
        Ok(h)
    }

    /// A new ruleset at version 1.0.0.
    pub fn create_ruleset(&self, id: &str, name: &str, config: String, description: Option<&str>, created_at: i64) -> (r: Result<Ruleset, GovernanceError>)
        ensures
            r matches Ok(rs) && rs.id@ == id@ && rs.name@ == name@ && rs.config == config
                && rs.version == (RulesetVersion { major: 1, minor: 0, patch: 0 })
                && rs.created_at == created_at
                && (exists|stamp: Seq<char>| rs.hash@ == ruleset_hash(id@, rs.version, config@, stamp))
                && (match description {
                    Some(d) => rs.description matches Some(a) && a@ == d@,
                    None => rs.description is None,
                }),
    {
        let version = RulesetVersion::new(1, 0, 0);
        let hash = match self.generate_ruleset_hash(id, &version, config.as_str()) {
            Ok(h) => h,
            Err(e) => return Err(e),
        };
        proof {
            let stamp = choose|stamp: Seq<char>| hash@ == ruleset_hash(id@, version, config@, stamp);
            assert(hash@ == ruleset_hash(id@, version, config@, stamp));
        }
        let description = match description {
            Some(d) => Some(String::from_str(d)),
            None => None,
        };
        Ok(Ruleset {
            id: String::from_str(id),
            name: String::from_str(name),
            version,
            hash,
            created_at,
            config,
            description,
        })
    }

    /// The ruleset raised by a change, with a new configuration and a new hash.
    pub fn update_ruleset(&self, ruleset: Ruleset, new_config: String, change_type: VersionChangeType) -> (r: Result<Ruleset, GovernanceError>)
        requires
            can_increment(ruleset.version, change_type),
        ensures
            r matches Ok(rs) && rs.id == ruleset.id && rs.name == ruleset.name
                && rs.version == incremented(ruleset.version, change_type)
                && rs.config == new_config && rs.created_at == ruleset.created_at
                && rs.description == ruleset.description
                && (exists|stamp: Seq<char>| rs.hash@ == ruleset_hash(ruleset.id@, rs.version, new_config@, stamp)),
    {
        let mut ruleset = ruleset;
        ruleset.version = self.increment_version(&ruleset.version, change_type);
        let hash = match self.generate_ruleset_hash(ruleset.id.as_str(), &ruleset.version, new_config.as_str()) {
            Ok(h) => h,
            Err(e) => return Err(e),
        };
        ruleset.hash = hash;
        ruleset.config = new_config;
        Ok(ruleset)
    }
}

/// Comparison is antisymmetric: `a` is older than `b` exactly when `b` is
/// newer than `a`, and two versions compare equal exactly when they are the
/// same version.
pub proof fn lemma_compare_antisymmetric(a: RulesetVersion, b: RulesetVersion)
    ensures
        (compare_spec(a, b) == VersionComparison::Older) <==> (compare_spec(b, a) == VersionComparison::Newer),
        (compare_spec(a, b) == VersionComparison::Equal) <==> a == b,
        compare_spec(a, a) == VersionComparison::Equal,
{
}

/// Comparison orders versions as the numbers major, minor and patch read
/// in that order of weight.
pub proof fn lemma_compare_by_weight(a: RulesetVersion, b: RulesetVersion)
    ensures
        (compare_spec(a, b) == VersionComparison::Older) <==> a.major * 0x1_0000_0000_0000_0000 + a.minor * 0x1_0000_0000
            + a.patch < b.major * 0x1_0000_0000_0000_0000 + b.minor * 0x1_0000_0000 + b.patch,
        (compare_spec(a, b) == VersionComparison::Equal) <==> a.major * 0x1_0000_0000_0000_0000 + a.minor * 0x1_0000_0000
            + a.patch == b.major * 0x1_0000_0000_0000_0000 + b.minor * 0x1_0000_0000 + b.patch,
{
}

/// Comparison is transitive: older than an older version is older.
pub proof fn lemma_compare_transitive(a: RulesetVersion, b: RulesetVersion, c: RulesetVersion)
    requires
        compare_spec(a, b) == VersionComparison::Older,
        compare_spec(b, c) == VersionComparison::Older,
    ensures
        compare_spec(a, c) == VersionComparison::Older,
{
}

/// Every change yields a newer version; minor and patch changes keep the
/// version compatible, a major change does not.
pub proof fn lemma_increment_newer(v: RulesetVersion, change: VersionChangeType)
    requires
        can_increment(v, change),
    ensures
        compare_spec(incremented(v, change), v) == VersionComparison::Newer,
        (incremented(v, change).major == v.major) <==> (change != VersionChangeType::Major),
{
}

/// A change raises its own part by one and resets the parts below it: a
/// major change sets minor and patch to zero, a minor change keeps the major
/// number and sets patch to zero, a patch change keeps major and minor.
pub proof fn lemma_increment_parts(v: RulesetVersion)
    ensures
        incremented(v, VersionChangeType::Major).minor == 0,
        incremented(v, VersionChangeType::Major).patch == 0,
        v.major < u32::MAX ==> incremented(v, VersionChangeType::Major).major == v.major + 1,
        incremented(v, VersionChangeType::Minor).major == v.major,
        incremented(v, VersionChangeType::Minor).patch == 0,
        v.minor < u32::MAX ==> incremented(v, VersionChangeType::Minor).minor == v.minor + 1,
        incremented(v, VersionChangeType::Patch).major == v.major,
        incremented(v, VersionChangeType::Patch).minor == v.minor,
        v.patch < u32::MAX ==> incremented(v, VersionChangeType::Patch).patch == v.patch + 1,
{
}

/// Compatibility is an equivalence: reflexive, symmetric and transitive.
pub proof fn lemma_compatible_equivalence(a: RulesetVersion, b: RulesetVersion, c: RulesetVersion)
    ensures
        a.major == a.major,
        (a.major == b.major) == (b.major == a.major),
        (a.major == b.major && b.major == c.major) ==> a.major == c.major,
{
}

} // verus!
