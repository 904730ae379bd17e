//! A single audit log entry and its canonical hash.

use vstd::prelude::*;
use vstd::string::*;
use crate::clock::current_unix_time;
use crate::digest::{tagged_sha256, tagged_sha256_of_str};
use crate::text::{dec_int, i64_to_string};

verus! {

/// One entry of the audit log; `this_log_hash` seals every other field and
/// `previous_log_hash` links it to the entry before it.
#[derive(Debug, Clone)]
pub struct AuditLogEntry {
    pub job_id: String,
    pub job_type: String,
    pub server_id: String,
    pub inputs_hash: String,
    pub outputs_hash: String,
    pub previous_log_hash: String,
    pub this_log_hash: String,
    /// Seconds since the Unix epoch.
    pub timestamp: i64,
    /// Key/value pairs in the order they were given.
    pub metadata: Vec<(String, String)>,
}

/// The canonical text of the metadata pairs: `key=value;` for each pair.
pub open spec fn metadata_text(m: Seq<(String, String)>) -> Seq<char>
    decreases m.len(),
{
    if m.len() == 0 {
        Seq::empty()
    } else {
        metadata_text(m.drop_last()) + m.last().0@ + "="@ + m.last().1@ + ";"@
    }
}

/// The canonical text that the entry hash covers: every field but the hash
/// itself, separated by `|`.
pub open spec fn canonical_text(e: AuditLogEntry) -> Seq<char> {
    e.job_id@ + "|"@ + e.job_type@ + "|"@ + e.server_id@ + "|"@ + e.inputs_hash@ + "|"@
        + e.outputs_hash@ + "|"@ + e.previous_log_hash@ + "|"@ + dec_int(e.timestamp as int) + "|"@
        + metadata_text(e.metadata@)
}

/// The hash an entry must carry: the tagged SHA-256 of the UTF-8 encoding of
/// its canonical text.
pub open spec fn entry_hash(e: AuditLogEntry) -> Seq<char> {
    tagged_sha256(vstd::utf8::encode_utf8(canonical_text(e)))
}

/// The entry carries the hash of its own contents.
pub open spec fn hash_ok(e: AuditLogEntry) -> bool {
    e.this_log_hash@ == entry_hash(e)
}

/// The all-zero tagged hash used where there is no predecessor.
pub open spec fn zero_hash() -> Seq<char> {
    "sha256:0000000000000000000000000000000000000000000000000000000000000000"@
}

/// The all-zero tagged hash.
pub fn zero_hash_string() -> (r: String)
    ensures
        r@ == zero_hash(),
{
    String::from_str("sha256:0000000000000000000000000000000000000000000000000000000000000000")
}

fn metadata_string(m: &Vec<(String, String)>) -> (r: String)
    ensures
        r@ == metadata_text(m@),
{
    let mut s = String::new();
    let n = m.len();
    let mut i: usize = 0;
    while i < n
        invariant
            n == m@.len(),
            i <= n,
            s@ == metadata_text(m@.take(i as int)),
        decreases n - i,
    {
        proof {
            assert(m@.take(i + 1).drop_last() =~= m@.take(i as int));
        }
        s.append(m[i].0.as_str());
        s.append("=");
        s.append(m[i].1.as_str());
        s.append(";");
        i = i + 1;
    }
    proof {
        assert(m@.take(n as int) =~= m@);
    }
    s
}

impl AuditLogEntry {
    /// The canonical text of this entry (all fields but its own hash).
    pub fn canonical_string(&self) -> (r: String)
        ensures
            r@ == canonical_text(*self),
    {
        let mut s = String::new();
        s.append(self.job_id.as_str());
        s.append("|");
        s.append(self.job_type.as_str());
        s.append("|");
        s.append(self.server_id.as_str());
        s.append("|");
        s.append(self.inputs_hash.as_str());
        s.append("|");
        s.append(self.outputs_hash.as_str());
        s.append("|");
        s.append(self.previous_log_hash.as_str());
        s.append("|");
        let t = i64_to_string(self.timestamp);
        s.append(t.as_str());
        s.append("|");
        let md = metadata_string(&self.metadata);
        s.append(md.as_str());
        s
    }

    /// Recomputes the hash of this entry from its contents.
    pub fn calculate_hash(&self) -> (r: String)
        ensures
            r@ == entry_hash(*self),
    {
        let c = self.canonical_string();
        tagged_sha256_of_str(c.as_str())
    }

    /// Does the stored hash match the contents?
    pub fn verify_hash(&self) -> (r: bool)
        ensures
            r == hash_ok(*self),
    {
        let h = self.calculate_hash();
        h == self.this_log_hash
    }

    /// A new entry stamped with the given time and sealed with its hash.
    pub fn new_at(
        job_id: String,
        job_type: String,
        server_id: String,
        inputs_hash: String,
        outputs_hash: String,
        previous_log_hash: String,
        metadata: Vec<(String, String)>,
        timestamp: i64,
    ) -> (r: Self)
        ensures
            r.job_id == job_id,
            r.job_type == job_type,
            r.server_id == server_id,
            r.inputs_hash == inputs_hash,
            r.outputs_hash == outputs_hash,
            r.previous_log_hash == previous_log_hash,
            r.metadata == metadata,
            r.timestamp == timestamp,
            hash_ok(r),
    {
        let mut e = AuditLogEntry {
            job_id,
            job_type,
            server_id,
            inputs_hash,
            outputs_hash,
            previous_log_hash,
            this_log_hash: String::new(),
            timestamp,
            metadata,
        };
        let h = e.calculate_hash();
        e.this_log_hash = h;
        e
    }

    /// A new entry stamped with the current time and sealed with its hash.
    pub fn new(
        job_id: String,
        job_type: String,
        server_id: String,
        inputs_hash: String,
        outputs_hash: String,
        previous_log_hash: String,
        metadata: Vec<(String, String)>,
    ) -> (r: Self)
        ensures
            r.job_id == job_id,
            r.job_type == job_type,
            r.server_id == server_id,
            r.inputs_hash == inputs_hash,
            r.outputs_hash == outputs_hash,
            r.previous_log_hash == previous_log_hash,
            r.metadata == metadata,
            hash_ok(r),
    {
        let now = current_unix_time();
        Self::new_at(job_id, job_type, server_id, inputs_hash, outputs_hash, previous_log_hash, metadata, now)
    }
}

/// The first entry of a new log for `server_id`: a `genesis` job whose
/// inputs, outputs and predecessor are all the zero hash.
pub fn create_genesis_entry(server_id: String) -> (r: AuditLogEntry)
    ensures
        r.job_id@ == "genesis"@,
        r.job_type@ == "genesis"@,
        r.server_id == server_id,
        r.inputs_hash@ == zero_hash(),
        r.outputs_hash@ == zero_hash(),
        r.previous_log_hash@ == zero_hash(),
        r.metadata@.len() == 0,
        hash_ok(r),
{
    AuditLogEntry::new(
        String::from_str("genesis"),
        String::from_str("genesis"),
        server_id,
        zero_hash_string(),
        zero_hash_string(),
        zero_hash_string(),
        Vec::new(),
    )
}

} // verus!
