//! Integrity checks over audit log entries and hash chains.

use vstd::prelude::*;
use crate::audit::entry::{AuditLogEntry, entry_hash, hash_ok};
use crate::error::GovernanceError;

verus! {

/// Entry `i` links to entry `i - 1` (the first entry links to nothing).
pub open spec fn link_ok(s: Seq<AuditLogEntry>, i: int) -> bool {
    i == 0 || s[i].previous_log_hash@ == s[i - 1].this_log_hash@
}

/// Every entry carries its own hash and links to its predecessor.
pub open spec fn chain_valid(s: Seq<AuditLogEntry>) -> bool {
    &&& forall|i: int| 0 <= i < s.len() ==> hash_ok(#[trigger] s[i])
    &&& forall|i: int| 1 <= i < s.len() ==> #[trigger] s[i].previous_log_hash@ == s[i - 1].this_log_hash@
}

/// The entry is sound and, when a predecessor is given, links to it.
pub open spec fn entry_in_chain_ok(e: AuditLogEntry, prev: Option<AuditLogEntry>) -> bool {
    hash_ok(e) && match prev {
        Some(p) => e.previous_log_hash@ == p.this_log_hash@,
        None => true,
    }
}

/// Is the stored hash of the entry the hash of its contents?
pub fn verify_entry(entry: &AuditLogEntry) -> (r: Result<bool, GovernanceError>)
    ensures
        r == Ok::<bool, GovernanceError>(hash_ok(*entry)),
{
    let calculated = calculate_entry_hash(entry);
    match calculated {
        Ok(h) => Ok(h == entry.this_log_hash),
        Err(e) => Err(e),
    }
}

/// The hash the entry should carry.
pub fn calculate_entry_hash(entry: &AuditLogEntry) -> (r: Result<String, GovernanceError>)
    ensures
        r is Ok,
        r matches Ok(h) && h@ == entry_hash(*entry),
{
    Ok(entry.calculate_hash())
}

/// Is the whole sequence a valid hash chain? (The empty chain is valid.)
pub fn verify_hash_chain(entries: &[AuditLogEntry]) -> (r: Result<bool, GovernanceError>)
    ensures
        r == Ok::<bool, GovernanceError>(chain_valid(entries@)),
{
    let n = entries.len();
    if n == 0 {
        return Ok(true);
    }
    let mut i: usize = 0;
    while i < n
        invariant
            n == entries@.len(),
            i <= n,
            forall|j: int| 0 <= j < i ==> hash_ok(#[trigger] entries@[j]),
        decreases n - i,
    {
        let ok = verify_entry(&entries[i]);
        match ok {
            Ok(true) => {},
            Ok(false) => { return Ok(false); },
            Err(e) => { return Err(e); },
        }
        i = i + 1;
    }
    let mut k: usize = 1;
    while k < n
        invariant
            n == entries@.len(),
            1 <= k <= n,
            forall|j: int| 0 <= j < n ==> hash_ok(#[trigger] entries@[j]),
            forall|j: int| 1 <= j < k ==> #[trigger] entries@[j].previous_log_hash@ == entries@[j - 1].this_log_hash@,
        decreases n - k,
    {
        if entries[k].previous_log_hash != entries[k - 1].this_log_hash {
            return Ok(false);
        }
        k = k + 1;
    }
    Ok(true)
}

/// Is the entry sound, and linked to `previous_entry` when one is given?
pub fn verify_entry_in_chain(entry: &AuditLogEntry, previous_entry: Option<&AuditLogEntry>) -> (r: Result<bool, GovernanceError>)
    ensures
        r == Ok::<bool, GovernanceError>(entry_in_chain_ok(*entry, match previous_entry { Some(p) => Some(*p), None => None })),
{
    let ok = verify_entry(entry);
    match ok {
        Ok(true) => {},
        Ok(false) => { return Ok(false); },
        Err(e) => { return Err(e); },
    }
    match previous_entry {
        Some(prev) => {
            if entry.previous_log_hash != prev.this_log_hash {
                return Ok(false);
            }
        },
        None => {},
    }
    Ok(true)
}

/// Verify an audit log; the same as `verify_hash_chain`.
pub fn verify_audit_log(entries: &[AuditLogEntry]) -> (r: Result<bool, GovernanceError>)
    ensures
        r == Ok::<bool, GovernanceError>(chain_valid(entries@)),
{
    verify_hash_chain(entries)
}

/// Appending a sound entry that links to the current head keeps a valid
/// chain valid.
pub proof fn lemma_chain_extend(s: Seq<AuditLogEntry>, e: AuditLogEntry)
    requires
        chain_valid(s),
        hash_ok(e),
        s.len() > 0 ==> e.previous_log_hash@ == s.last().this_log_hash@,
    ensures
        chain_valid(s.push(e)),
{
    let t = s.push(e);
    assert forall|i: int| 0 <= i < t.len() implies hash_ok(#[trigger] t[i]) by {
        if i < s.len() { assert(t[i] == s[i]); }
    }
    assert forall|i: int| 1 <= i < t.len() implies #[trigger] t[i].previous_log_hash@ == t[i - 1].this_log_hash@ by {
        if i < s.len() { assert(t[i] == s[i]); assert(t[i - 1] == s[i - 1]); }
    }
}

/// Every prefix of a valid chain is a valid chain.
pub proof fn lemma_chain_prefix(s: Seq<AuditLogEntry>, k: int)
    requires
        chain_valid(s),
        0 <= k <= s.len(),
    ensures
        chain_valid(s.take(k)),
{
    let t = s.take(k);
    assert forall|i: int| 0 <= i < t.len() implies hash_ok(#[trigger] t[i]) by {
        assert(t[i] == s[i]);
    }
    assert forall|i: int| 1 <= i < t.len() implies #[trigger] t[i].previous_log_hash@ == t[i - 1].this_log_hash@ by {
        assert(t[i] == s[i]);
        assert(t[i - 1] == s[i - 1]);
    }
}

/// In a valid chain every entry passes the single-entry check against its
/// predecessor, and the first entry passes it with no predecessor.
pub proof fn lemma_chain_entries_verify(s: Seq<AuditLogEntry>, i: int)
    requires
        chain_valid(s),
        0 <= i < s.len(),
    ensures
        i == 0 ==> entry_in_chain_ok(s[i], None),
        i > 0 ==> entry_in_chain_ok(s[i], Some(s[i - 1])),
{
    assert(hash_ok(s[i]));
}

/// Changing the stored hash of one entry of a valid chain to anything but
/// its true hash makes the chain invalid.
pub proof fn lemma_tampered_hash_breaks_chain(s: Seq<AuditLogEntry>, i: int, e: AuditLogEntry)
    requires
        0 <= i < s.len(),
        !hash_ok(e),
    ensures
        !chain_valid(s.update(i, e)),
{
    assert(s.update(i, e)[i] == e);
}

} // verus!
