//! The running state of an append-only audit log: its head hash and entry
//! count, how appends change it, how a stored log is replayed, and the
//! selections a reader makes over the entries.

use vstd::prelude::*;
use crate::audit::entry::{create_genesis_entry, hash_ok, zero_hash, AuditLogEntry};
use crate::audit::verify::{chain_valid, link_ok};

verus! {

/// Head hash and number of entries of an audit log.
#[derive(Debug, Clone)]
pub struct AuditLogState {
    pub head_hash: String,
    pub entry_count: u64,
}

/// Why an append or a replay was refused.
#[derive(Debug, Clone, PartialEq, Eq)]
pub enum AuditLogError {
    /// The entry's stored hash is not the hash of its contents.
    InvalidEntryHash,
    /// The entry at this position does not link to its predecessor.
    ChainBroken(u64),
    /// The entry at this position carries a wrong hash.
    InvalidHashAt(u64),
}

/// The state after replaying a whole sequence of entries.
pub open spec fn replayed_head(s: Seq<AuditLogEntry>) -> Seq<char> {
    if s.len() == 0 { Seq::empty() } else { s.last().this_log_hash@ }
}

/// Entry `i` passes both replay checks.
pub open spec fn replay_ok_at(s: Seq<AuditLogEntry>, i: int) -> bool {
    link_ok(s, i) && hash_ok(s[i])
}

/// `i` is the first position at which replay fails.
pub open spec fn first_failure(s: Seq<AuditLogEntry>, i: int) -> bool {
    0 <= i < s.len() && !replay_ok_at(s, i) && forall|j: int| 0 <= j < i ==> #[trigger] replay_ok_at(s, j)
}

/// Entries whose job type is `t`, in log order.
pub open spec fn entries_of_type(s: Seq<AuditLogEntry>, t: Seq<char>) -> Seq<AuditLogEntry>
    decreases s.len(),
{
    if s.len() == 0 {
        Seq::empty()
    } else {
        let rest = entries_of_type(s.drop_last(), t);
        if s.last().job_type@ == t { rest.push(s.last()) } else { rest }
    }
}

/// Entries stamped within `[start, end]`, in log order.
pub open spec fn entries_in_range(s: Seq<AuditLogEntry>, start: i64, end: i64) -> Seq<AuditLogEntry>
    decreases s.len(),
{
    if s.len() == 0 {
        Seq::empty()
    } else {
        let rest = entries_in_range(s.drop_last(), start, end);
        if start <= s.last().timestamp && s.last().timestamp <= end { rest.push(s.last()) } else { rest }
    }
}

impl AuditLogState {
    /// The state of a new log for `server_id`, which starts with its genesis
    /// entry: the head is the genesis entry's hash and the log holds one
    /// entry. The genesis entry is returned beside the state, to be stored
    /// as the log's first line.
    pub fn new(server_id: String) -> (r: (Self, AuditLogEntry))
        ensures
            r.1.job_id@ == "genesis"@,
            r.1.job_type@ == "genesis"@,
            r.1.server_id == server_id,
            r.1.inputs_hash@ == zero_hash(),
            r.1.outputs_hash@ == zero_hash(),
            r.1.previous_log_hash@ == zero_hash(),
            r.1.metadata@.len() == 0,
            hash_ok(r.1),
            r.0.head_hash@ == r.1.this_log_hash@,
            r.0.entry_count == 1,
    {
        let genesis = create_genesis_entry(server_id);
        let state = AuditLogState { head_hash: genesis.this_log_hash.clone(), entry_count: 1 };
        (state, genesis)
    }

    /// Current head hash.
    pub fn get_head_hash(&self) -> (r: String)
        ensures
            r@ == self.head_hash@,
    {
        self.head_hash.clone()
    }

    /// Number of entries appended so far.
    pub fn get_entry_count(&self) -> (r: u64)
        ensures
            r == self.entry_count,
    {
        self.entry_count
    }

    /// Records an appended entry: the entry must carry its own hash; the head
    /// becomes its hash and the count grows by one. A refused entry leaves the
    /// state unchanged.
    pub fn append_entry(&mut self, entry: &AuditLogEntry) -> (r: Result<(), AuditLogError>)
        requires
            old(self).entry_count < u64::MAX,
        ensures
            r is Ok <==> hash_ok(*entry),
            r is Ok ==> final(self).head_hash@ == entry.this_log_hash@ && final(self).entry_count == old(self).entry_count + 1,
            r is Err ==> r == Err::<(), AuditLogError>(AuditLogError::InvalidEntryHash) && final(self).head_hash@ == old(self).head_hash@
                && final(self).entry_count == old(self).entry_count,
    {
        if !entry.verify_hash() {
            return Err(AuditLogError::InvalidEntryHash);
        }
        self.head_hash = entry.this_log_hash.clone();
        self.entry_count = self.entry_count + 1;
        Ok(())
    }
}

/// Replays stored entries in order, checking each link and each hash, and
/// yields the state they describe; the first failing position is reported.
pub fn replay_entries(entries: &[AuditLogEntry]) -> (r: Result<AuditLogState, AuditLogError>)
    requires
        entries@.len() < u64::MAX,
    ensures
        r is Ok <==> chain_valid(entries@),
        r matches Ok(st) ==> st.head_hash@ == replayed_head(entries@) && st.entry_count == entries@.len(),
        r matches Err(AuditLogError::ChainBroken(i)) ==> first_failure(entries@, i as int) && !link_ok(entries@, i as int),
        r matches Err(AuditLogError::InvalidHashAt(i)) ==> first_failure(entries@, i as int) && link_ok(entries@, i as int),
        !(r matches Err(AuditLogError::InvalidEntryHash)),
{
    let n = entries.len();
    let mut last_hash = String::new();
    let mut count: u64 = 0;
    let mut i: usize = 0;
    while i < n
        invariant
            n == entries@.len(),
            n < u64::MAX,
            i <= n,
            count == i,
            last_hash@ == replayed_head(entries@.take(i as int)),
            forall|j: int| 0 <= j < i ==> #[trigger] replay_ok_at(entries@, j),
        decreases n - i,
    {
        proof {
            if i > 0 {
                assert(entries@.take(i as int).last() == entries@[i - 1]);
                assert(hash_ok(entries@[i - 1])) by { assert(replay_ok_at(entries@, i - 1)); }
            }
        }
        if i > 0 && entries[i].previous_log_hash != last_hash {
            return Err(AuditLogError::ChainBroken(count));
        }
        if !entries[i].verify_hash() {
            return Err(AuditLogError::InvalidHashAt(count));
        }
        last_hash = entries[i].this_log_hash.clone();
        count = count + 1;
        i = i + 1;
        proof {
            assert(entries@.take(i as int).last() == entries@[i - 1]);
        }
    }
    proof {
        assert(entries@.take(n as int) =~= entries@);
        assert forall|j: int| 0 <= j < n implies hash_ok(#[trigger] entries@[j]) by {
            assert(replay_ok_at(entries@, j));
        }
        assert forall|j: int| 1 <= j < n implies #[trigger] entries@[j].previous_log_hash@ == entries@[j - 1].this_log_hash@ by {
            assert(replay_ok_at(entries@, j));
        }
    }
    Ok(AuditLogState { head_hash: last_hash, entry_count: count })
}

/// Entries of the given job type, in log order.
pub fn get_entries_by_type(entries: Vec<AuditLogEntry>, job_type: &str) -> (r: Vec<AuditLogEntry>)
    ensures
        r@ == entries_of_type(entries@, job_type@),
{
    let ghost orig = entries@;
    let mut rest = entries;
    let mut res: Vec<AuditLogEntry> = Vec::new();
    let n = rest.len();
    let mut i: usize = 0;
    while i < n
        invariant
            n == orig.len(),
            i <= n,
            rest@ == orig.skip(i as int),
            res@ == entries_of_type(orig.take(i as int), job_type@),
        decreases n - i,
    {
        proof {
            assert(orig.take(i + 1).drop_last() =~= orig.take(i as int));
            assert(orig.take(i + 1).last() == orig[i as int]);
        }
        let e = rest.remove(0);
        proof {
            assert(rest@ =~= orig.skip(i + 1));
        }
        if crate::text::str_eq(e.job_type.as_str(), job_type) {
            res.push(e);
        }
        i = i + 1;
    }
    proof {
        assert(orig.take(n as int) =~= orig);
    }
    res
}

/// Entries stamped within `[start, end]`, in log order.
pub fn get_entries_in_range(entries: Vec<AuditLogEntry>, start: i64, end: i64) -> (r: Vec<AuditLogEntry>)
    ensures
        r@ == entries_in_range(entries@, start, end),
{
    let ghost orig = entries@;
    let mut rest = entries;
    let mut res: Vec<AuditLogEntry> = Vec::new();
    let n = rest.len();
    let mut i: usize = 0;
    while i < n
        invariant
            n == orig.len(),
            i <= n,
            rest@ == orig.skip(i as int),
            res@ == entries_in_range(orig.take(i as int), start, end),
        decreases n - i,
    {
        proof {
            assert(orig.take(i + 1).drop_last() =~= orig.take(i as int));
            assert(orig.take(i + 1).last() == orig[i as int]);
        }
        let e = rest.remove(0);
        proof {
            assert(rest@ =~= orig.skip(i + 1));
        }
        if start <= e.timestamp && e.timestamp <= end {
            res.push(e);
        }
        i = i + 1;
    }
    proof {
        assert(orig.take(n as int) =~= orig);
    }
    res
}

/// Appending an entry that carries its own hash and links to the head of a
/// valid log keeps the log valid, and replaying it ends at that entry's
/// hash: the head the append produced.
pub proof fn lemma_replay_matches_appends(s: Seq<AuditLogEntry>, e: AuditLogEntry)
    requires
        chain_valid(s),
        hash_ok(e),
        s.len() > 0 ==> e.previous_log_hash@ == replayed_head(s),
    ensures
        chain_valid(s.push(e)),
        replayed_head(s.push(e)) == e.this_log_hash@,
{
    crate::audit::verify::lemma_chain_extend(s, e);
}

} // verus!
