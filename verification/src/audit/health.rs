//! Health checks over a loaded audit log: every job identifier occurs once,
//! timestamps never go backwards, long silences between entries are listed,
//! and each job type is counted.

use vstd::prelude::*;
use crate::audit::entry::AuditLogEntry;
use crate::text::str_eq;

verus! {

/// Why a log fails its health check, with the job identifier of the
/// offending entry.
#[derive(Debug, Clone, PartialEq, Eq)]
pub enum HealthError {
    /// The entry repeats the job identifier of an earlier entry.
    DuplicateJobId(String),
    /// The entry is stamped earlier than the entry before it.
    TimestampOrder(String),
}

/// A silence of more than one whole hour before the entry at `index`.
#[derive(Debug, Clone, PartialEq, Eq)]
pub struct TimestampGap {
    pub index: usize,
    /// Whole hours between the entry and the one before it.
    pub hours: i64,
}

/// What a healthy log looks like from the outside.
#[derive(Debug, Clone)]
pub struct LogHealth {
    /// The long silences, in log order.
    pub gaps: Vec<TimestampGap>,
    /// Each job type once, with the number of entries of that type.
    pub job_types: Vec<(String, u64)>,
}

/// The entry at `i` repeats the job identifier of an earlier entry.
pub open spec fn repeats_job_id(s: Seq<AuditLogEntry>, i: int) -> bool {
    exists|j: int| 0 <= j < i && #[trigger] s[j].job_id@ == s[i].job_id@
}

/// Some entry repeats an earlier job identifier.
pub open spec fn has_repeat(s: Seq<AuditLogEntry>) -> bool {
    exists|i: int| 0 <= i < s.len() && #[trigger] repeats_job_id(s, i)
}

/// `i` is the first entry that repeats an earlier job identifier.
pub open spec fn first_repeat(s: Seq<AuditLogEntry>, i: int) -> bool {
    &&& 0 <= i < s.len()
    &&& repeats_job_id(s, i)
    &&& forall|k: int| 0 <= k < i ==> !#[trigger] repeats_job_id(s, k)
}

/// The entry at `i` is stamped earlier than the one before it.
pub open spec fn out_of_order(s: Seq<AuditLogEntry>, i: int) -> bool {
    1 <= i < s.len() && s[i].timestamp < s[i - 1].timestamp
}

/// Timestamps never go backwards.
pub open spec fn ordered(s: Seq<AuditLogEntry>) -> bool {
    forall|i: int| 1 <= i < s.len() ==> !#[trigger] out_of_order(s, i)
}

/// `i` is the first entry stamped earlier than the one before it.
pub open spec fn first_out_of_order(s: Seq<AuditLogEntry>, i: int) -> bool {
    &&& out_of_order(s, i)
    &&& forall|k: int| 1 <= k < i ==> !#[trigger] out_of_order(s, k)
}

/// Whole hours between the entry at `i` and the one before it.
pub open spec fn gap_hours(s: Seq<AuditLogEntry>, i: int) -> int {
    (s[i].timestamp - s[i - 1].timestamp) / 3600
}

/// More than one whole hour passed between the entry at `i` and the one
/// before it.
pub open spec fn long_gap(s: Seq<AuditLogEntry>, i: int) -> bool {
    1 <= i < s.len() && gap_hours(s, i) > 1
}

/// The long gaps before the entries `1..n`, in order, as (index, hours).
pub open spec fn gaps_upto(s: Seq<AuditLogEntry>, n: int) -> Seq<(int, int)>
    decreases n,
{
    if n <= 1 {
        Seq::empty()
    } else if long_gap(s, n - 1) {
        gaps_upto(s, n - 1).push((n - 1, gap_hours(s, n - 1)))
    } else {
        gaps_upto(s, n - 1)
    }
}

/// The gaps as (index, hours) pairs.
pub open spec fn gap_pairs(g: Seq<TimestampGap>) -> Seq<(int, int)> {
    g.map_values(|x: TimestampGap| (x.index as int, x.hours as int))
}

/// How many entries have job type `t`.
pub open spec fn type_count(s: Seq<AuditLogEntry>, t: Seq<char>) -> nat
    decreases s.len(),
{
    if s.len() == 0 {
        0
    } else {
        type_count(s.drop_last(), t) + if s.last().job_type@ == t { 1nat } else { 0nat }
    }
}

/// `tally` has an entry for job type `t`.
pub open spec fn tally_names(tally: Seq<(String, u64)>, t: Seq<char>) -> bool {
    exists|k: int| 0 <= k < tally.len() && #[trigger] tally[k].0@ == t
}

/// `tally` names each job type of `s` exactly once, with its count.
pub open spec fn is_type_tally(s: Seq<AuditLogEntry>, tally: Seq<(String, u64)>) -> bool {
    &&& forall|k: int| 0 <= k < tally.len() ==> #[trigger] tally[k].1 == type_count(s, tally[k].0@)
    &&& forall|k: int| 0 <= k < tally.len() ==> #[trigger] tally[k].1 >= 1
    &&& forall|i: int| 0 <= i < s.len() ==> tally_names(tally, #[trigger] s[i].job_type@)
    &&& forall|k1: int, k2: int| 0 <= k1 < k2 < tally.len() ==> #[trigger] tally[k1].0@ != #[trigger] tally[k2].0@
}

proof fn lemma_type_count_bound(s: Seq<AuditLogEntry>, t: Seq<char>)
    ensures
        type_count(s, t) <= s.len(),
    decreases s.len(),
{
    if s.len() > 0 {
        lemma_type_count_bound(s.drop_last(), t);
    }
}

proof fn lemma_type_count_step(s: Seq<AuditLogEntry>, i: int, t: Seq<char>)
    requires
        0 <= i < s.len(),
    ensures
        type_count(s.take(i + 1), t) == type_count(s.take(i), t) + if s[i].job_type@ == t { 1nat } else { 0nat },
{
    assert(s.take(i + 1).drop_last() =~= s.take(i));
}

fn first_repeated_job_id(entries: &[AuditLogEntry]) -> (r: Option<usize>)
    ensures
        match r {
            Some(i) => first_repeat(entries@, i as int),
            None => !has_repeat(entries@),
        },
{
    let n = entries.len();
    let mut i: usize = 0;
    while i < n
        invariant
            n == entries@.len(),
            i <= n,
            forall|k: int| 0 <= k < i ==> !#[trigger] repeats_job_id(entries@, k),
        decreases n - i,
    {
        let mut j: usize = 0;
        while j < i
            invariant
                n == entries@.len(),
                i < n,
                j <= i,
                forall|k: int| 0 <= k < i ==> !#[trigger] repeats_job_id(entries@, k),
                forall|k: int| 0 <= k < j ==> entries@[k].job_id@ != entries@[i as int].job_id@,
            decreases i - j,
        {
            if str_eq(entries[j].job_id.as_str(), entries[i].job_id.as_str()) {
                assert(repeats_job_id(entries@, i as int));
                return Some(i);
            }
            j = j + 1;
        }
        i = i + 1;
    }
    None
}

fn first_out_of_order_entry(entries: &[AuditLogEntry]) -> (r: Option<usize>)
    ensures
        match r {
            Some(i) => first_out_of_order(entries@, i as int),
            None => ordered(entries@),
        },
{
    let n = entries.len();
    let mut i: usize = 1;
    while i < n
        invariant
            n == entries@.len(),
            1 <= i,
            forall|k: int| 1 <= k < i ==> !#[trigger] out_of_order(entries@, k),
        decreases n - i,
    {
        if entries[i].timestamp < entries[i - 1].timestamp {
            return Some(i);
        }
        i = i + 1;
    }
    None
}

fn long_gaps(entries: &[AuditLogEntry]) -> (r: Vec<TimestampGap>)
    requires
        ordered(entries@),
    ensures
        gap_pairs(r@) == gaps_upto(entries@, entries@.len() as int),
{
    let n = entries.len();
    let mut gaps: Vec<TimestampGap> = Vec::new();
    if n == 0 {
        return gaps;
    }
    let mut i: usize = 1;
    while i < n
        invariant
            n == entries@.len(),
            1 <= i <= n,
            ordered(entries@),
            gap_pairs(gaps@) == gaps_upto(entries@, i as int),
        decreases n - i,
    {
        assert(!out_of_order(entries@, i as int));
        let d: i128 = entries[i].timestamp as i128 - entries[i - 1].timestamp as i128;
        let hours: i128 = d / 3600;
        if hours > 1 {
            let g = TimestampGap { index: i, hours: hours as i64 };
            gaps.push(g);
        }
        assert(gap_pairs(gaps@) =~= gaps_upto(entries@, i + 1));
        i = i + 1;
    }
    gaps
}

fn tally_job_types(entries: &[AuditLogEntry]) -> (r: Vec<(String, u64)>)
    ensures
        is_type_tally(entries@, r@),
{
    let n = entries.len();
    let mut tally: Vec<(String, u64)> = Vec::new();
    let mut i: usize = 0;
    while i < n
        invariant
            n == entries@.len(),
            i <= n,
            tally@.len() <= i,
            is_type_tally(entries@.take(i as int), tally@),
        decreases n - i,
    {
        let ghost s = entries@;
        let ghost old_tally = tally@;
        let t = &entries[i].job_type;
        let mut k: usize = 0;
        let mut found: bool = false;
        while k < tally.len()
            invariant_except_break
                !found,
            invariant
                tally@ == old_tally,
                k <= tally@.len(),
                forall|m: int| 0 <= m < k ==> tally@[m].0@ != t@,
            ensures
                found ==> k < tally@.len() && tally@[k as int].0@ == t@,
                !found ==> k == tally@.len(),
            decreases tally@.len() - k,
        {
            if str_eq(tally[k].0.as_str(), t.as_str()) {
                found = true;
                break;
            }
            k = k + 1;
        }
        proof {
            assert forall|u: Seq<char>| true implies type_count(s.take(i + 1), u)
                == type_count(s.take(i as int), u) + if s[i as int].job_type@ == u { 1nat } else { 0nat } by {
                lemma_type_count_step(s, i as int, u);
            }
        }
        if found {
            proof {
                lemma_type_count_bound(s.take(i as int), t@);
            }
            let c = tally[k].1;
            let name = tally[k].0.clone();
            tally.set(k, (name, c + 1));
            proof {
                assert forall|m: int| 0 <= m < tally@.len() implies #[trigger] tally@[m].1 == type_count(s.take(i + 1), tally@[m].0@) by {
                    if m != k {
                        assert(tally@[m] == old_tally[m]);
                    }
                }
                assert forall|j: int| 0 <= j < i + 1 implies tally_names(tally@, #[trigger] s.take(i + 1)[j].job_type@) by {
                    if j < i {
                        assert(s.take(i + 1)[j] == s.take(i as int)[j]);
                        assert(tally_names(old_tally, s.take(i as int)[j].job_type@));
                        let m = choose|m: int| 0 <= m < old_tally.len() && #[trigger] old_tally[m].0@ == s.take(i as int)[j].job_type@;
                        assert(tally@[m].0@ == old_tally[m].0@);
                    } else {
                        assert(tally@[k as int].0@ == s.take(i + 1)[j].job_type@);
                    }
                }
                assert forall|k1: int, k2: int| 0 <= k1 < k2 < tally@.len() implies #[trigger] tally@[k1].0@ != #[trigger] tally@[k2].0@ by {
                    assert(tally@[k1].0@ == old_tally[k1].0@);
                    assert(tally@[k2].0@ == old_tally[k2].0@);
                }
            }
        } else {
            let name = t.clone();
            tally.push((name, 1));
            proof {
                assert(type_count(s.take(i as int), t@) == 0) by {
                    lemma_absent_type_count(s.take(i as int), old_tally, t@);
                }
                assert forall|m: int| 0 <= m < tally@.len() implies #[trigger] tally@[m].1 == type_count(s.take(i + 1), tally@[m].0@) by {
                    if m < old_tally.len() {
                        assert(tally@[m] == old_tally[m]);
                    }
                }
                assert forall|j: int| 0 <= j < i + 1 implies tally_names(tally@, #[trigger] s.take(i + 1)[j].job_type@) by {
                    if j < i {
                        assert(s.take(i + 1)[j] == s.take(i as int)[j]);
                        assert(tally_names(old_tally, s.take(i as int)[j].job_type@));
                        let m = choose|m: int| 0 <= m < old_tally.len() && #[trigger] old_tally[m].0@ == s.take(i as int)[j].job_type@;
                        assert(tally@[m].0@ == old_tally[m].0@);
                    } else {
                        assert(tally@[old_tally.len() as int].0@ == s.take(i + 1)[j].job_type@);
                    }
                }
                assert forall|k1: int, k2: int| 0 <= k1 < k2 < tally@.len() implies #[trigger] tally@[k1].0@ != #[trigger] tally@[k2].0@ by {
                    assert(tally@[k1].0@ == old_tally[k1].0@ || k1 == old_tally.len());
                    if k2 < old_tally.len() {
                        assert(tally@[k2].0@ == old_tally[k2].0@);
                    } else {
                        assert(tally@[k2].0@ == t@);
                        assert(tally@[k1] == old_tally[k1]);
                    }
                }
            }
        }
        i = i + 1;
    }
    proof {
        assert(entries@.take(n as int) =~= entries@);
    }
    tally
}

/// A type that the tally does not name occurs nowhere in the log.
proof fn lemma_absent_type_count(s: Seq<AuditLogEntry>, tally: Seq<(String, u64)>, t: Seq<char>)
    requires
        forall|i: int| 0 <= i < s.len() ==> tally_names(tally, #[trigger] s[i].job_type@),
        forall|m: int| 0 <= m < tally.len() ==> tally[m].0@ != t,
    ensures
        type_count(s, t) == 0,
    decreases s.len(),
{
    if s.len() > 0 {
        let p = s.drop_last();
        assert forall|i: int| 0 <= i < p.len() implies tally_names(tally, #[trigger] p[i].job_type@) by {
            assert(p[i].job_type@ == s[i].job_type@);
        }
        lemma_absent_type_count(p, tally, t);
        let last = s.len() - 1;
        assert(tally_names(tally, s[last].job_type@));
        assert(s.last().job_type@ != t);
    }
}

/// Checks a loaded log: the first entry that repeats a job identifier, or
/// else the first entry stamped before its predecessor, fails the check;
/// a log that passes reports its long gaps and how often each job type
/// occurs.
pub fn check_audit_log_health(entries: &[AuditLogEntry]) -> (r: Result<LogHealth, HealthError>)
    ensures
        match r {
            Err(HealthError::DuplicateJobId(id)) => exists|i: int| #[trigger] first_repeat(entries@, i) && id@ == entries@[i].job_id@,
            Err(HealthError::TimestampOrder(id)) => !has_repeat(entries@)
                && exists|i: int| #[trigger] first_out_of_order(entries@, i) && id@ == entries@[i].job_id@,
            Ok(h) => {
                &&& !has_repeat(entries@)
                &&& ordered(entries@)
                &&& gap_pairs(h.gaps@) == gaps_upto(entries@, entries@.len() as int)
                &&& is_type_tally(entries@, h.job_types@)
            },
        },
{
    match first_repeated_job_id(entries) {
        Some(i) => {
            return Err(HealthError::DuplicateJobId(entries[i].job_id.clone()));
        },
        None => {},
    }
    match first_out_of_order_entry(entries) {
        Some(i) => {
            return Err(HealthError::TimestampOrder(entries[i].job_id.clone()));
        },
        None => {},
    }
    let gaps = long_gaps(entries);
    let job_types = tally_job_types(entries);
    Ok(LogHealth { gaps, job_types })
}

} // verus!
