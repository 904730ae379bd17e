//! Time locks: how long a change of each tier stays locked, what state a
//! locked change is in at a given time, how long it has left, and the
//! override signals nodes send against it.

use vstd::prelude::*;
use vstd::string::*;
use crate::text::str_eq;

verus! {

/// The state of a time-locked change.
#[derive(Debug, PartialEq, Eq, Structural)]
pub enum TimeLockStatus {
    /// The lock has not yet elapsed.
    Pending,
    /// The lock has elapsed and the change can be activated.
    Ready,
    /// The change has been activated.
    Activated,
    /// The change was cancelled.
    Cancelled,
}

/// Minimum lock durations, in hours, for tiers 3, 4 and 5.
#[derive(Debug, PartialEq, Eq, Structural)]
pub struct TimeLockDurations {
    pub tier3_min_hours: i64,
    pub tier4_min_hours: i64,
    pub tier5_min_hours: i64,
}

impl TimeLockDurations {
    /// Seven, fourteen and thirty days.
    pub fn default_durations() -> (r: Self)
        ensures
            r == (TimeLockDurations { tier3_min_hours: 168, tier4_min_hours: 336, tier5_min_hours: 720 }),
    {
        TimeLockDurations { tier3_min_hours: 168, tier4_min_hours: 336, tier5_min_hours: 720 }
    }
}

/// The lock duration of a tier; an unknown tier gets the tier 5 duration.
pub open spec fn duration_for(d: TimeLockDurations, tier: u8) -> i64 {
    if tier == 3 {
        d.tier3_min_hours
    } else if tier == 4 {
        d.tier4_min_hours
    } else {
        d.tier5_min_hours
    }
}

/// The largest number of hours `chrono` accepts as a duration.
pub open spec fn max_duration_hours() -> int {
    i64::MAX / 3_600_000
}

/// A time-locked governance change; times are seconds since the Unix epoch.
#[derive(Debug)]
pub struct TimeLockedChange {
    pub change_id: String,
    pub tier: u8,
    pub description: String,
    pub pr_number: Option<i64>,
    pub lock_start: i64,
    pub min_duration_hours: i64,
    pub lock_end: i64,
    pub status: String,
    /// The nodes that signalled an override, each with when it last did,
    /// each node once.
    pub override_signals: Vec<(String, i64)>,
    pub created_at: i64,
    pub updated_at: i64,
}

/// Why a time lock cannot be created.
#[derive(Debug, PartialEq, Eq, Structural)]
pub enum TimeLockError {
    InvalidDurationHours,
}

/// The state of a change, by its recorded status and its lock end, at `now`.
pub open spec fn status_at(status: Seq<char>, lock_end: i64, now: i64) -> TimeLockStatus {
    if status == "activated"@ {
        TimeLockStatus::Activated
    } else if status == "cancelled"@ {
        TimeLockStatus::Cancelled
    } else if now >= lock_end {
        TimeLockStatus::Ready
    } else {
        TimeLockStatus::Pending
    }
}

/// The node at position `i` of a signal list.
pub open spec fn signal_node(s: Seq<(String, i64)>, i: int) -> Seq<char> {
    s[i].0@
}

/// Each node signals at most once.
pub open spec fn signals_unique(s: Seq<(String, i64)>) -> bool {
    forall|i: int, j: int| 0 <= i < j < s.len() ==> signal_node(s, i) != signal_node(s, j)
}

/// The time of a node's signal, if it sent one.
pub open spec fn signal_time(s: Seq<(String, i64)>, node: Seq<char>) -> Option<i64> {
    if exists|i: int| 0 <= i < s.len() && signal_node(s, i) == node {
        Some(s[choose|i: int| 0 <= i < s.len() && signal_node(s, i) == node].1)
    } else {
        None
    }
}

proof fn lemma_signal_time_at(s: Seq<(String, i64)>, i: int)
    requires
        signals_unique(s),
        0 <= i < s.len(),
    ensures
        signal_time(s, signal_node(s, i)) == Some(s[i].1),
{
    let k = signal_node(s, i);
    let j = choose|j: int| 0 <= j < s.len() && signal_node(s, j) == k;
    if j != i {
        if j < i {
            assert(signal_node(s, j) != signal_node(s, i));
        } else {
            assert(signal_node(s, i) != signal_node(s, j));
        }
    }
}

/// A change whose recorded status is `pending`.
pub open spec fn is_pending(c: TimeLockedChange) -> bool {
    c.status@ == "pending"@
}

/// The number of override signals that reach `percent` per cent of
/// `active` nodes: the least count whose share of the active nodes is at
/// least that percentage.
pub open spec fn override_count_needed(active: int, percent: int) -> int {
    (active * percent + 99) / 100
}

/// The override signals needed against a change when `active` nodes are
/// active: `percent` per cent of them, rounded up.
pub fn override_threshold_count(active: usize, percent: u8) -> (r: usize)
    requires
        percent <= 100,
    ensures
        r == override_count_needed(active as int, percent as int),
        100 * r >= active * percent,
        r == 0 || 100 * (r - 1) < active * percent,
        r <= active,
{
    let a: u128 = active as u128;
    let p: u128 = percent as u128;
    assert(a * p <= a * 100 && a * 100 <= 0xffff_ffff_ffff_ffff * 100) by (nonlinear_arith)
        requires
            a <= 0xffff_ffff_ffff_ffff,
            p <= 100,
    ;
    let product: u128 = a * p;
    let needed: u128 = (product + 99) / 100;
    needed as usize
}

/// Keeps time locks.
pub struct TimeLockManager {
    pub durations: TimeLockDurations,
    /// The share of active nodes, in per cent, whose override signals
    /// hold a change back.
    pub user_override_percent: u8,
}

impl TimeLockManager {
    /// A manager with the given durations and the default override share of
    /// three quarters of the active nodes.
    pub fn new(durations: TimeLockDurations) -> (r: Self)
        ensures
            r.durations == durations,
            r.user_override_percent == 75,
            r.wf(),
    {
        TimeLockManager { durations, user_override_percent: 75 }
    }

    /// The override share is a percentage.
    pub open spec fn wf(&self) -> bool {
        self.user_override_percent <= 100
    }

    /// The lock duration of a tier, in hours.
    pub fn min_duration_hours(&self, tier: u8) -> (r: i64)
        ensures
            r == duration_for(self.durations, tier),
    {
        if tier == 3 {
            self.durations.tier3_min_hours
        } else if tier == 4 {
            self.durations.tier4_min_hours
        } else {
            self.durations.tier5_min_hours
        }
    }

    /// The pending time lock of a change of the given tier started at
    /// `now`; refused where the tier's duration is not a valid duration.
    pub fn create_time_lock(&self, change_id: &str, tier: u8, description: &str, pr_number: Option<i64>, now: i64) -> (r: Result<TimeLockedChange, TimeLockError>)
        requires
            -0x4000_0000_0000_0000 <= now <= 0x4000_0000_0000_0000,
        ensures
            ({
                let h = duration_for(self.durations, tier);
                if -max_duration_hours() <= h <= max_duration_hours() {
                    r matches Ok(c) && c.change_id@ == change_id@ && c.tier == tier && c.description@ == description@
                        && c.pr_number == pr_number && c.lock_start == now && c.min_duration_hours == h
                        && c.lock_end == now + h * 3600 && c.status@ == "pending"@ && c.override_signals@.len() == 0
                        && c.created_at == now && c.updated_at == now
                } else {
                    r == Err::<TimeLockedChange, TimeLockError>(TimeLockError::InvalidDurationHours)
                }
            }),
    {
        let hours = self.min_duration_hours(tier);
        if hours < -(i64::MAX / 3_600_000) || hours > i64::MAX / 3_600_000 {
            return Err(TimeLockError::InvalidDurationHours);
        }
        proof {
            assert(-0x4000_0000_0000_0000 <= hours * 3600 <= 0x4000_0000_0000_0000) by (nonlinear_arith)
                requires
                    -(i64::MAX / 3_600_000) <= hours <= i64::MAX / 3_600_000;
        }
        let lock_end = now + hours * 3600;
        Ok(TimeLockedChange {
            change_id: String::from_str(change_id),
            tier,
            description: String::from_str(description),
            pr_number,
            lock_start: now,
            min_duration_hours: hours,
            lock_end,
            status: String::from_str("pending"),
            override_signals: Vec::new(),
            created_at: now,
            updated_at: now,
        })
    }

    /// The state of a change at `now`; a change that was not found reads as
    /// cancelled.
    pub fn check_time_lock(change: Option<&TimeLockedChange>, now: i64) -> (r: TimeLockStatus)
        ensures
            r == match change {
                Some(c) => status_at(c.status@, c.lock_end, now),
                None => TimeLockStatus::Cancelled,
            },
    {
        match change {
            None => TimeLockStatus::Cancelled,
            Some(c) => {
                if str_eq(c.status.as_str(), "activated") {
                    TimeLockStatus::Activated
                } else if str_eq(c.status.as_str(), "cancelled") {
                    TimeLockStatus::Cancelled
                } else if now >= c.lock_end {
                    TimeLockStatus::Ready
                } else {
                    TimeLockStatus::Pending
                }
            },
        }
    }

    /// Seconds left on a change's lock at `now`, zero once elapsed; none for
    /// a change that was not found.
    pub fn get_time_remaining(change: Option<&TimeLockedChange>, now: i64) -> (r: Option<u64>)
        ensures
            r == match change {
                Some(c) => Some(if now >= c.lock_end { 0u64 } else { (c.lock_end - now) as u64 }),
                None => None::<u64>,
            },
    {
        match change {
            None => None,
            Some(c) => {
                if now >= c.lock_end {
                    Some(0)
                } else {
                    Some(((c.lock_end as i128) - (now as i128)) as u64)
                }
            },
        }
    }

    /// Records a node's override signal at `now`, replacing an earlier one.
    pub fn record_override_signal(change: &mut TimeLockedChange, node_id: &str, now: i64)
        requires
            signals_unique(old(change).override_signals@),
        ensures
            signals_unique(final(change).override_signals@),
            signal_time(final(change).override_signals@, node_id@) == Some(now),
            forall|n: Seq<char>| n != node_id@ ==> signal_time(final(change).override_signals@, n)
                == signal_time(old(change).override_signals@, n),
            final(change).updated_at == now,
            final(change).change_id == old(change).change_id,
            final(change).status == old(change).status,
            final(change).lock_end == old(change).lock_end,
    {
        let ghost old_s = change.override_signals@;
        let n = change.override_signals.len();
        let mut i: usize = 0;
        let mut found: bool = false;
        while i < n
            invariant_except_break
                !found,
            invariant
                n == old_s.len(),
                change.override_signals@ == old_s,
                signals_unique(old_s),
                i <= n,
                forall|j: int| 0 <= j < i ==> signal_node(old_s, j) != node_id@,
            ensures
                i <= n,
                change.override_signals@ == old_s,
                found ==> i < n && signal_node(old_s, i as int) == node_id@,
                !found ==> forall|j: int| 0 <= j < n ==> signal_node(old_s, j) != node_id@,
            decreases n - i,
        {
            if str_eq(change.override_signals[i].0.as_str(), node_id) {
                found = true;
                break;
            }
            i = i + 1;
        }
        let entry = (String::from_str(node_id), now);
        if found {
            change.override_signals.set(i, entry);
        } else {
            change.override_signals.push(entry);
        }
        change.updated_at = now;
        proof {
            let s = change.override_signals@;
            assert forall|a: int| 0 <= a < old_s.len() && !(found && a == i) implies signal_node(s, a) == signal_node(old_s, a) by {}
            assert forall|a: int, b: int| 0 <= a < b < s.len() implies signal_node(s, a) != signal_node(s, b) by {
                if found {
                    if a == i {
                        assert(signal_node(s, a) == signal_node(old_s, a));
                    }
                    if b == i {
                        assert(signal_node(s, b) == signal_node(old_s, b));
                    }
                } else {
                    if b == n {
                        assert(signal_node(s, b) == node_id@);
                    }
                }
            }
            let k: int = if found { i as int } else { n as int };
            assert(signal_node(s, k) == node_id@);
            lemma_signal_time_at(s, k);
            assert forall|m: Seq<char>| m != node_id@ implies signal_time(s, m) == signal_time(old_s, m) by {
                if exists|j: int| 0 <= j < old_s.len() && signal_node(old_s, j) == m {
                    let j = choose|j: int| 0 <= j < old_s.len() && signal_node(old_s, j) == m;
                    lemma_signal_time_at(old_s, j);
                    assert(j != k);
                    assert(signal_node(s, j) == m);
                    lemma_signal_time_at(s, j);
                } else {
                    if exists|j: int| 0 <= j < s.len() && signal_node(s, j) == m {
                        let j = choose|j: int| 0 <= j < s.len() && signal_node(s, j) == m;
                        assert(j != k);
                        assert(signal_node(old_s, j) == m);
                    }
                }
            }
        }
    }

    /// Marks a change activated at `now`.
    pub fn activate_change(change: &mut TimeLockedChange, now: i64)
        ensures
            final(change).status@ == "activated"@,
            final(change).updated_at == now,
            final(change).change_id == old(change).change_id,
            final(change).lock_end == old(change).lock_end,
            final(change).override_signals == old(change).override_signals,
    {
        change.status = String::from_str("activated");
        change.updated_at = now;
    }

    /// Marks a change cancelled at `now`.
    pub fn cancel_change(change: &mut TimeLockedChange, now: i64)
        ensures
            final(change).status@ == "cancelled"@,
            final(change).updated_at == now,
            final(change).change_id == old(change).change_id,
            final(change).lock_end == old(change).lock_end,
            final(change).override_signals == old(change).override_signals,
    {
        change.status = String::from_str("cancelled");
        change.updated_at = now;
    }

    /// Whether the change has as many override signals as the configured
    /// share of `active_node_count` nodes, rounded up; a missing change has
    /// none.
    pub fn check_override_threshold(&self, change: Option<&TimeLockedChange>, active_node_count: usize) -> (r: bool)
        requires
            self.wf(),
        ensures
            r == match change {
                Some(c) => c.override_signals@.len() >= override_count_needed(active_node_count as int,
                    self.user_override_percent as int),
                None => false,
            },
    {
        match change {
            Some(c) => c.override_signals.len() >= override_threshold_count(active_node_count, self.user_override_percent),
            None => false,
        }
    }

    /// The position of the change with the given identifier, the first one
    /// where several share it.
    pub fn get_change(changes: &[TimeLockedChange], change_id: &str) -> (r: Option<usize>)
        ensures
            match r {
                Some(i) => i < changes@.len() && changes@[i as int].change_id@ == change_id@
                    && forall|j: int| 0 <= j < i ==> changes@[j].change_id@ != change_id@,
                None => forall|j: int| 0 <= j < changes@.len() ==> changes@[j].change_id@ != change_id@,
            },
    {
        let n = changes.len();
        let mut i: usize = 0;
        while i < n
            invariant
                n == changes@.len(),
                i <= n,
                forall|j: int| 0 <= j < i ==> changes@[j].change_id@ != change_id@,
            decreases n - i,
        {
            if str_eq(changes[i].change_id.as_str(), change_id) {
                return Some(i);
            }
            i = i + 1;
        }
        None
    }

    /// The positions of the pending changes, by lock end, earliest first.
    pub fn list_pending(changes: &[TimeLockedChange]) -> (r: Vec<usize>)
        ensures
            forall|k: int| 0 <= k < r@.len() ==> #[trigger] r@[k] < changes@.len() && is_pending(changes@[r@[k] as int]),
            forall|j: int| 0 <= j < changes@.len() && is_pending(#[trigger] changes@[j]) ==> r@.contains(j as usize),
            forall|a: int, b: int| 0 <= a < b < r@.len() ==> r@[a] != r@[b],
            forall|a: int, b: int| 0 <= a < b < r@.len() ==> changes@[r@[a] as int].lock_end <= changes@[r@[b] as int].lock_end,
    {
        let n = changes.len();
        let mut out: Vec<usize> = Vec::new();
        let mut i: usize = 0;
        while i < n
            invariant
                n == changes@.len(),
                i <= n,
                forall|k: int| 0 <= k < out@.len() ==> #[trigger] out@[k] < i && is_pending(changes@[out@[k] as int]),
                forall|j: int| 0 <= j < i && is_pending(#[trigger] changes@[j]) ==> out@.contains(j as usize),
                forall|a: int, b: int| 0 <= a < b < out@.len() ==> out@[a] != out@[b],
                forall|a: int, b: int| 0 <= a < b < out@.len() ==> changes@[out@[a] as int].lock_end <= changes@[out@[b] as int].lock_end,
            decreases n - i,
        {
            if str_eq(changes[i].status.as_str(), "pending") {
                let end = changes[i].lock_end;
                let m = out.len();
                let mut pos: usize = 0;
                while pos < m && changes[out[pos]].lock_end <= end
                    invariant
                        n == changes@.len(),
                        i < n,
                        m == out@.len(),
                        pos <= m,
                        end == changes@[i as int].lock_end,
                        forall|k: int| 0 <= k < out@.len() ==> #[trigger] out@[k] < i,
                        forall|k: int| 0 <= k < pos ==> changes@[out@[k] as int].lock_end <= end,
                    decreases m - pos,
                {
                    pos = pos + 1;
                }
                let ghost before = out@;
                out.insert(pos, i);
                proof {
                    assert(out@ == before.insert(pos as int, i));
                    assert forall|k: int| pos < k < out@.len() implies changes@[out@[k] as int].lock_end > end by {
                        if k - 1 >= pos {
                            assert(out@[k] == before[k - 1]);
                            if pos < m {
                                assert(!(changes@[before[pos as int] as int].lock_end <= end));
                                if k - 1 > pos {
                                    assert(changes@[before[pos as int] as int].lock_end <= changes@[before[k - 1] as int].lock_end);
                                }
                            }
                        }
                    }
                    assert forall|j: int| 0 <= j < i + 1 && is_pending(#[trigger] changes@[j]) implies out@.contains(j as usize) by {
                        if j < i {
                            assert(before.contains(j as usize));
                            let k = choose|k: int| 0 <= k < before.len() && before[k] == j as usize;
                            if k < pos {
                                assert(out@[k] == j as usize);
                            } else {
                                assert(out@[k + 1] == j as usize);
                            }
                        } else {
                            assert(out@[pos as int] == i);
                        }
                    }
                }
            } else {
                proof {
                    reveal_strlit("pending");
                }
            }
            i = i + 1;
        }
        out
    }
}

/// A lock never elapses early: before its end a pending change reads as
/// pending, and from its end on as ready, until it is activated or
/// cancelled, after which it reads so whatever the time.
pub proof fn lemma_lock_status(status: Seq<char>, lock_end: i64, now: i64)
    ensures
        status != "activated"@ && status != "cancelled"@ ==> (status_at(status, lock_end, now) == TimeLockStatus::Ready <==> now >= lock_end),
        status == "activated"@ ==> status_at(status, lock_end, now) == TimeLockStatus::Activated,
        status == "cancelled"@ ==> status_at(status, lock_end, now) == TimeLockStatus::Cancelled,
{
    reveal_strlit("activated");
    reveal_strlit("cancelled");
    assert("activated"@ != "cancelled"@) by {
        assert("activated"@[0] != "cancelled"@[0]);
    }
}

} // verus!
