//! The governance review policy: what each step of a case needs and the
//! deadlines it sets. Times are seconds since the Unix epoch.

use vstd::prelude::*;
use vstd::string::*;
use crate::clock::{format_utc, in_date_range, spec_format_utc};
use crate::text::{dec_nat, str_eq, u64_to_string};

verus! {

/// Seconds in a day.
pub const DAY_SECONDS: i64 = 86400;
/// Days a subject has to respond.
pub const RESPONSE_DEADLINE_DAYS: i64 = 30;
/// Days within which a case must be resolved.
pub const RESOLUTION_DEADLINE_DAYS: i64 = 180;
/// Days within which an appeal must be decided.
pub const APPEAL_DEADLINE_DAYS: i64 = 60;
/// Days a public warning gives to improve.
pub const IMPROVEMENT_PERIOD_DAYS: i64 = 90;
/// Days a mediation may run.
pub const MEDIATION_PERIOD_DAYS: i64 = 30;
/// Days an improvement period may be extended by.
pub const IMPROVEMENT_EXTENSION_DAYS: i64 = 30;
/// Days beyond its original deadline a time limit may be extended to.
pub const MAX_EXTENSION_DAYS: i64 = 90;
/// Team approvals a private warning needs (of seven).
pub const PRIVATE_WARNING_THRESHOLD: usize = 4;
/// Team approvals a public warning needs (of seven).
pub const PUBLIC_WARNING_THRESHOLD: usize = 5;
/// Team approvals a removal needs (of seven).
pub const REMOVAL_TEAM_THRESHOLD: usize = 6;
/// Teams that must approve a removal (of seven).
pub const REMOVAL_TEAMS_THRESHOLD: i32 = 4;
/// Teams that must approve overturning a decision on appeal (of seven).
pub const APPEAL_OVERTURN_THRESHOLD: i32 = 5;
/// Emergency keyholders that must approve an immediate removal (of five).
pub const EMERGENCY_REMOVAL_THRESHOLD: usize = 4;

/// Times this far from the epoch leave room for every deadline the policy
/// adds.
pub open spec fn time_in_range(t: i64) -> bool {
    -0x1000_0000_0000 <= t <= 0x1000_0000_0000
}

/// Why a step of a case is refused.
#[derive(Debug, PartialEq, Eq, Structural)]
pub enum PolicyError {
    /// Only on-platform conduct is considered.
    OffPlatform,
    /// Fewer approvals than the step needs.
    InsufficientApprovals,
    /// Fewer approving teams than the step needs.
    InsufficientTeams,
    /// The extension goes past the latest allowed date.
    ExtensionTooLong,
}

/// The deadlines a new case gets.
#[derive(Debug, PartialEq, Eq, Structural)]
pub struct CaseDeadlines {
    pub response_deadline: i64,
    pub resolution_deadline: i64,
}

/// Admits a report as a case at `now`: only on-platform conduct is
/// considered; the subject has thirty days to respond and the case must be
/// resolved within one hundred and eighty.
pub fn admit_case(on_platform: bool, now: i64) -> (r: Result<CaseDeadlines, PolicyError>)
    requires
        time_in_range(now),
    ensures
        !on_platform ==> r == Err::<CaseDeadlines, PolicyError>(PolicyError::OffPlatform),
        on_platform ==> r == Ok::<CaseDeadlines, PolicyError>(CaseDeadlines {
            response_deadline: (now + 30 * 86400) as i64,
            resolution_deadline: (now + 180 * 86400) as i64,
        }),
{
    if !on_platform {
        return Err(PolicyError::OffPlatform);
    }
    Ok(CaseDeadlines {
        response_deadline: now + RESPONSE_DEADLINE_DAYS * DAY_SECONDS,
        resolution_deadline: now + RESOLUTION_DEADLINE_DAYS * DAY_SECONDS,
    })
}

/// A number of at least four digits, zero-padded on the left.
pub open spec fn pad4(n: nat) -> Seq<char> {
    if n < 10 {
        "000"@ + dec_nat(n)
    } else if n < 100 {
        "00"@ + dec_nat(n)
    } else if n < 1000 {
        "0"@ + dec_nat(n)
    } else {
        dec_nat(n)
    }
}

fn padded4(n: u64) -> (r: String)
    ensures
        r@ == pad4(n as nat),
{
    let d = u64_to_string(n);
    let mut s = if n < 10 {
        String::from_str("000")
    } else if n < 100 {
        String::from_str("00")
    } else if n < 1000 {
        String::from_str("0")
    } else {
        String::new()
    };
    s.append(d.as_str());
    s
}

/// The remainder of the time stamp by 10000, with the sign of the time
/// stamp (as Rust's `%` gives it).
pub open spec fn stamp_remainder(now: i64) -> int {
    if now >= 0 { (now as int) % 10000 } else { -((-(now as int)) % 10000) }
}

/// The remainder as a 32-bit unsigned number: a negative remainder wraps
/// around, as Rust's `as u32` does.
pub open spec fn stamp_suffix_base(now: i64) -> int {
    let rem = stamp_remainder(now);
    if rem >= 0 { rem } else { rem + 0x1_0000_0000 }
}

/// The case number tried at the given attempt: `GR-` and the date as
/// year, month and day, then the time stamp's last four digits (as a 32-bit
/// unsigned number) plus the attempt, zero-padded to four digits.
pub open spec fn case_number_text(now: i64, attempt: u32) -> Seq<char> {
    "GR-"@ + spec_format_utc(now as int, "%Y-%m%d"@) + "-"@ + pad4((stamp_suffix_base(now) + attempt) as nat)
}

/// The case number to try at `attempt` for a case opened at `now`. Before
/// 1970 the last digits wrap around as 32-bit numbers; the sum with the
/// attempt must then still fit in 32 bits.
pub fn case_number(now: i64, attempt: u32) -> (r: String)
    requires
        in_date_range(now as int),
        attempt < 10,
        stamp_suffix_base(now) + attempt <= u32::MAX,
    ensures
        r@ == case_number_text(now, attempt),
{
    proof {
        reveal_strlit("%Y-%m%d");
    }
    let date = match format_utc(now, "%Y-%m%d") {
        Some(d) => d,
        None => String::new(),
    };
    let rem: i64 = if now >= 0 { now % 10000 } else { -((-now) % 10000) };
    let base: u64 = if rem >= 0 { rem as u64 } else { (rem + 0x1_0000_0000) as u64 };
    let suffix: u64 = base + attempt as u64;
    let mut s = String::from_str("GR-");
    s.append(date.as_str());
    s.append("-");
    let p = padded4(suffix);
    s.append(p.as_str());
    s
}

/// The number of a case opened by an emergency action: `GR-`, the kind, and
/// the date and time.
pub open spec fn action_case_number(kind: Seq<char>, now: i64) -> Seq<char> {
    "GR-"@ + kind + "-"@ + spec_format_utc(now as int, "%Y%m%d-%H%M%S"@)
}

fn action_case(kind: &str, now: i64) -> (r: String)
    requires
        in_date_range(now as int),
    ensures
        r@ == action_case_number(kind@, now),
{
    proof {
        reveal_strlit("%Y%m%d-%H%M%S");
    }
    let stamp = match format_utc(now, "%Y%m%d-%H%M%S") {
        Some(d) => d,
        None => String::new(),
    };
    let mut s = String::from_str("GR-");
    s.append(kind);
    s.append("-");
    s.append(stamp.as_str());
    s
}

/// A private warning needs four team approvals.
pub fn check_private_warning(approvals: usize) -> (r: Result<(), PolicyError>)
    ensures
        r is Ok <==> approvals >= 4,
        r is Err ==> r == Err::<(), PolicyError>(PolicyError::InsufficientApprovals),
{
    if approvals < PRIVATE_WARNING_THRESHOLD { Err(PolicyError::InsufficientApprovals) } else { Ok(()) }
}

/// A public warning needs five team approvals and gives ninety days to
/// improve; the result is the improvement deadline.
pub fn check_public_warning(approvals: usize, now: i64) -> (r: Result<i64, PolicyError>)
    requires
        time_in_range(now),
    ensures
        approvals >= 5 ==> r == Ok::<i64, PolicyError>((now + 90 * 86400) as i64),
        approvals < 5 ==> r == Err::<i64, PolicyError>(PolicyError::InsufficientApprovals),
{
    if approvals < PUBLIC_WARNING_THRESHOLD {
        Err(PolicyError::InsufficientApprovals)
    } else {
        Ok(now + IMPROVEMENT_PERIOD_DAYS * DAY_SECONDS)
    }
}

/// A removal needs six approvals from the team and four approving teams,
/// checked in that order.
pub fn check_removal(team_approvals: usize, teams_approval_count: i32) -> (r: Result<(), PolicyError>)
    ensures
        team_approvals < 6 ==> r == Err::<(), PolicyError>(PolicyError::InsufficientApprovals),
        team_approvals >= 6 && teams_approval_count < 4 ==> r == Err::<(), PolicyError>(PolicyError::InsufficientTeams),
        team_approvals >= 6 && teams_approval_count >= 4 ==> r is Ok,
{
    if team_approvals < REMOVAL_TEAM_THRESHOLD {
        return Err(PolicyError::InsufficientApprovals);
    }
    if teams_approval_count < REMOVAL_TEAMS_THRESHOLD {
        return Err(PolicyError::InsufficientTeams);
    }
    Ok(())
}

/// An emergency removal needs four keyholder approvals; it opens a removed
/// case whose reporter is the first approver. The result is that case's
/// number and reporter.
pub fn check_emergency_removal(keyholder_approvals: &Vec<i32>, now: i64) -> (r: Result<(String, i32), PolicyError>)
    requires
        in_date_range(now as int),
    ensures
        keyholder_approvals@.len() < 4 ==> r == Err::<(String, i32), PolicyError>(PolicyError::InsufficientApprovals),
        keyholder_approvals@.len() >= 4 ==> (r matches Ok((num, reporter)) && num@ == action_case_number("EMERGENCY"@, now)
            && reporter == keyholder_approvals@[0]),
{
    if keyholder_approvals.len() < EMERGENCY_REMOVAL_THRESHOLD {
        return Err(PolicyError::InsufficientApprovals);
    }
    Ok((action_case("EMERGENCY", now), keyholder_approvals[0]))
}

/// Confirming retaliation needs four keyholder approvals and removes the
/// retaliator at once; the result is the removal case's number and
/// description.
pub fn check_retaliation_confirmation(keyholder_approvals: usize, description: &str, now: i64) -> (r: Result<(String, String), PolicyError>)
    requires
        in_date_range(now as int),
    ensures
        keyholder_approvals < 4 ==> r == Err::<(String, String), PolicyError>(PolicyError::InsufficientApprovals),
        keyholder_approvals >= 4 ==> (r matches Ok((num, desc)) && num@ == action_case_number("RETALIATION"@, now)
            && desc@ == "Retaliation confirmed: "@ + description@),
{
    if keyholder_approvals < EMERGENCY_REMOVAL_THRESHOLD {
        return Err(PolicyError::InsufficientApprovals);
    }
    let mut desc = String::from_str("Retaliation confirmed: ");
    desc.append(description);
    Ok((action_case("RETALIATION", now), desc))
}

/// The deadline of an appeal submitted at `now`: sixty days, but never past
/// the case's resolution deadline.
pub open spec fn appeal_deadline_at(now: i64, resolution_deadline: Option<i64>) -> int {
    let sixty = now + 60 * 86400;
    match resolution_deadline {
        Some(d) => if d < sixty { d as int } else { sixty },
        None => sixty,
    }
}

/// The deadline of an appeal submitted at `now`.
pub fn appeal_deadline(now: i64, resolution_deadline: Option<i64>) -> (r: i64)
    requires
        time_in_range(now),
    ensures
        r == appeal_deadline_at(now, resolution_deadline),
        r <= now + 60 * 86400,
{
    let sixty = now + APPEAL_DEADLINE_DAYS * DAY_SECONDS;
    match resolution_deadline {
        Some(d) => if d < sixty { d } else { sixty },
        None => sixty,
    }
}

/// Reviews an appeal: granting it needs five approving teams; a granted
/// appeal reinstates the maintainer and resolves the case with the given
/// reason. The result is that resolution reason, for a granted appeal.
pub fn review_appeal(teams_approval_count: i32, decision: &str, review_decision: &str) -> (r: Result<Option<String>, PolicyError>)
    ensures
        decision@ == "granted"@ && teams_approval_count < 5 ==> r == Err::<Option<String>, PolicyError>(PolicyError::InsufficientTeams),
        decision@ == "granted"@ && teams_approval_count >= 5 ==> (r matches Ok(Some(reason))
            && reason@ == "Appeal granted: "@ + review_decision@),
        decision@ != "granted"@ ==> r == Ok::<Option<String>, PolicyError>(None),
{
    if str_eq(decision, "granted") {
        if teams_approval_count < APPEAL_OVERTURN_THRESHOLD {
            return Err(PolicyError::InsufficientTeams);
        }
        let mut reason = String::from_str("Appeal granted: ");
        reason.append(review_decision);
        Ok(Some(reason))
    } else {
        Ok(None)
    }
}

/// The deadline a time limit is extended from: its recorded deadline; else,
/// for a resolution limit, the case's resolution deadline or `now`; else `now`.
pub open spec fn extension_base(limit_type: Seq<char>, recorded: Option<i64>, case_resolution: Option<i64>, now: i64) -> i64 {
    match recorded {
        Some(d) => d,
        None => if limit_type == "resolution"@ {
            match case_resolution { Some(d) => d, None => now }
        } else {
            now
        },
    }
}

/// Checks an extension of a time limit: it may run at most ninety days past
/// the deadline it extends.
pub fn check_extension(limit_type: &str, recorded: Option<i64>, case_resolution: Option<i64>, now: i64, extension_until: i64) -> (r: Result<(), PolicyError>)
    requires
        time_in_range(extension_base(limit_type@, recorded, case_resolution, now)),
    ensures
        r is Ok <==> extension_until <= extension_base(limit_type@, recorded, case_resolution, now) + 90 * 86400,
        r is Err ==> r == Err::<(), PolicyError>(PolicyError::ExtensionTooLong),
{
    let base: i64 = match recorded {
        Some(d) => d,
        None => if str_eq(limit_type, "resolution") {
            match case_resolution {
                Some(d) => d,
                None => now,
            }
        } else {
            now
        },
    };
    let max_extension = base + MAX_EXTENSION_DAYS * DAY_SECONDS;
    if extension_until > max_extension {
        Err(PolicyError::ExtensionTooLong)
    } else {
        Ok(())
    }
}

/// The deadline of a mediation started at `now`: thirty days on.
pub fn mediation_deadline(now: i64) -> (r: i64)
    requires
        time_in_range(now),
    ensures
        r == now + 30 * 86400,
{
    now + MEDIATION_PERIOD_DAYS * DAY_SECONDS
}

/// A status that closes a case.
pub open spec fn closed_status(status: Seq<char>) -> bool {
    status == "resolved"@ || status == "dismissed"@ || status == "removed"@ || status == "expired"@
}

/// An open case past its resolution deadline has expired.
pub open spec fn case_expired(status: Seq<char>, resolution_deadline: Option<i64>, now: i64) -> bool {
    !closed_status(status) && (resolution_deadline matches Some(d) && d < now)
}

/// Has the case expired at `now`?
pub fn is_case_expired(status: &str, resolution_deadline: Option<i64>, now: i64) -> (r: bool)
    ensures
        r == case_expired(status@, resolution_deadline, now),
{
    let closed = str_eq(status, "resolved") || str_eq(status, "dismissed") || str_eq(status, "removed") || str_eq(status, "expired");
    !closed && match resolution_deadline {
        Some(d) => d < now,
        None => false,
    }
}

/// Has a pending appeal run past its deadline at `now`?
pub fn is_appeal_expired(status: &str, appeal_deadline: Option<i64>, now: i64) -> (r: bool)
    ensures
        r == (status@ == "pending"@ && (appeal_deadline matches Some(d) && d < now)),
{
    str_eq(status, "pending") && match appeal_deadline {
        Some(d) => d < now,
        None => false,
    }
}

/// Has an active mediation run past its deadline at `now`?
pub fn is_mediation_expired(status: &str, mediation_deadline: Option<i64>, now: i64) -> (r: bool)
    ensures
        r == (status@ == "active"@ && (mediation_deadline matches Some(d) && d < now)),
{
    str_eq(status, "active") && match mediation_deadline {
        Some(d) => d < now,
        None => false,
    }
}

/// Has a time limit that was not extended passed at `now`?
pub fn is_limit_expired(deadline: i64, extended: bool, now: i64) -> (r: bool)
    ensures
        r == (deadline < now && !extended),
{
    deadline < now && !extended
}

/// When a status change resolves a case: at `now` for resolved, removed and
/// dismissed, never for the others.
pub fn resolved_at_for(status: &str, now: i64) -> (r: Option<i64>)
    ensures
        r == (if status@ == "resolved"@ || status@ == "removed"@ || status@ == "dismissed"@ { Some(now) } else { None::<i64> }),
{
    if str_eq(status, "resolved") || str_eq(status, "removed") || str_eq(status, "dismissed") {
        Some(now)
    } else {
        None
    }
}

/// Expiry is permanent: a case, appeal, mediation or time limit that has
/// expired at some time is still expired at every later time, and a closed
/// case never expires.
pub proof fn lemma_expiry_persists(status: Seq<char>, deadline: Option<i64>, t1: i64, t2: i64, limit_deadline: i64, extended: bool)
    requires
        t1 <= t2,
    ensures
        case_expired(status, deadline, t1) ==> case_expired(status, deadline, t2),
        closed_status(status) ==> !case_expired(status, deadline, t2),
        (limit_deadline < t1 && !extended) ==> (limit_deadline < t2 && !extended),
{
}

/// The approvals each sanction needs grow with its weight: whatever may
/// remove a maintainer may also warn publicly, and whatever may warn
/// publicly may also warn privately.
pub proof fn lemma_sanction_thresholds_ordered(approvals: usize)
    ensures
        approvals >= REMOVAL_TEAM_THRESHOLD ==> approvals >= PUBLIC_WARNING_THRESHOLD,
        approvals >= PUBLIC_WARNING_THRESHOLD ==> approvals >= PRIVATE_WARNING_THRESHOLD,
{
}

} // verus!
