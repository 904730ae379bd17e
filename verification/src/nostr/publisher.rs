//! What the status publisher computes for its hourly governance status
//! event: when the next OpenTimestamps anchor falls, and the tags the event
//! carries.

use vstd::prelude::*;
use vstd::string::*;

verus! {

/// The event kind of a governance status event (a replaceable application
/// event).
pub const STATUS_EVENT_KIND: u16 = 30078;

/// A leap year of the proleptic Gregorian calendar.
pub open spec fn is_leap_year(y: int) -> bool {
    (y % 4 == 0 && y % 100 != 0) || y % 400 == 0
}

/// The number of days in month `m` (1 to 12) of year `y`.
pub open spec fn days_in_month(y: int, m: int) -> int {
    if m == 2 {
        if is_leap_year(y) { 29 } else { 28 }
    } else if m == 4 || m == 6 || m == 9 || m == 11 {
        30
    } else {
        31
    }
}

/// `d` is a day of month `m` of year `y`.
pub open spec fn valid_date(y: int, m: int, d: int) -> bool {
    1 <= m <= 12 && 1 <= d <= days_in_month(y, m)
}

/// The last year the calendar library represents.
pub open spec fn max_calendar_year() -> int {
    262142
}

/// A calendar date and time of day, in UTC.
#[derive(Debug, Clone, Copy, PartialEq, Eq, Structural)]
pub struct AnchorDate {
    pub year: i32,
    pub month: u32,
    pub day: u32,
    pub hour: u32,
    pub minute: u32,
    pub second: u32,
}

/// Midnight at the start of the first day of the month after `month` of
/// `year`.
pub open spec fn next_anchor(year: int, month: int) -> AnchorDate {
    if month == 12 {
        AnchorDate { year: (year + 1) as i32, month: 1, day: 1, hour: 0, minute: 0, second: 0 }
    } else {
        AnchorDate { year: year as i32, month: (month + 1) as u32, day: 1, hour: 0, minute: 0, second: 0 }
    }
}

/// The next anchor after the date `year-month-day`: midnight on the first
/// of the following month. In December the next year must be one the
/// calendar represents.
pub fn next_ots_anchor(year: i32, month: u32, day: u32) -> (r: AnchorDate)
    requires
        valid_date(year as int, month as int, day as int),
        month == 12 ==> year < max_calendar_year(),
    ensures
        r == next_anchor(year as int, month as int),
{
    if month == 12 {
        AnchorDate { year: year + 1, month: 1, day: 1, hour: 0, minute: 0, second: 0 }
    } else {
        AnchorDate { year, month: month + 1, day: 1, hour: 0, minute: 0, second: 0 }
    }
}

/// The views of a list of strings.
pub open spec fn text_views(v: Seq<String>) -> Seq<Seq<char>> {
    v.map_values(|s: String| s@)
}

/// The views of a list of tags.
pub open spec fn tag_views(tags: Seq<(String, Vec<String>)>) -> Seq<(Seq<char>, Seq<Seq<char>>)> {
    tags.map_values(|t: (String, Vec<String>)| (t.0@, text_views(t.1@)))
}

/// The tags of the status event of `server_id` in month `current_month`
/// (written `YYYY-MM`).
pub open spec fn status_tags(server_id: Seq<char>, current_month: Seq<char>) -> Seq<(Seq<char>, Seq<Seq<char>>)> {
    seq![
        ("d"@, seq!["governance-status"@]),
        ("server"@, seq![server_id]),
        ("authorized_by"@, seq!["registry-"@ + current_month]),
        ("btcdecoded"@, seq!["governance-infrastructure"@]),
        ("t"@, seq!["bitcoin"@, "governance"@]),
    ]
}

fn tag(name: &str, values: Vec<String>) -> (r: (String, Vec<String>))
    ensures
        r.0@ == name@,
        r.1@ == values@,
{
    (String::from_str(name), values)
}

/// The tags of the status event: its identifier, the server, the monthly
/// registry that authorizes it, the project, and its topics.
pub fn status_event_tags(server_id: &str, current_month: &str) -> (r: Vec<(String, Vec<String>)>)
    ensures
        tag_views(r@) == status_tags(server_id@, current_month@),
{
    let mut registry = String::from_str("registry-");
    registry.append(current_month);
    let mut out: Vec<(String, Vec<String>)> = Vec::new();
    out.push(tag("d", vec![String::from_str("governance-status")]));
    out.push(tag("server", vec![String::from_str(server_id)]));
    out.push(tag("authorized_by", vec![registry]));
    out.push(tag("btcdecoded", vec![String::from_str("governance-infrastructure")]));
    out.push(tag("t", vec![String::from_str("bitcoin"), String::from_str("governance")]));
    proof {
        assert(text_views(out@[0].1@) =~= seq!["governance-status"@]);
        assert(text_views(out@[1].1@) =~= seq![server_id@]);
        assert(text_views(out@[2].1@) =~= seq!["registry-"@ + current_month@]);
        assert(text_views(out@[3].1@) =~= seq!["governance-infrastructure"@]);
        assert(text_views(out@[4].1@) =~= seq!["bitcoin"@, "governance"@]);
        assert(tag_views(out@) =~= status_tags(server_id@, current_month@));
    }
    out
}

} // verus!
