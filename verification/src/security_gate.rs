//! The security gate's reports on the security controls: the status
//! summary, the impact of a pull request, placeholder findings, production
//! readiness, and the full markdown report. Each is rendered from the
//! figures of the status file, every one of which may be absent and then
//! takes its default.

use vstd::prelude::*;
use vstd::string::*;
use crate::text::{dec_int, dec_nat, i64_to_string, u64_to_string};

verus! {

/// The per-priority counts of the status file's summary.
#[derive(Debug)]
pub struct ControlSummary {
    pub p0_critical: Option<i64>,
    pub p0_complete: Option<i64>,
    pub p0_incomplete: Option<i64>,
    pub p1_high: Option<i64>,
    pub p1_complete: Option<i64>,
    pub p1_incomplete: Option<i64>,
}

/// One security control as the status file lists it.
#[derive(Debug)]
pub struct ControlEntry {
    pub id: Option<String>,
    pub name: Option<String>,
    pub state: Option<String>,
    pub priority: Option<String>,
    pub blocks_production: Option<bool>,
}

/// The next actions of the status file; `immediate` is absent where the
/// file has no list there.
#[derive(Debug)]
pub struct NextActions {
    pub immediate: Option<Vec<Option<String>>>,
}

/// The security control status file.
#[derive(Debug)]
pub struct SecurityStatus {
    pub production_ready: Option<bool>,
    pub blocking_controls: Option<i64>,
    pub total_controls: Option<i64>,
    pub summary: Option<ControlSummary>,
    pub controls: Option<Vec<ControlEntry>>,
    pub next_actions: Option<NextActions>,
    /// The controls named as audit blockers, where the file lists them.
    pub audit_blockers: Option<Vec<Option<String>>>,
}

/// How strongly a change touches the security controls.
#[derive(Debug, PartialEq, Eq, Structural)]
pub enum ImpactLevel {
    Critical,
    High,
    Medium,
    Low,
    NoImpact,
}

/// A security control touched by a change.
#[derive(Debug)]
pub struct AffectedControl {
    pub id: String,
    pub name: String,
    pub priority: String,
}

/// The security impact of a pull request.
#[derive(Debug)]
pub struct SecurityImpact {
    pub impact_level: ImpactLevel,
    pub affected_controls: Vec<AffectedControl>,
    pub required_tier: Option<String>,
    pub additional_requirements: Vec<String>,
    pub blocks_production: bool,
    pub blocks_audit: bool,
}

/// A placeholder implementation found in a security-critical file.
#[derive(Debug)]
pub struct PlaceholderViolation {
    pub file: String,
    pub line: usize,
    pub pattern: String,
    pub content: String,
}

/// The answer to a production readiness check.
#[derive(Debug)]
pub struct ProductionReadinessResult {
    pub ready: bool,
    pub blocking_controls: usize,
    pub blocking_control_ids: Vec<String>,
}

/// Why a report could not be made.
#[derive(Debug, PartialEq, Eq, Structural)]
pub enum GateError {
    /// An output format other than `json` or `text`.
    UnknownFormat,
    /// Placeholders were found and the caller asked to fail on them.
    PlaceholdersFound,
    /// The system is not ready for production.
    NotProductionReady,
}

// ---------------------------------------------------------------------------
// Defaults and emojis

/// A number, zero where absent.
pub open spec fn num(o: Option<i64>) -> int {
    match o { Some(v) => v as int, None => 0 }
}

/// A flag, false where absent.
pub open spec fn flag(o: Option<bool>) -> bool {
    match o { Some(v) => v, None => false }
}

/// A text, or the default where absent.
pub open spec fn text_or(o: Option<String>, d: Seq<char>) -> Seq<char> {
    match o { Some(s) => s@, None => d }
}

/// The emoji of a control state.
pub open spec fn state_emoji(state: Seq<char>) -> Seq<char> {
    if state == "certified"@ {
        "✅"@
    } else if state == "audited"@ {
        "🔵"@
    } else if state == "implemented"@ {
        "🟢"@
    } else if state == "partial"@ {
        "🟡"@
    } else if state == "placeholder"@ {
        "🔴"@
    } else if state == "missing"@ {
        "⚫"@
    } else {
        "❓"@
    }
}

/// The emoji of a priority.
pub open spec fn priority_emoji(priority: Seq<char>) -> Seq<char> {
    if priority == "P0"@ {
        "🔴"@
    } else if priority == "P1"@ {
        "🟡"@
    } else if priority == "P2"@ {
        "🟢"@
    } else {
        "⚪"@
    }
}

fn state_emoji_of(state: &str) -> (r: &'static str)
    ensures
        r@ == state_emoji(state@),
{
    if crate::text::str_eq(state, "certified") {
        "✅"
    } else if crate::text::str_eq(state, "audited") {
        "🔵"
    } else if crate::text::str_eq(state, "implemented") {
        "🟢"
    } else if crate::text::str_eq(state, "partial") {
        "🟡"
    } else if crate::text::str_eq(state, "placeholder") {
        "🔴"
    } else if crate::text::str_eq(state, "missing") {
        "⚫"
    } else {
        "❓"
    }
}

fn priority_emoji_of(priority: &str) -> (r: &'static str)
    ensures
        r@ == priority_emoji(priority@),
{
    if crate::text::str_eq(priority, "P0") {
        "🔴"
    } else if crate::text::str_eq(priority, "P1") {
        "🟡"
    } else if crate::text::str_eq(priority, "P2") {
        "🟢"
    } else {
        "⚪"
    }
}

fn text_or_default(o: &Option<String>, d: &str) -> (r: String)
    ensures
        r@ == text_or(*o, d@),
{
    match o {
        Some(s) => s.clone(),
        None => String::from_str(d),
    }
}

fn num_text(o: Option<i64>) -> (r: String)
    ensures
        r@ == dec_int(num(o)),
{
    match o {
        Some(v) => i64_to_string(v),
        None => i64_to_string(0),
    }
}

// ---------------------------------------------------------------------------
// The status summary

/// The line of one control in the detailed status.
pub open spec fn status_control_line(c: ControlEntry) -> Seq<char> {
    "  "@ + state_emoji(text_or(c.state, "unknown"@)) + " "@ + priority_emoji(text_or(c.priority, "P3"@)) + " "@
        + text_or(c.name, "Unknown"@) + " - "@ + text_or(c.id, "unknown"@)
        + (if flag(c.blocks_production) { " (BLOCKS)"@ } else { Seq::<char>::empty() }) + "\n"@
}

/// The report lines of the controls, one per control, rendered by `f`.
pub open spec fn control_lines(cs: Seq<ControlEntry>, f: spec_fn(ControlEntry) -> Seq<char>) -> Seq<char>
    decreases cs.len(),
{
    if cs.len() == 0 {
        Seq::empty()
    } else {
        control_lines(cs.drop_last(), f) + f(cs.last())
    }
}

/// The bulleted actions, `prefix` before each, `Unknown` for one that is not
/// a text.
pub open spec fn action_lines(acts: Seq<Option<String>>, prefix: Seq<char>) -> Seq<char>
    decreases acts.len(),
{
    if acts.len() == 0 {
        Seq::empty()
    } else {
        action_lines(acts.drop_last(), prefix) + prefix + text_or(acts.last(), "Unknown"@) + "\n"@
    }
}

/// `status_control_line` as a function value.
pub open spec fn status_line_fn() -> spec_fn(ControlEntry) -> Seq<char> {
    |c: ControlEntry| status_control_line(c)
}

/// The immediate actions of the status file, where it lists some.
pub open spec fn immediate_actions(s: SecurityStatus) -> Option<Seq<Option<String>>> {
    match s.next_actions {
        Some(n) => match n.immediate {
            Some(v) => Some(v@),
            None => None,
        },
        None => None,
    }
}

/// The text of the security status summary.
pub open spec fn status_text(s: SecurityStatus, detailed: bool) -> Seq<char> {
    "🔒 Bitcoin Commons Security Control Status\n=====================================\n\n"@
        + (if flag(s.production_ready) {
            "✅ Production Ready: YES\n"@
        } else {
            "❌ Production Ready: NO ("@ + dec_int(num(s.blocking_controls)) + " controls blocking)\n"@
        })
        + "📊 Total Controls: "@ + dec_int(num(s.total_controls)) + "\n\n"@
        + (match s.summary {
            Some(sm) => "P0 (Critical) Controls: "@ + dec_int(num(sm.p0_complete)) + "/"@ + dec_int(num(sm.p0_critical))
                + " complete\n"@
                + (if num(sm.p0_incomplete) > 0 {
                    "⚠️  "@ + dec_int(num(sm.p0_incomplete)) + " P0 controls incomplete - blocks production\n"@
                } else {
                    Seq::<char>::empty()
                }),
            None => Seq::<char>::empty(),
        })
        + (if detailed {
            "\n📋 Detailed Control Status:\n---------------------------\n"@
                + match s.controls {
                    Some(cs) => control_lines(cs@, status_line_fn()),
                    None => Seq::<char>::empty(),
                }
        } else {
            Seq::<char>::empty()
        })
        + (match immediate_actions(s) {
            Some(acts) => if acts.len() > 0 {
                "\n🎯 Immediate Actions Required:\n"@ + action_lines(acts, "  - "@)
            } else {
                Seq::<char>::empty()
            },
            None => Seq::<char>::empty(),
        })
}

fn status_line(c: &ControlEntry) -> (r: String)
    ensures
        r@ == status_control_line(*c),
{
    let state = text_or_default(&c.state, "unknown");
    let priority = text_or_default(&c.priority, "P3");
    let mut s = String::from_str("  ");
    s.append(state_emoji_of(state.as_str()));
    s.append(" ");
    s.append(priority_emoji_of(priority.as_str()));
    s.append(" ");
    let name = text_or_default(&c.name, "Unknown");
    s.append(name.as_str());
    s.append(" - ");
    let id = text_or_default(&c.id, "unknown");
    s.append(id.as_str());
    let blocks = match c.blocks_production { Some(b) => b, None => false };
    let tail = if blocks { String::from_str(" (BLOCKS)") } else { String::new() };
    s.append(tail.as_str());
    s.append("\n");
    s
}

fn report_line(c: &ControlEntry) -> (r: String)
    ensures
        r@ == report_control_line(*c),
{
    let state = text_or_default(&c.state, "unknown");
    let mut s = String::from_str("- ");
    s.append(state_emoji_of(state.as_str()));
    s.append(" **");
    let name = text_or_default(&c.name, "Unknown");
    s.append(name.as_str());
    s.append("** (");
    let id = text_or_default(&c.id, "unknown");
    s.append(id.as_str());
    s.append(") - ");
    let priority = text_or_default(&c.priority, "P3");
    s.append(priority.as_str());
    let blocks = match c.blocks_production { Some(b) => b, None => false };
    let tail = if blocks { String::from_str(" ⚠️ BLOCKS PRODUCTION") } else { String::new() };
    s.append(tail.as_str());
    s.append("\n");
    s
}

/// Renders every control, in order, with the status or the report line.
fn render_controls(cs: &Vec<ControlEntry>, for_report: bool) -> (r: String)
    ensures
        r@ == control_lines(cs@, if for_report { report_line_fn() } else { status_line_fn() }),
{
    let ghost f = if for_report { report_line_fn() } else { status_line_fn() };
    let mut out = String::new();
    let n = cs.len();
    let mut i: usize = 0;
    while i < n
        invariant
            n == cs@.len(),
            i <= n,
            f == (if for_report { report_line_fn() } else { status_line_fn() }),
            out@ == control_lines(cs@.subrange(0, i as int), f),
        decreases n - i,
    {
        proof {
            assert(cs@.subrange(0, i + 1).drop_last() =~= cs@.subrange(0, i as int));
        }
        let line = if for_report { report_line(&cs[i]) } else { status_line(&cs[i]) };
        out.append(line.as_str());
        i = i + 1;
    }
    proof {
        assert(cs@.subrange(0, n as int) =~= cs@);
    }
    out
}

/// Renders bulleted actions.
fn render_actions(acts: &Vec<Option<String>>, prefix: &str) -> (r: String)
    ensures
        r@ == action_lines(acts@, prefix@),
{
    let mut out = String::new();
    let n = acts.len();
    let mut i: usize = 0;
    while i < n
        invariant
            n == acts@.len(),
            i <= n,
            out@ == action_lines(acts@.subrange(0, i as int), prefix@),
        decreases n - i,
    {
        proof {
            assert(acts@.subrange(0, i + 1).drop_last() =~= acts@.subrange(0, i as int));
        }
        out.append(prefix);
        let a = text_or_default(&acts[i], "Unknown");
        out.append(a.as_str());
        out.append("\n");
        i = i + 1;
    }
    proof {
        assert(acts@.subrange(0, n as int) =~= acts@);
    }
    out
}

/// The status summary, with every control listed when `detailed`.
pub fn check_status(status: &SecurityStatus, detailed: bool) -> (r: String)
    ensures
        r@ == status_text(*status, detailed),
{
    let mut out = String::from_str("🔒 Bitcoin Commons Security Control Status\n=====================================\n\n");
    let ready = match status.production_ready { Some(b) => b, None => false };
    if ready {
        out.append("✅ Production Ready: YES\n");
    } else {
        out.append("❌ Production Ready: NO (");
        let b = num_text(status.blocking_controls);
        out.append(b.as_str());
        out.append(" controls blocking)\n");
    }
    out.append("📊 Total Controls: ");
    let t = num_text(status.total_controls);
    out.append(t.as_str());
    out.append("\n\n");
    let summary = match &status.summary {
        Some(sm) => {
            let mut x = String::from_str("P0 (Critical) Controls: ");
            let a = num_text(sm.p0_complete);
            x.append(a.as_str());
            x.append("/");
            let b = num_text(sm.p0_critical);
            x.append(b.as_str());
            x.append(" complete\n");
            let incomplete = match sm.p0_incomplete { Some(v) => v, None => 0 };
            if incomplete > 0 {
                x.append("⚠️  ");
                let c = num_text(sm.p0_incomplete);
                x.append(c.as_str());
                x.append(" P0 controls incomplete - blocks production\n");
            }
            x
        },
        None => String::new(),
    };
    out.append(summary.as_str());
    let details = if detailed {
        let mut x = String::from_str("\n📋 Detailed Control Status:\n---------------------------\n");
        match &status.controls {
            Some(cs) => {
                let lines = render_controls(cs, false);
                x.append(lines.as_str());
            },
            None => {},
        }
        x
    } else {
        String::new()
    };
    out.append(details.as_str());
    let actions = match &status.next_actions {
        Some(n) => match &n.immediate {
            Some(v) => if v.len() > 0 {
                let mut x = String::from_str("\n🎯 Immediate Actions Required:\n");
                let lines = render_actions(v, "  - ");
                x.append(lines.as_str());
                x
            } else {
                String::new()
            },
            None => String::new(),
        },
        None => String::new(),
    };
    out.append(actions.as_str());
    proof {
        assert(Seq::<char>::empty() + Seq::<char>::empty() =~= Seq::<char>::empty());
    }
    out
}

// ---------------------------------------------------------------------------
// The full report

/// The line of one control in the report.
pub open spec fn report_control_line(c: ControlEntry) -> Seq<char> {
    "- "@ + state_emoji(text_or(c.state, "unknown"@)) + " **"@ + text_or(c.name, "Unknown"@) + "** ("@
        + text_or(c.id, "unknown"@) + ") - "@ + text_or(c.priority, "P3"@)
        + (if flag(c.blocks_production) { " ⚠️ BLOCKS PRODUCTION"@ } else { Seq::<char>::empty() }) + "\n"@
}

/// `report_control_line` as a function value.
pub open spec fn report_line_fn() -> spec_fn(ControlEntry) -> Seq<char> {
    |c: ControlEntry| report_control_line(c)
}

/// A row of the control summary table.
pub open spec fn table_row(label: Seq<char>, total: Option<i64>, complete: Option<i64>, incomplete: Option<i64>) -> Seq<char> {
    "| "@ + label + " | "@ + dec_int(num(total)) + " | "@ + dec_int(num(complete)) + " | "@ + dec_int(num(incomplete)) + " |\n"@
}

/// The markdown report, generated at the given time text.
pub open spec fn report_text(s: SecurityStatus, generated: Seq<char>) -> Seq<char> {
    "# Bitcoin Commons Security Control Report\nGenerated: "@ + generated + "\n\n"@
        + "## Overall Status\n\n"@
        + (if flag(s.production_ready) {
            "✅ **Production Ready**: YES\n\n"@
        } else {
            "❌ **Production Ready**: NO ("@ + dec_int(num(s.blocking_controls)) + " controls blocking)\n\n"@
        })
        + (match s.summary {
            Some(sm) => "## Control Summary\n\n| Priority | Total | Complete | Incomplete |\n|----------|-------|----------|------------|\n"@
                + table_row("P0 (Critical)"@, sm.p0_critical, sm.p0_complete, sm.p0_incomplete)
                + table_row("P1 (High)"@, sm.p1_high, sm.p1_complete, sm.p1_incomplete),
            None => Seq::<char>::empty(),
        })
        + "\n## Detailed Control Status\n\n"@
        + (match s.controls {
            Some(cs) => control_lines(cs@, report_line_fn()),
            None => Seq::<char>::empty(),
        })
        + (match s.next_actions {
            Some(n) => "\n## Next Actions Required\n\n"@ + match n.immediate {
                Some(v) => if v@.len() > 0 {
                    "### Immediate\n"@ + action_lines(v@, "- "@) + "\n"@
                } else {
                    Seq::<char>::empty()
                },
                None => Seq::<char>::empty(),
            },
            None => Seq::<char>::empty(),
        })
}

fn row(label: &str, total: Option<i64>, complete: Option<i64>, incomplete: Option<i64>) -> (r: String)
    ensures
        r@ == table_row(label@, total, complete, incomplete),
{
    let mut x = String::from_str("| ");
    x.append(label);
    x.append(" | ");
    let a = num_text(total);
    x.append(a.as_str());
    x.append(" | ");
    let b = num_text(complete);
    x.append(b.as_str());
    x.append(" | ");
    let c = num_text(incomplete);
    x.append(c.as_str());
    x.append(" |\n");
    x
}

/// The markdown security report; `generated` is the time text it carries.
pub fn generate_report(status: &SecurityStatus, generated: &str) -> (r: String)
    ensures
        r@ == report_text(*status, generated@),
{
    let mut out = String::from_str("# Bitcoin Commons Security Control Report\nGenerated: ");
    out.append(generated);
    out.append("\n\n");
    out.append("## Overall Status\n\n");
    let ready = match status.production_ready { Some(b) => b, None => false };
    if ready {
        out.append("✅ **Production Ready**: YES\n\n");
    } else {
        out.append("❌ **Production Ready**: NO (");
        let b = num_text(status.blocking_controls);
        out.append(b.as_str());
        out.append(" controls blocking)\n\n");
    }
    let summary = match &status.summary {
        Some(sm) => {
            let mut x = String::from_str("## Control Summary\n\n| Priority | Total | Complete | Incomplete |\n|----------|-------|----------|------------|\n");
            let a = row("P0 (Critical)", sm.p0_critical, sm.p0_complete, sm.p0_incomplete);
            x.append(a.as_str());
            let b = row("P1 (High)", sm.p1_high, sm.p1_complete, sm.p1_incomplete);
            x.append(b.as_str());
            x
        },
        None => String::new(),
    };
    out.append(summary.as_str());
    out.append("\n## Detailed Control Status\n\n");
    let controls = match &status.controls {
        Some(cs) => render_controls(cs, true),
        None => String::new(),
    };
    out.append(controls.as_str());
    let next = match &status.next_actions {
        Some(n) => {
            let mut x = String::from_str("\n## Next Actions Required\n\n");
            match &n.immediate {
                Some(v) => if v.len() > 0 {
                    x.append("### Immediate\n");
                    let lines = render_actions(v, "- ");
                    x.append(lines.as_str());
                    x.append("\n");
                },
                None => {},
            }
            x
        },
        None => String::new(),
    };
    out.append(next.as_str());
    proof {
        assert(Seq::<char>::empty() + Seq::<char>::empty() =~= Seq::<char>::empty());
    }
    out
}

// ---------------------------------------------------------------------------
// Pull request impact

/// The headline of an impact level.
pub open spec fn impact_headline(l: ImpactLevel) -> Seq<char> {
    match l {
        ImpactLevel::Critical => "🚨 CRITICAL IMPACT - Multiple P0 security controls affected\n"@,
        ImpactLevel::High => "🔴 HIGH IMPACT - P0 security controls affected\n"@,
        ImpactLevel::Medium => "🟡 MEDIUM IMPACT - P1 security controls affected\n"@,
        ImpactLevel::Low => "🟢 LOW IMPACT - P2 security controls affected\n"@,
        ImpactLevel::NoImpact => "✅ NO IMPACT - No security controls affected\n"@,
    }
}

/// The lines of the affected controls.
pub open spec fn affected_lines(cs: Seq<AffectedControl>) -> Seq<char>
    decreases cs.len(),
{
    if cs.len() == 0 {
        Seq::empty()
    } else {
        affected_lines(cs.drop_last()) + "  "@ + priority_emoji(cs.last().priority@) + " "@ + cs.last().name@ + " ("@
            + cs.last().id@ + ")\n"@
    }
}

/// The lines of texts, each as `  - text`.
pub open spec fn requirement_lines(rs: Seq<String>) -> Seq<char>
    decreases rs.len(),
{
    if rs.len() == 0 {
        Seq::empty()
    } else {
        requirement_lines(rs.drop_last()) + "  - "@ + rs.last()@ + "\n"@
    }
}

/// The text analysis of a pull request's security impact.
pub open spec fn impact_text(pr_number: u32, i: SecurityImpact) -> Seq<char> {
    "🔍 Security Impact Analysis for PR #"@ + dec_nat(pr_number as nat) + "\n=============================================\n\n"@
        + impact_headline(i.impact_level)
        + (if i.affected_controls@.len() > 0 {
            "\n📋 Affected Security Controls:\n"@ + affected_lines(i.affected_controls@)
        } else {
            Seq::<char>::empty()
        })
        + (match i.required_tier {
            Some(t) => "\n🎯 Required Governance Tier: "@ + t@ + "\n"@,
            None => Seq::<char>::empty(),
        })
        + (if i.additional_requirements@.len() > 0 {
            "\n📝 Additional Requirements:\n"@ + requirement_lines(i.additional_requirements@)
        } else {
            Seq::<char>::empty()
        })
        + (if i.blocks_production { "\n⚠️  This PR blocks production deployment!\n"@ } else { Seq::<char>::empty() })
        + (if i.blocks_audit { "\n⚠️  This PR blocks security audit!\n"@ } else { Seq::<char>::empty() })
}

fn headline(l: &ImpactLevel) -> (r: &'static str)
    ensures
        r@ == impact_headline(*l),
{
    match l {
        ImpactLevel::Critical => "🚨 CRITICAL IMPACT - Multiple P0 security controls affected\n",
        ImpactLevel::High => "🔴 HIGH IMPACT - P0 security controls affected\n",
        ImpactLevel::Medium => "🟡 MEDIUM IMPACT - P1 security controls affected\n",
        ImpactLevel::Low => "🟢 LOW IMPACT - P2 security controls affected\n",
        ImpactLevel::NoImpact => "✅ NO IMPACT - No security controls affected\n",
    }
}

fn render_affected(cs: &Vec<AffectedControl>) -> (r: String)
    ensures
        r@ == affected_lines(cs@),
{
    let mut out = String::new();
    let n = cs.len();
    let mut i: usize = 0;
    while i < n
        invariant
            n == cs@.len(),
            i <= n,
            out@ == affected_lines(cs@.subrange(0, i as int)),
        decreases n - i,
    {
        proof {
            assert(cs@.subrange(0, i + 1).drop_last() =~= cs@.subrange(0, i as int));
        }
        out.append("  ");
        out.append(priority_emoji_of(cs[i].priority.as_str()));
        out.append(" ");
        out.append(cs[i].name.as_str());
        out.append(" (");
        out.append(cs[i].id.as_str());
        out.append(")\n");
        i = i + 1;
    }
    proof {
        assert(cs@.subrange(0, n as int) =~= cs@);
    }
    out
}

fn render_requirements(rs: &Vec<String>) -> (r: String)
    ensures
        r@ == requirement_lines(rs@),
{
    let mut out = String::new();
    let n = rs.len();
    let mut i: usize = 0;
    while i < n
        invariant
            n == rs@.len(),
            i <= n,
            out@ == requirement_lines(rs@.subrange(0, i as int)),
        decreases n - i,
    {
        proof {
            assert(rs@.subrange(0, i + 1).drop_last() =~= rs@.subrange(0, i as int));
        }
        out.append("  - ");
        out.append(rs[i].as_str());
        out.append("\n");
        i = i + 1;
    }
    proof {
        assert(rs@.subrange(0, n as int) =~= rs@);
    }
    out
}

/// The text analysis of a pull request's impact; `json` output is rendered
/// elsewhere, and any other format is refused.
pub fn check_pr_impact(pr_number: u32, format: &str, impact: &SecurityImpact) -> (r: Result<Option<String>, GateError>)
    ensures
        format@ == "text"@ ==> (r matches Ok(Some(t)) && t@ == impact_text(pr_number, *impact)),
        format@ == "json"@ ==> r == Ok::<Option<String>, GateError>(None),
        format@ != "text"@ && format@ != "json"@ ==> r == Err::<Option<String>, GateError>(GateError::UnknownFormat),
{
    proof {
        reveal_strlit("json");
        reveal_strlit("text");
        assert("json"@[0] != "text"@[0]);
    }
    if crate::text::str_eq(format, "json") {
        return Ok(None);
    }
    if !crate::text::str_eq(format, "text") {
        return Err(GateError::UnknownFormat);
    }
    let mut out = String::from_str("🔍 Security Impact Analysis for PR #");
    let n = u64_to_string(pr_number as u64);
    out.append(n.as_str());
    out.append("\n=============================================\n\n");
    out.append(headline(&impact.impact_level));
    let a = if impact.affected_controls.len() > 0 {
        let mut x = String::from_str("\n📋 Affected Security Controls:\n");
        let l = render_affected(&impact.affected_controls);
        x.append(l.as_str());
        x
    } else {
        String::new()
    };
    out.append(a.as_str());
    let t = match &impact.required_tier {
        Some(tier) => {
            let mut x = String::from_str("\n🎯 Required Governance Tier: ");
            x.append(tier.as_str());
            x.append("\n");
            x
        },
        None => String::new(),
    };
    out.append(t.as_str());
    let q = if impact.additional_requirements.len() > 0 {
        let mut x = String::from_str("\n📝 Additional Requirements:\n");
        let l = render_requirements(&impact.additional_requirements);
        x.append(l.as_str());
        x
    } else {
        String::new()
    };
    out.append(q.as_str());
    let p = if impact.blocks_production { String::from_str("\n⚠️  This PR blocks production deployment!\n") } else { String::new() };
    out.append(p.as_str());
    let b = if impact.blocks_audit { String::from_str("\n⚠️  This PR blocks security audit!\n") } else { String::new() };
    out.append(b.as_str());
    Ok(Some(out))
}

// ---------------------------------------------------------------------------
// Placeholders and production readiness

/// The lines reporting placeholder violations.
pub open spec fn violation_lines(vs: Seq<PlaceholderViolation>) -> Seq<char>
    decreases vs.len(),
{
    if vs.len() == 0 {
        Seq::empty()
    } else {
        let v = vs.last();
        violation_lines(vs.drop_last()) + "📁 "@ + v.file@ + ":"@ + dec_nat(v.line as nat) + "\n   Pattern: "@ + v.pattern@
            + "\n   Content: "@ + v.content@ + "\n\n"@
    }
}

/// The placeholder report, and whether it fails the check: none found
/// passes; found ones fail when the caller asks.
pub fn check_placeholders(violations: &Vec<PlaceholderViolation>, fail_on_placeholder: bool) -> (r: (String, Result<(), GateError>))
    ensures
        violations@.len() == 0 ==> r.0@ == "✅ No placeholder implementations found in security-critical files\n"@ && r.1 is Ok,
        violations@.len() > 0 ==> r.0@ == "❌ Found "@ + dec_nat(violations@.len()) + " placeholder violations:\n\n"@
            + violation_lines(violations@),
        violations@.len() > 0 ==> (r.1 is Err <==> fail_on_placeholder),
        r.1 is Err ==> r.1 == Err::<(), GateError>(GateError::PlaceholdersFound),
{
    if violations.len() == 0 {
        return (String::from_str("✅ No placeholder implementations found in security-critical files\n"), Ok(()));
    }
    let mut out = String::from_str("❌ Found ");
    let c = u64_to_string(violations.len() as u64);
    out.append(c.as_str());
    out.append(" placeholder violations:\n\n");
    let n = violations.len();
    let mut i: usize = 0;
    let mut body = String::new();
    while i < n
        invariant
            n == violations@.len(),
            i <= n,
            body@ == violation_lines(violations@.subrange(0, i as int)),
        decreases n - i,
    {
        proof {
            assert(violations@.subrange(0, i + 1).drop_last() =~= violations@.subrange(0, i as int));
        }
        let v = &violations[i];
        body.append("📁 ");
        body.append(v.file.as_str());
        body.append(":");
        let l = u64_to_string(v.line as u64);
        body.append(l.as_str());
        body.append("\n   Pattern: ");
        body.append(v.pattern.as_str());
        body.append("\n   Content: ");
        body.append(v.content.as_str());
        body.append("\n\n");
        i = i + 1;
    }
    proof {
        assert(violations@.subrange(0, n as int) =~= violations@);
    }
    out.append(body.as_str());
    if fail_on_placeholder {
        (out, Err(GateError::PlaceholdersFound))
    } else {
        (out, Ok(()))
    }
}

/// The ids of the controls that block production, in order, with an empty
/// id for one without a text id.
pub open spec fn blocking_ids(cs: Seq<ControlEntry>) -> Seq<Seq<char>>
    decreases cs.len(),
{
    if cs.len() == 0 {
        Seq::empty()
    } else if flag(cs.last().blocks_production) {
        blocking_ids(cs.drop_last()).push(text_or(cs.last().id, Seq::<char>::empty()))
    } else {
        blocking_ids(cs.drop_last())
    }
}

/// The ids of the controls that block production.
pub fn get_blocking_controls(status: &SecurityStatus) -> (r: Vec<String>)
    ensures
        crate::text::views(r@) == (match status.controls { Some(cs) => blocking_ids(cs@), None => Seq::<Seq<char>>::empty() }),
{
    let mut out: Vec<String> = Vec::new();
    match &status.controls {
        None => {
            proof {
                assert(crate::text::views(out@) =~= Seq::<Seq<char>>::empty());
            }
        },
        Some(cs) => {
            let n = cs.len();
            let mut i: usize = 0;
            proof {
                assert(crate::text::views(out@) =~= blocking_ids(cs@.subrange(0, 0)));
            }
            while i < n
                invariant
                    n == cs@.len(),
                    i <= n,
                    crate::text::views(out@) == blocking_ids(cs@.subrange(0, i as int)),
                decreases n - i,
            {
                proof {
                    assert(cs@.subrange(0, i + 1).drop_last() =~= cs@.subrange(0, i as int));
                }
                let blocks = match cs[i].blocks_production { Some(b) => b, None => false };
                if blocks {
                    let ghost before = out@;
                    let id = text_or_default(&cs[i].id, "");
                    out.push(id);
                    proof {
                        reveal_strlit("");
                        assert(""@ =~= Seq::<char>::empty());
                        assert(crate::text::views(out@) =~= crate::text::views(before).push(text_or(cs@[i as int].id, Seq::<char>::empty())));
                    }
                }
                i = i + 1;
            }
            proof {
                assert(cs@.subrange(0, n as int) =~= cs@);
            }
        },
    }
    out
}

/// The readiness answer and its text; a system that is not ready fails the
/// check after reporting.
pub fn verify_production_readiness(status: &SecurityStatus, format: &str) -> (r: Result<(ProductionReadinessResult, Option<String>), GateError>)
    ensures
        format@ != "text"@ && format@ != "json"@ ==> r == Err::<(ProductionReadinessResult, Option<String>), GateError>(GateError::UnknownFormat),
        (format@ == "text"@ || format@ == "json"@) ==> match r {
            Ok((res, text)) => flag(status.production_ready) && res.ready
                && res.blocking_controls == (match status.blocking_controls { Some(v) => v, None => 0i64 }) as usize
                && (format@ == "json"@ ==> text is None)
                && (format@ == "text"@ ==> (text matches Some(t) && t@ == "✅ Production Ready: YES\n🚀 System is ready for production deployment\n"@)),
            Err(e) => !flag(status.production_ready) && e == GateError::NotProductionReady,
        },
{
    proof {
        reveal_strlit("json");
        reveal_strlit("text");
        assert("json"@[0] != "text"@[0]);
    }
    let ready = match status.production_ready { Some(b) => b, None => false };
    let blocking: i64 = match status.blocking_controls { Some(v) => v, None => 0 };
    let is_json = crate::text::str_eq(format, "json");
    let is_text = crate::text::str_eq(format, "text");
    if !is_json && !is_text {
        return Err(GateError::UnknownFormat);
    }
    if !ready {
        return Err(GateError::NotProductionReady);
    }
    let result = ProductionReadinessResult {
        ready,
        blocking_controls: blocking as usize,
        blocking_control_ids: get_blocking_controls(status),
    };
    if is_json {
        Ok((result, None))
    } else {
        Ok((result, Some(String::from_str("✅ Production Ready: YES\n🚀 System is ready for production deployment\n"))))
    }
}

/// The text printed when the system is not ready for production, naming the
/// audit blockers where the status file lists them.
pub fn not_ready_text(status: &SecurityStatus) -> (r: String)
    ensures
        r@ == "❌ Production Ready: NO\n⚠️  "@ + dec_int(num(status.blocking_controls)) + " controls blocking production deployment\n"@
            + match status.audit_blockers {
                Some(bs) => "\n🔒 Blocking Controls:\n"@ + action_lines(bs@, "  - "@),
                None => Seq::<char>::empty(),
            },
{
    let mut out = String::from_str("❌ Production Ready: NO\n⚠️  ");
    let b = num_text(status.blocking_controls);
    out.append(b.as_str());
    out.append(" controls blocking production deployment\n");
    let tail = match &status.audit_blockers {
        Some(bs) => {
            let mut x = String::from_str("\n🔒 Blocking Controls:\n");
            let l = render_actions(bs, "  - ");
            x.append(l.as_str());
            x
        },
        None => String::new(),
    };
    out.append(tail.as_str());
    out
}

} // verus!
