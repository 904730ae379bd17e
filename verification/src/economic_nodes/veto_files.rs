//! Veto signals and registrations kept as JSON files by the economic node
//! tools: where a signal is stored, what it says, which signals count for a
//! pull request, whether together they reach the veto threshold, and what
//! makes a signal or a registration file well formed.

use vstd::prelude::*;
use vstd::string::*;
use crate::clock::{is_rfc3339, spec_is_rfc3339};
use crate::text::{dec_nat, str_eq, u64_to_string};

verus! {

/// What a field of a JSON file holds, as far as the checks look: nothing
/// (missing or null), a text, an unsigned number, another number, a flag,
/// or anything else.
#[derive(Debug)]
pub enum JsonField {
    Absent,
    Text(String),
    Unsigned(u64),
    OtherNumber,
    Flag(bool),
    Other,
}

/// A veto signal file's fields.
#[derive(Debug)]
pub struct VetoRecord {
    pub node_name: JsonField,
    pub repository: JsonField,
    pub pr_number: JsonField,
    pub reason: JsonField,
    pub strength: JsonField,
    pub active: JsonField,
    pub timestamp: JsonField,
}

/// Why a veto cannot be submitted or withdrawn.
#[derive(Debug, PartialEq, Eq, Structural)]
pub enum VetoError {
    /// The strength is outside 1 to 100.
    InvalidStrength,
}

/// The strength a veto may carry, in percent.
pub open spec fn valid_strength(strength: u8) -> bool {
    1 <= strength <= 100
}

/// The total veto strength at which a pull request is blocked, in percent.
pub open spec fn veto_threshold() -> nat {
    30
}

/// Checks a veto's strength.
pub fn validate_strength(strength: u8) -> (r: Result<(), VetoError>)
    ensures
        r is Ok <==> valid_strength(strength),
        r is Ok <==> (1 <= strength && strength <= 100),
        r is Err ==> r == Err::<(), VetoError>(VetoError::InvalidStrength),
{
    if strength == 0 || strength > 100 {
        Err(VetoError::InvalidStrength)
    } else {
        Ok(())
    }
}

/// `s` with every `from` replaced by `to`.
pub open spec fn replace_char(s: Seq<char>, from: char, to: char) -> Seq<char> {
    Seq::new(s.len(), |i: int| if s[i] == from { to } else { s[i] })
}

fn replaced(s: &str, from: char, to: &str) -> (r: String)
    requires
        to@.len() == 1,
    ensures
        r@ == replace_char(s@, from, to@[0]),
{
    let mut out = String::new();
    let n = s.unicode_len();
    let mut i: usize = 0;
    while i < n
        invariant
            n == s@.len(),
            i <= n,
            to@.len() == 1,
            out@ == replace_char(s@, from, to@[0]).subrange(0, i as int),
        decreases n - i,
    {
        let c = s.get_char(i);
        if c == from {
            out.append(to);
        } else {
            out.append(s.substring_char(i, i + 1));
        }
        proof {
            assert(replace_char(s@, from, to@[0]).subrange(0, i + 1) =~= replace_char(s@, from, to@[0]).subrange(0, i as int)
                + (if c == from { to@ } else { s@.subrange(i as int, i + 1) }));
        }
        i = i + 1;
    }
    proof {
        assert(replace_char(s@, from, to@[0]).subrange(0, n as int) =~= replace_char(s@, from, to@[0]));
    }
    out
}

/// The file a veto is stored in.
pub open spec fn veto_path(repo: Seq<char>, pr: u64, node: Seq<char>) -> Seq<char> {
    "veto-signals/"@ + replace_char(repo, '/', '_') + "_"@ + dec_nat(pr as nat) + "_"@ + node + ".json"@
}

/// The file a veto by `node` on `repo#pr` is stored in.
pub fn veto_file_path(repo: &str, pr: u64, node: &str) -> (r: String)
    ensures
        r@ == veto_path(repo@, pr, node@),
{
    let mut s = String::from_str("veto-signals/");
    proof {
        reveal_strlit("_");
    }
    let r = replaced(repo, '/', "_");
    s.append(r.as_str());
    s.append("_");
    let p = u64_to_string(pr);
    s.append(p.as_str());
    s.append("_");
    s.append(node);
    s.append(".json");
    s
}

/// The message a veto signs.
pub open spec fn veto_message_text(node: Seq<char>, repo: Seq<char>, pr: u64, reason: Seq<char>) -> Seq<char> {
    "veto:"@ + node + ":"@ + repo + ":"@ + dec_nat(pr as nat) + ":"@ + reason
}

/// The message of a veto: `veto:node:repo:pr:reason`.
pub fn veto_message(node: &str, repo: &str, pr: u64, reason: &str) -> (r: String)
    ensures
        r@ == veto_message_text(node@, repo@, pr, reason@),
{
    let mut s = String::from_str("veto:");
    s.append(node);
    s.append(":");
    s.append(repo);
    s.append(":");
    let p = u64_to_string(pr);
    s.append(p.as_str());
    s.append(":");
    s.append(reason);
    s
}

/// The stand-in signature the tool attaches: the message, colons made
/// underscores, after `signature_for_`.
pub fn placeholder_signature(message: &str) -> (r: String)
    ensures
        r@ == "signature_for_"@ + replace_char(message@, ':', '_'),
{
    let mut s = String::from_str("signature_for_");
    proof {
        reveal_strlit("_");
    }
    let m = replaced(message, ':', "_");
    s.append(m.as_str());
    s
}

/// The field is the text `t`.
pub open spec fn is_text(f: JsonField, t: Seq<char>) -> bool {
    f matches JsonField::Text(s) && s@ == t
}

/// The field is the number `n`.
pub open spec fn is_number_value(f: JsonField, n: u64) -> bool {
    f matches JsonField::Unsigned(v) && v == n
}

/// The field is the flag `true`.
pub open spec fn is_true(f: JsonField) -> bool {
    f matches JsonField::Flag(b) && b
}

/// The strength a record contributes: its unsigned number, else zero.
pub open spec fn strength_of(v: VetoRecord) -> nat {
    match v.strength {
        JsonField::Unsigned(s) => s as nat,
        _ => 0,
    }
}

/// An active veto on `repo#pr`.
pub open spec fn counts_for(v: VetoRecord, repo: Seq<char>, pr: u64) -> bool {
    is_text(v.repository, repo) && is_number_value(v.pr_number, pr) && is_true(v.active)
}

/// The number of active vetoes on `repo#pr`.
pub open spec fn veto_count(vs: Seq<VetoRecord>, repo: Seq<char>, pr: u64) -> nat
    decreases vs.len(),
{
    if vs.len() == 0 {
        0
    } else {
        veto_count(vs.drop_last(), repo, pr) + if counts_for(vs.last(), repo, pr) { 1nat } else { 0nat }
    }
}

/// The total strength of the active vetoes on `repo#pr`.
pub open spec fn veto_strength(vs: Seq<VetoRecord>, repo: Seq<char>, pr: u64) -> nat
    decreases vs.len(),
{
    if vs.len() == 0 {
        0
    } else {
        veto_strength(vs.drop_last(), repo, pr) + if counts_for(vs.last(), repo, pr) { strength_of(vs.last()) } else { 0nat }
    }
}

/// The active vetoes on one pull request.
#[derive(Debug)]
pub struct VetoTally {
    pub veto_count: u64,
    pub total_strength: u64,
    /// The positions of the counted records, in order.
    pub active: Vec<usize>,
}

fn field_is_text(f: &JsonField, t: &str) -> (r: bool)
    ensures
        r == is_text(*f, t@),
{
    match f {
        JsonField::Text(s) => str_eq(s.as_str(), t),
        _ => false,
    }
}

fn record_counts(v: &VetoRecord, repo: &str, pr: u64) -> (r: bool)
    ensures
        r == counts_for(*v, repo@, pr),
{
    let same_pr = match v.pr_number {
        JsonField::Unsigned(n) => n == pr,
        _ => false,
    };
    let active = match v.active {
        JsonField::Flag(b) => b,
        _ => false,
    };
    field_is_text(&v.repository, repo) && same_pr && active
}

proof fn lemma_tally_step(vs: Seq<VetoRecord>, i: int, repo: Seq<char>, pr: u64)
    requires
        0 <= i < vs.len(),
    ensures
        veto_count(vs.subrange(0, i + 1), repo, pr) == veto_count(vs.subrange(0, i), repo, pr)
            + if counts_for(vs[i], repo, pr) { 1nat } else { 0nat },
        veto_strength(vs.subrange(0, i + 1), repo, pr) == veto_strength(vs.subrange(0, i), repo, pr)
            + if counts_for(vs[i], repo, pr) { strength_of(vs[i]) } else { 0nat },
{
    assert(vs.subrange(0, i + 1).drop_last() =~= vs.subrange(0, i));
}

proof fn lemma_strength_prefix(vs: Seq<VetoRecord>, k: int, repo: Seq<char>, pr: u64)
    requires
        0 <= k <= vs.len(),
    ensures
        veto_strength(vs.subrange(0, k), repo, pr) <= veto_strength(vs, repo, pr),
        veto_count(vs.subrange(0, k), repo, pr) <= veto_count(vs, repo, pr),
        veto_count(vs, repo, pr) <= vs.len(),
    decreases vs.len() - k,
{
    if k < vs.len() {
        lemma_strength_prefix(vs, k + 1, repo, pr);
        lemma_tally_step(vs, k, repo, pr);
    } else {
        assert(vs.subrange(0, k) =~= vs);
        lemma_count_le_len(vs, repo, pr);
    }
}

proof fn lemma_count_le_len(vs: Seq<VetoRecord>, repo: Seq<char>, pr: u64)
    ensures
        veto_count(vs, repo, pr) <= vs.len(),
    decreases vs.len(),
{
    if vs.len() > 0 {
        lemma_count_le_len(vs.drop_last(), repo, pr);
    }
}

/// Counts the active vetoes on `repo#pr` and adds up their strength.
pub fn tally_vetoes(records: &[VetoRecord], repo: &str, pr: u64) -> (r: VetoTally)
    requires
        veto_strength(records@, repo@, pr) <= u64::MAX,
    ensures
        r.veto_count == veto_count(records@, repo@, pr),
        r.total_strength == veto_strength(records@, repo@, pr),
        r.active@.len() == r.veto_count,
        forall|j: int| 0 <= j < r.active@.len() ==> {
            let k = #[trigger] r.active@[j];
            k < records@.len() && counts_for(records@[k as int], repo@, pr)
        },
        forall|a: int, b: int| 0 <= a < b < r.active@.len() ==> r.active@[a] < r.active@[b],
{
    let mut count: u64 = 0;
    let mut total: u64 = 0;
    let mut active: Vec<usize> = Vec::new();
    let n = records.len();
    let mut i: usize = 0;
    while i < n
        invariant
            n == records@.len(),
            i <= n,
            veto_strength(records@, repo@, pr) <= u64::MAX,
            count == veto_count(records@.subrange(0, i as int), repo@, pr),
            total == veto_strength(records@.subrange(0, i as int), repo@, pr),
            active@.len() == count,
            forall|j: int| 0 <= j < active@.len() ==> {
                let k = #[trigger] active@[j];
                k < i && counts_for(records@[k as int], repo@, pr)
            },
            forall|a: int, b: int| 0 <= a < b < active@.len() ==> active@[a] < active@[b],
        decreases n - i,
    {
        proof {
            lemma_tally_step(records@, i as int, repo@, pr);
            lemma_strength_prefix(records@, i + 1, repo@, pr);
            lemma_count_le_len(records@.subrange(0, i + 1), repo@, pr);
        }
        if record_counts(&records[i], repo, pr) {
            let s: u64 = match records[i].strength {
                JsonField::Unsigned(v) => v,
                _ => 0,
            };
            count = count + 1;
            total = total + s;
            active.push(i);
        }
        i = i + 1;
    }
    proof {
        assert(records@.subrange(0, n as int) =~= records@);
    }
    VetoTally { veto_count: count, total_strength: total, active }
}

/// The tally reaches the veto threshold.
pub fn threshold_met(tally: &VetoTally) -> (r: bool)
    ensures
        r == (tally.total_strength >= veto_threshold()),
        r == (tally.total_strength >= 30),
{
    tally.total_strength >= 30
}

/// The governance verdict on a pull request from its vetoes.
pub open spec fn verdict_text(count: nat, strength: nat) -> Seq<char> {
    if strength >= veto_threshold() {
        "🚫 VETO THRESHOLD MET - PR is blocked"@
    } else if count > 0 {
        "⚠️  Veto signals present but threshold not met"@
    } else {
        "✅ No veto signals - PR can proceed"@
    }
}

/// The verdict line for a tally.
pub fn governance_verdict(tally: &VetoTally) -> (r: &'static str)
    ensures
        r@ == verdict_text(tally.veto_count as nat, tally.total_strength as nat),
        tally.total_strength >= 30 ==> r@ == "🚫 VETO THRESHOLD MET - PR is blocked"@,
        tally.total_strength < 30 && tally.veto_count > 0 ==> r@ == "⚠️  Veto signals present but threshold not met"@,
        tally.total_strength < 30 && tally.veto_count == 0 ==> r@ == "✅ No veto signals - PR can proceed"@,
{
    if tally.total_strength >= 30 {
        "🚫 VETO THRESHOLD MET - PR is blocked"
    } else if tally.veto_count > 0 {
        "⚠️  Veto signals present but threshold not met"
    } else {
        "✅ No veto signals - PR can proceed"
    }
}

/// A signal is listed when it is active and, under a repository filter, is
/// on that repository.
pub open spec fn listed(v: VetoRecord, repo_filter: Option<Seq<char>>) -> bool {
    is_true(v.active) && match repo_filter {
        Some(r) => is_text(v.repository, r),
        None => true,
    }
}

/// The positions of the signals a listing shows, in order.
pub fn list_vetoes(records: &[VetoRecord], repo_filter: Option<&str>) -> (r: Vec<usize>)
    ensures
        forall|j: int| 0 <= j < r@.len() ==> {
            let k = #[trigger] r@[j];
            k < records@.len() && listed(records@[k as int], match repo_filter { Some(f) => Some(f@), None => None::<Seq<char>> })
        },
        forall|k: int| 0 <= k < records@.len() && listed(records@[k], match repo_filter { Some(f) => Some(f@), None => None::<Seq<char>> })
            ==> exists|j: int| 0 <= j < r@.len() && r@[j] == k,
        forall|a: int, b: int| 0 <= a < b < r@.len() ==> r@[a] < r@[b],
{
    let ghost filter = match repo_filter { Some(f) => Some(f@), None => None::<Seq<char>> };
    let mut out: Vec<usize> = Vec::new();
    let n = records.len();
    let mut i: usize = 0;
    while i < n
        invariant
            n == records@.len(),
            i <= n,
            filter == (match repo_filter { Some(f) => Some(f@), None => None::<Seq<char>> }),
            forall|j: int| 0 <= j < out@.len() ==> {
                let k = #[trigger] out@[j];
                k < i && listed(records@[k as int], filter)
            },
            forall|k: int| 0 <= k < i && listed(records@[k], filter) ==> exists|j: int| 0 <= j < out@.len() && out@[j] == k,
            forall|a: int, b: int| 0 <= a < b < out@.len() ==> out@[a] < out@[b],
        decreases n - i,
    {
        let v = &records[i];
        let active = match v.active {
            JsonField::Flag(b) => b,
            _ => false,
        };
        let shown = active && match repo_filter {
            Some(f) => field_is_text(&v.repository, f),
            None => true,
        };
        let ghost prev = out@;
        if shown {
            out.push(i);
        }
        proof {
            assert(shown == listed(records@[i as int], filter));
            assert forall|k: int| 0 <= k < i + 1 && listed(records@[k], filter) implies exists|j: int| 0 <= j < out@.len() && out@[j] == k by {
                if k == i {
                    assert(out@[out@.len() - 1] == i);
                } else {
                    let j = choose|j: int| 0 <= j < prev.len() && prev[j] == k;
                    assert(out@[j] == prev[j]);
                }
            }
        }
        i = i + 1;
    }
    out
}

// ---------------------------------------------------------------------------
// Well-formed files

/// The problems found in a veto signal file, in the order they are checked.
pub open spec fn veto_problems(v: VetoRecord) -> Seq<Seq<char>> {
    let a: Seq<Seq<char>> = if v.node_name is Absent { seq!["❌ Missing node name"@] } else { Seq::empty() };
    let b = if v.repository is Absent { a.push("❌ Missing repository"@) } else { a };
    let c = if v.pr_number is Absent { b.push("❌ Missing PR number"@) } else { b };
    let d = if v.reason is Absent { c.push("❌ Missing veto reason"@) } else { c };
    let e = match v.strength {
        JsonField::Unsigned(s) => if s == 0 || s > 100 {
            d.push("❌ Invalid veto strength: "@ + dec_nat(s as nat))
        } else {
            d
        },
        _ => d.push("❌ Missing or invalid veto strength"@),
    };
    match v.timestamp {
        JsonField::Text(t) => if !spec_is_rfc3339(t@) { e.push("❌ Invalid timestamp format"@) } else { e },
        _ => e.push("❌ Missing timestamp"@),
    }
}

fn push_text(v: &mut Vec<String>, t: &str)
    ensures
        crate::text::views(final(v)@) == crate::text::views(old(v)@).push(t@),
{
    v.push(String::from_str(t));
    proof {
        assert(crate::text::views(v@) =~= crate::text::views(old(v)@).push(t@));
    }
}

/// The problems found in a veto signal file; it is valid when there are none.
pub fn verify_veto(v: &VetoRecord) -> (r: Vec<String>)
    ensures
        crate::text::views(r@) == veto_problems(*v),
{
    let mut out: Vec<String> = Vec::new();
    proof {
        assert(crate::text::views(out@) =~= Seq::<Seq<char>>::empty());
    }
    if matches!(v.node_name, JsonField::Absent) {
        push_text(&mut out, "❌ Missing node name");
    }
    if matches!(v.repository, JsonField::Absent) {
        push_text(&mut out, "❌ Missing repository");
    }
    if matches!(v.pr_number, JsonField::Absent) {
        push_text(&mut out, "❌ Missing PR number");
    }
    if matches!(v.reason, JsonField::Absent) {
        push_text(&mut out, "❌ Missing veto reason");
    }
    match v.strength {
        JsonField::Unsigned(s) => {
            if s == 0 || s > 100 {
                let mut m = String::from_str("❌ Invalid veto strength: ");
                let d = u64_to_string(s);
                m.append(d.as_str());
                push_text(&mut out, m.as_str());
            }
        },
        _ => push_text(&mut out, "❌ Missing or invalid veto strength"),
    }
    match &v.timestamp {
        JsonField::Text(t) => {
            if !is_rfc3339(t.as_str()) {
                push_text(&mut out, "❌ Invalid timestamp format");
            }
        },
        _ => push_text(&mut out, "❌ Missing timestamp"),
    }
    out
}

/// A veto file counts as well formed in a directory sweep when it names a
/// node and a repository and carries a pull request number; it is active
/// when its flag is `true`.
pub open spec fn sweep_valid(v: VetoRecord) -> bool {
    v.node_name is Text && v.repository is Text && (v.pr_number is Unsigned || v.pr_number is OtherNumber)
}

/// How many files of a sweep are well formed, and how many of those are
/// active.
pub open spec fn sweep_counts(vs: Seq<VetoRecord>) -> (nat, nat)
    decreases vs.len(),
{
    if vs.len() == 0 {
        (0, 0)
    } else {
        let (v, a) = sweep_counts(vs.drop_last());
        let ok = sweep_valid(vs.last());
        (v + if ok { 1nat } else { 0nat }, a + if ok && is_true(vs.last().active) { 1nat } else { 0nat })
    }
}

/// The well-formed and active counts of a directory sweep.
pub fn sweep_vetoes(records: &[VetoRecord]) -> (r: (usize, usize))
    ensures
        r.0 == sweep_counts(records@).0,
        r.1 == sweep_counts(records@).1,
{
    let mut valid: usize = 0;
    let mut active: usize = 0;
    let n = records.len();
    let mut i: usize = 0;
    while i < n
        invariant
            n == records@.len(),
            i <= n,
            valid == sweep_counts(records@.subrange(0, i as int)).0,
            active == sweep_counts(records@.subrange(0, i as int)).1,
            active <= valid <= i,
        decreases n - i,
    {
        proof {
            assert(records@.subrange(0, i + 1).drop_last() =~= records@.subrange(0, i as int));
        }
        let v = &records[i];
        let ok = matches!(v.node_name, JsonField::Text(_)) && matches!(v.repository, JsonField::Text(_)) && (matches!(v.pr_number, JsonField::Unsigned(_)) || matches!(v.pr_number, JsonField::OtherNumber));
        if ok {
            valid = valid + 1;
            let act = match v.active {
                JsonField::Flag(b) => b,
                _ => false,
            };
            if act {
                active = active + 1;
            }
        }
        i = i + 1;
    }
    proof {
        assert(records@.subrange(0, n as int) =~= records@);
    }
    (valid, active)
}

/// A registration file's fields, with the verdicts on its percentages made
/// where they are read (they are decimal numbers): `Some(true)` for a number
/// in (0, 100], `Some(false)` for a number outside it, none for a value that
/// is not a number.
#[derive(Debug)]
pub struct RegistrationRecord {
    pub name: JsonField,
    pub node_type: JsonField,
    pub public_key: JsonField,
    pub hash_rate_percent: JsonField,
    pub hash_rate_in_range: Option<bool>,
    /// The hash rate as written, for the message about it.
    pub hash_rate_text: String,
    pub economic_activity_percent: JsonField,
    pub economic_activity_in_range: Option<bool>,
    /// The economic activity as written, for the message about it.
    pub economic_activity_text: String,
    /// The node type as written, for the message about it.
    pub node_type_text: String,
    pub registration_timestamp: JsonField,
}

/// A registration file counts as well formed in a directory sweep when its
/// name, node type and public key are texts.
pub fn registration_well_formed(r: &RegistrationRecord) -> (ok: bool)
    ensures
        ok == (r.name is Text && r.node_type is Text && r.public_key is Text),
{
    matches!(r.name, JsonField::Text(_)) && matches!(r.node_type, JsonField::Text(_)) && matches!(r.public_key, JsonField::Text(_))
}

/// The problems found in a registration file, in the order they are checked.
pub open spec fn registration_problems(r: RegistrationRecord) -> Seq<Seq<char>> {
    let a: Seq<Seq<char>> = if r.name is Absent { seq!["❌ Missing node name"@] } else { Seq::empty() };
    let b = if r.node_type is Absent { a.push("❌ Missing node type"@) } else { a };
    let c = if r.public_key is Absent { b.push("❌ Missing public key"@) } else { b };
    let d = if is_text(r.node_type, "mining_pool"@) {
        if matches!(r.hash_rate_percent, JsonField::Absent) {
            c.push("❌ Mining pools must specify hash_rate_percent"@)
        } else if r.hash_rate_in_range == Some(false) {
            c.push("❌ Invalid hash rate percentage: "@ + r.hash_rate_text@)
        } else {
            c
        }
    } else if is_text(r.node_type, "exchange"@) || is_text(r.node_type, "custodian"@) {
        if matches!(r.economic_activity_percent, JsonField::Absent) {
            c.push("❌ Exchanges and custodians must specify economic_activity_percent"@)
        } else if r.economic_activity_in_range == Some(false) {
            c.push("❌ Invalid economic activity percentage: "@ + r.economic_activity_text@)
        } else {
            c
        }
    } else {
        c.push("❌ Invalid node type: "@ + r.node_type_text@)
    };
    match r.registration_timestamp {
        JsonField::Text(t) => if !spec_is_rfc3339(t@) { d.push("❌ Invalid timestamp format"@) } else { d },
        _ => d.push("❌ Missing registration timestamp"@),
    }
}

fn prefixed(a: &str, b: &str) -> (r: String)
    ensures
        r@ == a@ + b@,
{
    let mut s = String::from_str(a);
    s.append(b);
    s
}

/// The problems found in a registration file; it is valid when there are
/// none.
pub fn verify_registration(r: &RegistrationRecord) -> (out: Vec<String>)
    ensures
        crate::text::views(out@) == registration_problems(*r),
{
    let mut out: Vec<String> = Vec::new();
    proof {
        assert(crate::text::views(out@) =~= Seq::<Seq<char>>::empty());
    }
    if matches!(r.name, JsonField::Absent) {
        push_text(&mut out, "❌ Missing node name");
    }
    if matches!(r.node_type, JsonField::Absent) {
        push_text(&mut out, "❌ Missing node type");
    }
    if matches!(r.public_key, JsonField::Absent) {
        push_text(&mut out, "❌ Missing public key");
    }
    if field_is_text(&r.node_type, "mining_pool") {
        if matches!(r.hash_rate_percent, JsonField::Absent) {
            push_text(&mut out, "❌ Mining pools must specify hash_rate_percent");
        } else if r.hash_rate_in_range == Some(false) {
            let m = prefixed("❌ Invalid hash rate percentage: ", r.hash_rate_text.as_str());
            push_text(&mut out, m.as_str());
        }
    } else if field_is_text(&r.node_type, "exchange") || field_is_text(&r.node_type, "custodian") {
        if matches!(r.economic_activity_percent, JsonField::Absent) {
            push_text(&mut out, "❌ Exchanges and custodians must specify economic_activity_percent");
        } else if r.economic_activity_in_range == Some(false) {
            let m = prefixed("❌ Invalid economic activity percentage: ", r.economic_activity_text.as_str());
            push_text(&mut out, m.as_str());
        }
    } else {
        let m = prefixed("❌ Invalid node type: ", r.node_type_text.as_str());
        push_text(&mut out, m.as_str());
    }
    match &r.registration_timestamp {
        JsonField::Text(t) => {
            if !is_rfc3339(t.as_str()) {
                push_text(&mut out, "❌ Invalid timestamp format");
            }
        },
        _ => push_text(&mut out, "❌ Missing registration timestamp"),
    }
    out
}

/// The file a registration is stored in.
pub fn registration_file_path(name: &str) -> (r: String)
    ensures
        r@ == "economic-registrations/"@ + name@ + ".json"@,
{
    let mut s = String::from_str("economic-registrations/");
    s.append(name);
    s.append(".json");
    s
}

/// The kinds of node that may register.
pub open spec fn registrable_type(t: Seq<char>) -> bool {
    t == "mining_pool"@ || t == "exchange"@ || t == "custodian"@
}

/// Why a registration request is refused before its figures are checked.
#[derive(Debug, PartialEq, Eq, Structural)]
pub enum RegistrationError {
    /// The node type is not one that may register.
    InvalidNodeType,
    /// A mining pool gave no hash rate.
    MissingHashRate,
    /// An exchange or custodian gave no economic activity.
    MissingEconomicActivity,
}

impl RegistrationError {
    /// The message for this error, for the given node type.
    pub fn message(&self, node_type: &str) -> (r: String)
        ensures
            *self == RegistrationError::InvalidNodeType ==> r@ == "Invalid node type: "@ + node_type@
                + ". Must be one of: [\"mining_pool\", \"exchange\", \"custodian\"]"@,
            *self == RegistrationError::MissingHashRate ==> r@ == "Mining pools must specify hash_rate_percent"@,
            *self == RegistrationError::MissingEconomicActivity ==> r@ == "Exchanges and custodians must specify economic_activity_percent"@,
    {
        match self {
            RegistrationError::InvalidNodeType => {
                let mut s = String::from_str("Invalid node type: ");
                s.append(node_type);
                s.append(". Must be one of: [\"mining_pool\", \"exchange\", \"custodian\"]");
                s
            },
            RegistrationError::MissingHashRate => String::from_str("Mining pools must specify hash_rate_percent"),
            RegistrationError::MissingEconomicActivity => String::from_str("Exchanges and custodians must specify economic_activity_percent"),
        }
    }
}

/// Checks a registration request: the node type must be one that may
/// register, and the percentage its kind needs must be given.
pub fn check_registration_request(node_type: &str, has_hash_rate: bool, has_economic_activity: bool) -> (r: Result<(), RegistrationError>)
    ensures
        !registrable_type(node_type@) ==> r == Err::<(), RegistrationError>(RegistrationError::InvalidNodeType),
        node_type@ == "mining_pool"@ ==> (r == if has_hash_rate { Ok::<(), RegistrationError>(()) } else { Err(RegistrationError::MissingHashRate) }),
        (node_type@ == "exchange"@ || node_type@ == "custodian"@) ==> (r == if has_economic_activity {
            Ok::<(), RegistrationError>(())
        } else {
            Err(RegistrationError::MissingEconomicActivity)
        }),
{
    if str_eq(node_type, "mining_pool") {
        proof {
            reveal_strlit("mining_pool");
            reveal_strlit("exchange");
            reveal_strlit("custodian");
            assert("mining_pool"@[0] != "exchange"@[0]);
            assert("mining_pool"@[0] != "custodian"@[0]);
        }
        if has_hash_rate { Ok(()) } else { Err(RegistrationError::MissingHashRate) }
    } else if str_eq(node_type, "exchange") || str_eq(node_type, "custodian") {
        if has_economic_activity { Ok(()) } else { Err(RegistrationError::MissingEconomicActivity) }
    } else {
        Err(RegistrationError::InvalidNodeType)
    }
}

/// The proof types a node may submit.
pub open spec fn proof_type_ok(t: Seq<char>) -> bool {
    t == "hash_rate"@ || t == "reserves"@ || t == "custody"@
}

/// Checks a proof type and gives the file its submission is stored in.
pub fn proof_submission_path(name: &str, proof_type: &str) -> (r: Result<String, String>)
    ensures
        proof_type_ok(proof_type@) ==> (r matches Ok(p) && p@ == "economic-proofs/"@ + name@ + "_proof_"@ + proof_type@ + ".json"@),
        !proof_type_ok(proof_type@) ==> (r matches Err(m) && m@ == "Invalid proof type: "@ + proof_type@
            + ". Must be one of: [\"hash_rate\", \"reserves\", \"custody\"]"@),
{
    if str_eq(proof_type, "hash_rate") || str_eq(proof_type, "reserves") || str_eq(proof_type, "custody") {
        let mut s = String::from_str("economic-proofs/");
        s.append(name);
        s.append("_proof_");
        s.append(proof_type);
        s.append(".json");
        Ok(s)
    } else {
        let mut s = String::from_str("Invalid proof type: ");
        s.append(proof_type);
        s.append(". Must be one of: [\"hash_rate\", \"reserves\", \"custody\"]");
        Err(s)
    }
}

/// Whatever the records, the total strength of the counted vetoes is at
/// least the strength of any one of them, so a single veto of strength 30
/// or more on a pull request blocks it.
pub proof fn lemma_single_strong_veto_blocks(vs: Seq<VetoRecord>, k: int, repo: Seq<char>, pr: u64)
    requires
        0 <= k < vs.len(),
        counts_for(vs[k], repo, pr),
        strength_of(vs[k]) >= veto_threshold(),
    ensures
        veto_strength(vs, repo, pr) >= veto_threshold(),
        veto_count(vs, repo, pr) > 0,
    decreases vs.len(),
{
    if k < vs.len() - 1 {
        lemma_single_strong_veto_blocks(vs.drop_last(), k, repo, pr);
    }
}

} // verus!
