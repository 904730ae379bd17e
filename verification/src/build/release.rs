//! Release assembly: which builds feed a release, whether a version is a
//! prerelease, the release notes listing every artifact, the assets to
//! upload, and the `SHA256SUMS` file, whose lines follow the repositories in
//! name order.

use vstd::prelude::*;
use vstd::string::*;
use crate::digest::{sha256, spec_sha256};
use crate::error::GovernanceError;
use crate::text::{contains, dec_nat, hex_encode, join, join_strings, occurs_in, str_eq, to_hex, u64_to_string, views};

verus! {

/// A build artifact of one repository; `data` holds its bytes once
/// downloaded.
#[derive(Debug)]
pub struct Artifact {
    pub name: String,
    pub size: u64,
    pub content_type: String,
    pub data: Option<Vec<u8>>,
}

// ---------------------------------------------------------------------------
// Versions and builds

/// A version is a prerelease when it mentions alpha, beta, rc or dev.
pub open spec fn prerelease_version(v: Seq<char>) -> bool {
    occurs_in("alpha"@, v) || occurs_in("beta"@, v) || occurs_in("rc"@, v) || occurs_in("dev"@, v)
}

/// Is the version a prerelease?
pub fn is_prerelease(version: &str) -> (r: bool)
    ensures
        r == prerelease_version(version@),
        r <==> (occurs_in("alpha"@, version@) || occurs_in("beta"@, version@) || occurs_in("rc"@, version@)
            || occurs_in("dev"@, version@)),
{
    contains(version, "alpha") || contains(version, "beta") || contains(version, "rc") || contains(version, "dev")
}

/// A version that mentions any of alpha, beta, rc or dev is a prerelease,
/// and one that mentions none of them is a release.
pub proof fn lemma_prerelease_markers(v: Seq<char>)
    ensures
        occurs_in("alpha"@, v) ==> prerelease_version(v),
        occurs_in("beta"@, v) ==> prerelease_version(v),
        occurs_in("rc"@, v) ==> prerelease_version(v),
        occurs_in("dev"@, v) ==> prerelease_version(v),
        !occurs_in("alpha"@, v) && !occurs_in("beta"@, v) && !occurs_in("rc"@, v) && !occurs_in("dev"@, v)
            ==> !prerelease_version(v),
{
}

/// The dispatch event that asks a repository to build: the orchestrator's
/// own repository takes `build-request`, every other `build-chain`.
pub fn build_event_type(repo: &str) -> (r: &'static str)
    ensures
        r@ == (if repo@ == "blvm-commons"@ { "build-request"@ } else { "build-chain"@ }),
{
    if str_eq(repo, "blvm-commons") { "build-request" } else { "build-chain" }
}

/// The successful builds among the recorded runs, in order: status `success`
/// with a workflow run id.
pub open spec fn successful_runs(runs: Seq<(String, Option<u64>, String)>) -> Seq<(Seq<char>, u64)>
    decreases runs.len(),
{
    if runs.len() == 0 {
        Seq::empty()
    } else {
        let r = runs.last();
        let rest = successful_runs(runs.drop_last());
        if r.2@ == "success"@ && r.1 is Some { rest.push((r.0@, r.1->0)) } else { rest }
    }
}

/// The builds a release collects from: the successful runs with ids; a
/// release with none is refused.
pub fn successful_builds(release_version: &str, runs: &[(String, Option<u64>, String)]) -> (r: Result<Vec<(String, u64)>, GovernanceError>)
    ensures
        successful_runs(runs@).len() == 0 ==> (r matches Err(GovernanceError::BuildError(m))
            && m@ == "No successful builds found for release "@ + release_version@),
        successful_runs(runs@).len() > 0 ==> (r matches Ok(v) && v@.len() == successful_runs(runs@).len()
            && forall|i: int| 0 <= i < v@.len() ==> (#[trigger] v@[i]).0@ == successful_runs(runs@)[i].0
                && v@[i].1 == successful_runs(runs@)[i].1),
{
    let mut out: Vec<(String, u64)> = Vec::new();
    let n = runs.len();
    let mut i: usize = 0;
    while i < n
        invariant
            n == runs@.len(),
            i <= n,
            out@.len() == successful_runs(runs@.subrange(0, i as int)).len(),
            forall|j: int| 0 <= j < out@.len() ==> (#[trigger] out@[j]).0@ == successful_runs(runs@.subrange(0, i as int))[j].0
                && out@[j].1 == successful_runs(runs@.subrange(0, i as int))[j].1,
        decreases n - i,
    {
        proof {
            assert(runs@.subrange(0, i + 1).drop_last() =~= runs@.subrange(0, i as int));
        }
        let (repo, id, status) = (&runs[i].0, runs[i].1, &runs[i].2);
        if str_eq(status.as_str(), "success") {
            match id {
                Some(run_id) => {
                    out.push((repo.clone(), run_id));
                },
                None => {},
            }
        }
        i = i + 1;
    }
    proof {
        assert(runs@.subrange(0, n as int) =~= runs@);
    }
    if out.len() == 0 {
        let mut m = String::from_str("No successful builds found for release ");
        m.append(release_version);
        Err(GovernanceError::BuildError(m))
    } else {
        Ok(out)
    }
}

// ---------------------------------------------------------------------------
// Release notes and uploads

/// The note line of one artifact.
pub open spec fn artifact_line(a: Artifact) -> Seq<char> {
    "- "@ + a.name@ + " ("@ + dec_nat(a.size as nat) + " bytes)\n"@
}

/// The note lines of a repository's artifacts.
pub open spec fn artifact_lines(arts: Seq<Artifact>) -> Seq<char>
    decreases arts.len(),
{
    if arts.len() == 0 {
        Seq::empty()
    } else {
        artifact_lines(arts.drop_last()) + artifact_line(arts.last())
    }
}

/// The notes of every repository, in the order given.
pub open spec fn repo_sections(artifacts: Seq<(String, Vec<Artifact>)>) -> Seq<char>
    decreases artifacts.len(),
{
    if artifacts.len() == 0 {
        Seq::empty()
    } else {
        let (repo, arts) = artifacts.last();
        repo_sections(artifacts.drop_last()) + "### "@ + repo@ + "\n\n"@ + artifact_lines(arts@) + "\n"@
    }
}

/// The release notes of a version.
pub open spec fn release_notes(version: Seq<char>, artifacts: Seq<(String, Vec<Artifact>)>) -> Seq<char> {
    "Bitcoin Commons Release "@ + version + "\n\nThis release was orchestrated by blvm-commons.\n\n## Artifacts\n\n"@
        + repo_sections(artifacts)
}

fn render_artifacts(arts: &Vec<Artifact>) -> (r: String)
    ensures
        r@ == artifact_lines(arts@),
{
    let mut out = String::new();
    let n = arts.len();
    let mut i: usize = 0;
    while i < n
        invariant
            n == arts@.len(),
            i <= n,
            out@ == artifact_lines(arts@.subrange(0, i as int)),
        decreases n - i,
    {
        proof {
            assert(arts@.subrange(0, i + 1).drop_last() =~= arts@.subrange(0, i as int));
        }
        out.append("- ");
        out.append(arts[i].name.as_str());
        out.append(" (");
        let s = u64_to_string(arts[i].size);
        out.append(s.as_str());
        out.append(" bytes)\n");
        i = i + 1;
    }
    proof {
        assert(arts@.subrange(0, n as int) =~= arts@);
    }
    out
}

/// The release notes listing every repository's artifacts.
pub fn release_body(version: &str, artifacts: &[(String, Vec<Artifact>)]) -> (r: String)
    ensures
        r@ == release_notes(version@, artifacts@),
{
    let mut out = String::from_str("Bitcoin Commons Release ");
    out.append(version);
    out.append("\n\nThis release was orchestrated by blvm-commons.\n\n## Artifacts\n\n");
    let ghost head = out@;
    let n = artifacts.len();
    let mut i: usize = 0;
    while i < n
        invariant
            n == artifacts@.len(),
            i <= n,
            out@ == head + repo_sections(artifacts@.subrange(0, i as int)),
        decreases n - i,
    {
        proof {
            assert(artifacts@.subrange(0, i + 1).drop_last() =~= artifacts@.subrange(0, i as int));
        }
        out.append("### ");
        out.append(artifacts[i].0.as_str());
        out.append("\n\n");
        let lines = render_artifacts(&artifacts[i].1);
        out.append(lines.as_str());
        out.append("\n");
        i = i + 1;
    }
    proof {
        assert(artifacts@.subrange(0, n as int) =~= artifacts@);
    }
    out
}

/// The name of a release.
pub fn release_name(version: &str) -> (r: String)
    ensures
        r@ == "Bitcoin Commons "@ + version@,
{
    let mut s = String::from_str("Bitcoin Commons ");
    s.append(version);
    s
}

/// The asset name of an artifact: its repository, a hyphen, its name.
pub open spec fn asset_name(repo: Seq<char>, name: Seq<char>) -> Seq<char> {
    repo + "-"@ + name
}

/// One upload of a release: the asset name and where its bytes are.
#[derive(Debug)]
pub struct UploadItem {
    pub asset_name: String,
    pub repo_index: usize,
    pub artifact_index: usize,
}

/// The uploads of a release, in order: one per artifact with bytes.
pub fn upload_plan(artifacts: &[(String, Vec<Artifact>)]) -> (r: Vec<UploadItem>)
    ensures
        forall|j: int| 0 <= j < r@.len() ==> {
            let u = #[trigger] r@[j];
            u.repo_index < artifacts@.len() && u.artifact_index < artifacts@[u.repo_index as int].1@.len()
                && artifacts@[u.repo_index as int].1@[u.artifact_index as int].data is Some
                && u.asset_name@ == asset_name(artifacts@[u.repo_index as int].0@,
                    artifacts@[u.repo_index as int].1@[u.artifact_index as int].name@)
        },
        forall|a: int, b: int| 0 <= a < b < r@.len() ==> (r@[a].repo_index < r@[b].repo_index
            || (r@[a].repo_index == r@[b].repo_index && r@[a].artifact_index < r@[b].artifact_index)),
        forall|i: int, k: int| 0 <= i < artifacts@.len() && 0 <= k < artifacts@[i].1@.len()
            && (#[trigger] artifacts@[i].1@[k]).data is Some ==> exists|j: int| 0 <= j < r@.len()
                && r@[j].repo_index == i && r@[j].artifact_index == k,
{
    let mut plan: Vec<UploadItem> = Vec::new();
    let n = artifacts.len();
    let mut i: usize = 0;
    while i < n
        invariant
            n == artifacts@.len(),
            i <= n,
            forall|j: int| 0 <= j < plan@.len() ==> {
                let u = #[trigger] plan@[j];
                u.repo_index < i && u.artifact_index < artifacts@[u.repo_index as int].1@.len()
                    && artifacts@[u.repo_index as int].1@[u.artifact_index as int].data is Some
                    && u.asset_name@ == asset_name(artifacts@[u.repo_index as int].0@,
                        artifacts@[u.repo_index as int].1@[u.artifact_index as int].name@)
            },
            forall|a: int, b: int| 0 <= a < b < plan@.len() ==> (plan@[a].repo_index < plan@[b].repo_index
                || (plan@[a].repo_index == plan@[b].repo_index && plan@[a].artifact_index < plan@[b].artifact_index)),
            forall|x: int, k: int| 0 <= x < i && 0 <= k < artifacts@[x].1@.len()
                && (#[trigger] artifacts@[x].1@[k]).data is Some ==> exists|j: int| 0 <= j < plan@.len()
                    && plan@[j].repo_index == x && plan@[j].artifact_index == k,
        decreases n - i,
    {
        let arts = &artifacts[i].1;
        let m = arts.len();
        let mut k: usize = 0;
        let ghost start = plan@.len();
        while k < m
            invariant
                n == artifacts@.len(),
                i < n,
                m == artifacts@[i as int].1@.len(),
                arts@ == artifacts@[i as int].1@,
                k <= m,
                start <= plan@.len(),
                forall|j: int| 0 <= j < plan@.len() ==> {
                    let u = #[trigger] plan@[j];
                    u.repo_index <= i && u.artifact_index < artifacts@[u.repo_index as int].1@.len()
                        && artifacts@[u.repo_index as int].1@[u.artifact_index as int].data is Some
                        && u.asset_name@ == asset_name(artifacts@[u.repo_index as int].0@,
                            artifacts@[u.repo_index as int].1@[u.artifact_index as int].name@)
                        && (j >= start ==> u.repo_index == i && u.artifact_index < k)
                        && (j < start ==> u.repo_index < i)
                },
                forall|a: int, b: int| 0 <= a < b < plan@.len() ==> (plan@[a].repo_index < plan@[b].repo_index
                    || (plan@[a].repo_index == plan@[b].repo_index && plan@[a].artifact_index < plan@[b].artifact_index)),
                forall|x: int, kk: int| 0 <= x < i && 0 <= kk < artifacts@[x].1@.len()
                    && (#[trigger] artifacts@[x].1@[kk]).data is Some ==> exists|j: int| 0 <= j < plan@.len()
                        && plan@[j].repo_index == x && plan@[j].artifact_index == kk,
                forall|kk: int| 0 <= kk < k && (#[trigger] artifacts@[i as int].1@[kk]).data is Some ==> exists|j: int| 0 <= j < plan@.len()
                    && plan@[j].repo_index == i && plan@[j].artifact_index == kk,
            decreases m - k,
        {
            match &arts[k].data {
                Some(_) => {
                    let mut name = artifacts[i].0.clone();
                    name.append("-");
                    name.append(arts[k].name.as_str());
                    let ghost before = plan@;
                    plan.push(UploadItem { asset_name: name, repo_index: i, artifact_index: k });
                    proof {
                        assert forall|x: int, kk: int| 0 <= x < i && 0 <= kk < artifacts@[x].1@.len()
                            && (#[trigger] artifacts@[x].1@[kk]).data is Some implies exists|j: int| 0 <= j < plan@.len()
                                && plan@[j].repo_index == x && plan@[j].artifact_index == kk by {
                            let j = choose|j: int| 0 <= j < before.len() && before[j].repo_index == x && before[j].artifact_index == kk;
                            assert(plan@[j] == before[j]);
                        }
                        assert forall|kk: int| 0 <= kk < k + 1 && (#[trigger] artifacts@[i as int].1@[kk]).data is Some implies exists|j: int| 0 <= j < plan@.len()
                            && plan@[j].repo_index == i && plan@[j].artifact_index == kk by {
                            if kk == k {
                                assert(plan@[plan@.len() - 1].artifact_index == k);
                            } else {
                                let j = choose|j: int| 0 <= j < before.len() && before[j].repo_index == i && before[j].artifact_index == kk;
                                assert(plan@[j] == before[j]);
                            }
                        }
                    }
                },
                None => {},
            }
            k = k + 1;
        }
        i = i + 1;
    }
    plan
}

/// Whether the checksum file is made: only when at least one asset was
/// uploaded.
pub fn should_publish_checksums(uploaded_count: usize) -> (r: bool)
    ensures
        r == (uploaded_count > 0),
{
    uploaded_count > 0
}

// ---------------------------------------------------------------------------
// Ordering repositories by name

/// Lexicographic order of texts by their characters, which for UTF-8 text
/// is the order of their bytes.
pub open spec fn lex_lt(a: Seq<char>, b: Seq<char>) -> bool
    decreases a.len(),
{
    if b.len() == 0 {
        false
    } else if a.len() == 0 {
        true
    } else if a[0] != b[0] {
        a[0] < b[0]
    } else {
        lex_lt(a.drop_first(), b.drop_first())
    }
}

proof fn lemma_lex_irreflexive(a: Seq<char>)
    ensures
        !lex_lt(a, a),
    decreases a.len(),
{
    if a.len() > 0 {
        lemma_lex_irreflexive(a.drop_first());
    }
}

proof fn lemma_lex_transitive(a: Seq<char>, b: Seq<char>, c: Seq<char>)
    requires
        lex_lt(a, b),
        lex_lt(b, c),
    ensures
        lex_lt(a, c),
    decreases a.len(),
{
    if a.len() > 0 && b.len() > 0 && c.len() > 0 && a[0] == b[0] && b[0] == c[0] {
        lemma_lex_transitive(a.drop_first(), b.drop_first(), c.drop_first());
    }
}

proof fn lemma_lex_total(a: Seq<char>, b: Seq<char>)
    ensures
        lex_lt(a, b) || lex_lt(b, a) || a == b,
    decreases a.len(),
{
    if a.len() > 0 && b.len() > 0 {
        if a[0] == b[0] {
            lemma_lex_total(a.drop_first(), b.drop_first());
            if a.drop_first() == b.drop_first() {
                assert(a =~= seq![a[0]] + a.drop_first());
                assert(b =~= seq![b[0]] + b.drop_first());
            }
        }
    } else if a.len() == 0 && b.len() == 0 {
        assert(a =~= b);
    }
}

proof fn lemma_lex_asymmetric(a: Seq<char>, b: Seq<char>)
    requires
        lex_lt(a, b),
    ensures
        !lex_lt(b, a),
{
    if lex_lt(b, a) {
        lemma_lex_transitive(a, b, a);
        lemma_lex_irreflexive(a);
    }
}

/// Is `a` before `b`?
pub fn text_lt(a: &str, b: &str) -> (r: bool)
    ensures
        r == lex_lt(a@, b@),
{
    let n = a.unicode_len();
    let m = b.unicode_len();
    let mut i: usize = 0;
    proof {
        assert(a@.subrange(0, n as int) =~= a@);
        assert(b@.subrange(0, m as int) =~= b@);
    }
    while i < n && i < m
        invariant
            n == a@.len(),
            m == b@.len(),
            i <= n,
            i <= m,
            lex_lt(a@, b@) == lex_lt(a@.subrange(i as int, n as int), b@.subrange(i as int, m as int)),
        decreases n - i,
    {
        let x = a.get_char(i);
        let y = b.get_char(i);
        proof {
            let sa = a@.subrange(i as int, n as int);
            let sb = b@.subrange(i as int, m as int);
            assert(sa[0] == x);
            assert(sb[0] == y);
            assert(sa.drop_first() =~= a@.subrange(i + 1, n as int));
            assert(sb.drop_first() =~= b@.subrange(i + 1, m as int));
        }
        if x != y {
            return x < y;
        }
        i = i + 1;
    }
    i == n && i < m
}

/// `order` lists each position below `n` once.
pub open spec fn is_permutation(order: Seq<usize>, n: nat) -> bool {
    &&& order.len() == n
    &&& forall|p: int| 0 <= p < order.len() ==> #[trigger] order[p] < n
    &&& forall|p: int, q: int| 0 <= p < q < order.len() ==> order[p] != order[q]
}

/// `order` puts the names in non-decreasing order, keeping equal names in
/// their original order.
pub open spec fn sorted_stable(names: Seq<Seq<char>>, order: Seq<usize>) -> bool {
    &&& forall|p: int, q: int| 0 <= p < q < order.len() ==> !lex_lt(names[order[q] as int], names[order[p] as int])
    &&& forall|p: int, q: int| 0 <= p < q < order.len() && names[order[p] as int] == names[order[q] as int]
        ==> order[p] < order[q]
}

/// A permutation of `0..n` holds every position below `n`.
proof fn lemma_permutation_covers(order: Seq<usize>, n: nat, v: int)
    requires
        is_permutation(order, n),
        0 <= v < n,
    ensures
        exists|p: int| 0 <= p < order.len() && order[p] == v,
{
    let oi = order.map_values(|x: usize| x as int);
    assert(oi.no_duplicates()) by {
        assert forall|p: int, q: int| 0 <= p < oi.len() && 0 <= q < oi.len() && p != q implies oi[p] != oi[q] by {
            if p < q {
                assert(order[p] != order[q]);
            } else {
                assert(order[q] != order[p]);
            }
        }
    }
    oi.unique_seq_to_set();
    vstd::set_lib::lemma_int_range(0, n as int);
    let r = vstd::set_lib::set_int_range(0, n as int);
    assert(oi.to_set().subset_of(r)) by {
        assert forall|x: int| oi.to_set().contains(x) implies r.contains(x) by {
            let p = choose|p: int| 0 <= p < oi.len() && oi[p] == x;
            assert(order[p] < n);
        }
    }
    vstd::set_lib::lemma_subset_equality(oi.to_set(), r);
    assert(r.contains(v));
    assert(oi.to_set().contains(v));
    let p = choose|p: int| 0 <= p < oi.len() && oi[p] == v;
    assert(order[p] == v);
}

/// The name order of `names`: the permutation of their positions that
/// sorts them, equal names keeping their original order. There is exactly
/// one (`lemma_name_order_unique`).
pub open spec fn name_order(names: Seq<Seq<char>>) -> Seq<usize> {
    choose|o: Seq<usize>| is_permutation(o, names.len()) && sorted_stable(names, o)
}

/// There is only one name order: two permutations that both sort the names,
/// keeping equal names in their original order, are the same permutation.
pub proof fn lemma_name_order_unique(names: Seq<Seq<char>>, o1: Seq<usize>, o2: Seq<usize>)
    requires
        is_permutation(o1, names.len()),
        is_permutation(o2, names.len()),
        sorted_stable(names, o1),
        sorted_stable(names, o2),
    ensures
        o1 == o2,
{
    if o1 != o2 {
        assert(exists|p: int| 0 <= p < o1.len() && o1[p] != o2[p]) by {
            if forall|p: int| 0 <= p < o1.len() ==> o1[p] == o2[p] {
                assert(o1 =~= o2);
            }
        }
        let p0 = choose|p: int| 0 <= p < o1.len() && o1[p] != o2[p];
        let p = lemma_first_difference(o1, o2, p0);
        let a = o1[p];
        let b = o2[p];
        lemma_permutation_covers(o1, names.len(), b as int);
        lemma_permutation_covers(o2, names.len(), a as int);
        let p1 = choose|q: int| 0 <= q < o1.len() && o1[q] == b;
        let p2 = choose|q: int| 0 <= q < o2.len() && o2[q] == a;
        if p1 < p {
            assert(o2[p1] == b);
            assert(o2[p1] != o2[p]);
        }
        if p2 < p {
            assert(o1[p2] == a);
            assert(o1[p2] != o1[p]);
        }
        assert(p < p1 && p < p2);
        assert(!lex_lt(names[b as int], names[a as int]));
        assert(!lex_lt(names[a as int], names[b as int]));
        lemma_lex_total(names[a as int], names[b as int]);
        assert(a < b);
        assert(b < a);
    }
}

/// The first position at or before `p` where the two sequences differ.
proof fn lemma_first_difference(o1: Seq<usize>, o2: Seq<usize>, p: int) -> (f: int)
    requires
        0 <= p < o1.len(),
        o1.len() == o2.len(),
        o1[p] != o2[p],
    ensures
        0 <= f <= p,
        o1[f] != o2[f],
        forall|q: int| 0 <= q < f ==> o1[q] == o2[q],
    decreases p,
{
    if exists|q: int| 0 <= q < p && o1[q] != o2[q] {
        let q = choose|q: int| 0 <= q < p && o1[q] != o2[q];
        lemma_first_difference(o1, o2, q)
    } else {
        p
    }
}

/// The positions of the names in name order, equal names in their original
/// order.
pub fn sorted_order(names: &[String]) -> (r: Vec<usize>)
    ensures
        is_permutation(r@, names@.len()),
        sorted_stable(views(names@), r@),
{
    let ghost nm = views(names@);
    let mut order: Vec<usize> = Vec::new();
    let n = names.len();
    let mut i: usize = 0;
    while i < n
        invariant
            n == names@.len(),
            nm == views(names@),
            i <= n,
            is_permutation(order@, i as nat),
            sorted_stable(nm, order@),
        decreases n - i,
    {
        let len = order.len();
        let mut pos: usize = 0;
        while pos < len && !text_lt(names[i].as_str(), names[order[pos]].as_str())
            invariant
                len == order@.len(),
                pos <= len,
                n == names@.len(),
                nm == views(names@),
                i < n,
                is_permutation(order@, i as nat),
                forall|p: int| 0 <= p < pos ==> !lex_lt(nm[i as int], nm[order@[p] as int]),
            decreases len - pos,
        {
            pos = pos + 1;
        }
        proof {
            assert forall|p: int| pos <= p < len implies lex_lt(nm[i as int], nm[order@[p] as int]) by {
                assert(pos < len);
                assert(lex_lt(nm[i as int], nm[order@[pos as int] as int]));
                if p > pos {
                    assert(!lex_lt(nm[order@[p] as int], nm[order@[pos as int] as int]));
                    lemma_lex_total(nm[order@[p] as int], nm[order@[pos as int] as int]);
                    if lex_lt(nm[order@[pos as int] as int], nm[order@[p] as int]) {
                        lemma_lex_transitive(nm[i as int], nm[order@[pos as int] as int], nm[order@[p] as int]);
                    }
                }
            }
        }
        let ghost old_order = order@;
        order.insert(pos, i);
        proof {
            let o = order@;
            assert(o == old_order.insert(pos as int, i));
            assert forall|p: int| 0 <= p < o.len() implies #[trigger] o[p] < i + 1 by {
                if p < pos { assert(o[p] == old_order[p]); }
                else if p > pos { assert(o[p] == old_order[p - 1]); }
            }
            assert forall|p: int, q: int| 0 <= p < q < o.len() implies o[p] != o[q] by {
                if p < pos && q < pos { assert(o[p] == old_order[p] && o[q] == old_order[q]); }
                else if p < pos && q > pos { assert(o[p] == old_order[p] && o[q] == old_order[q - 1]); }
                else if p > pos && q > pos { assert(o[p] == old_order[p - 1] && o[q] == old_order[q - 1]); }
                else if p == pos { assert(o[q] == old_order[q - 1]); }
                else { assert(o[p] == old_order[p]); }
            }
            assert forall|p: int, q: int| 0 <= p < q < o.len() implies !lex_lt(nm[o[q] as int], nm[o[p] as int]) by {
                if p < pos && q < pos {
                    assert(o[p] == old_order[p] && o[q] == old_order[q]);
                } else if p < pos && q == pos {
                    assert(o[p] == old_order[p]);
                    assert(!lex_lt(nm[i as int], nm[old_order[p] as int]));
                } else if p < pos && q > pos {
                    assert(o[p] == old_order[p] && o[q] == old_order[q - 1]);
                } else if p == pos {
                    assert(o[q] == old_order[q - 1]);
                    assert(lex_lt(nm[i as int], nm[old_order[q - 1] as int]));
                    lemma_lex_asymmetric(nm[i as int], nm[old_order[q - 1] as int]);
                } else {
                    assert(o[p] == old_order[p - 1] && o[q] == old_order[q - 1]);
                }
            }
            assert forall|p: int, q: int| 0 <= p < q < o.len() && nm[o[p] as int] == nm[o[q] as int] implies o[p] < o[q] by {
                if p < pos && q < pos {
                    assert(o[p] == old_order[p] && o[q] == old_order[q]);
                } else if p < pos && q == pos {
                    assert(o[p] == old_order[p]);
                } else if p < pos && q > pos {
                    assert(o[p] == old_order[p] && o[q] == old_order[q - 1]);
                } else if p == pos {
                    assert(o[q] == old_order[q - 1]);
                    assert(lex_lt(nm[i as int], nm[old_order[q - 1] as int]));
                    lemma_lex_irreflexive(nm[i as int]);
                } else {
                    assert(o[p] == old_order[p - 1] && o[q] == old_order[q - 1]);
                }
            }
        }
        i = i + 1;
    }
    order
}

// ---------------------------------------------------------------------------
// The checksum file

/// The checksum lines of a repository's artifacts with bytes:
/// `<hex sha256>  <repo>-<name>`.
pub open spec fn checksum_lines(repo: Seq<char>, arts: Seq<Artifact>) -> Seq<Seq<char>>
    decreases arts.len(),
{
    if arts.len() == 0 {
        Seq::empty()
    } else {
        let rest = checksum_lines(repo, arts.drop_last());
        match arts.last().data {
            Some(d) => rest.push(hex_encode(spec_sha256(d@)) + "  "@ + asset_name(repo, arts.last().name@)),
            None => rest,
        }
    }
}

/// The checksum lines of the repositories taken in the given order.
pub open spec fn ordered_checksum_lines(artifacts: Seq<(String, Vec<Artifact>)>, order: Seq<usize>) -> Seq<Seq<char>>
    decreases order.len(),
{
    if order.len() == 0 {
        Seq::empty()
    } else {
        let k = order.last() as int;
        ordered_checksum_lines(artifacts, order.drop_last()) + checksum_lines(artifacts[k].0@, artifacts[k].1@)
    }
}

/// The names of the repositories.
pub open spec fn repo_names(artifacts: Seq<(String, Vec<Artifact>)>) -> Seq<Seq<char>> {
    Seq::new(artifacts.len(), |i: int| artifacts[i].0@)
}

/// Every artifact with bytes has its checksum line among a repository's
/// lines: the hex SHA-256 of its bytes, two spaces, the repository, a hyphen
/// and its name.
pub proof fn lemma_checksum_line_present(repo: Seq<char>, arts: Seq<Artifact>, k: int)
    requires
        0 <= k < arts.len(),
        arts[k].data is Some,
    ensures
        checksum_lines(repo, arts).contains(
            hex_encode(spec_sha256(arts[k].data->0@)) + "  "@ + repo + "-"@ + arts[k].name@),
    decreases arts.len(),
{
    let line = hex_encode(spec_sha256(arts[k].data->0@)) + "  "@ + repo + "-"@ + arts[k].name@;
    let rest = checksum_lines(repo, arts.drop_last());
    if k < arts.len() - 1 {
        lemma_checksum_line_present(repo, arts.drop_last(), k);
        let j = choose|j: int| 0 <= j < rest.len() && rest[j] == line;
        match arts.last().data {
            Some(d) => {
                assert(checksum_lines(repo, arts) == rest.push(hex_encode(spec_sha256(d@)) + "  "@ + asset_name(repo, arts.last().name@)));
                assert(checksum_lines(repo, arts)[j] == line);
            },
            None => {},
        }
    } else {
        let d = arts.last().data->0;
        assert(checksum_lines(repo, arts) == rest.push(hex_encode(spec_sha256(d@)) + "  "@ + asset_name(repo, arts.last().name@)));
        assert(checksum_lines(repo, arts)[rest.len() as int] == line);
    }
}

/// The lines of the repositories taken in an order hold the lines of every
/// repository the order lists.
proof fn lemma_ordered_lines_include(artifacts: Seq<(String, Vec<Artifact>)>, order: Seq<usize>, p: int, line: Seq<char>)
    requires
        0 <= p < order.len(),
        checksum_lines(artifacts[order[p] as int].0@, artifacts[order[p] as int].1@).contains(line),
    ensures
        ordered_checksum_lines(artifacts, order).contains(line),
    decreases order.len(),
{
    let k = order.last() as int;
    let before = ordered_checksum_lines(artifacts, order.drop_last());
    let mine = checksum_lines(artifacts[k].0@, artifacts[k].1@);
    assert(ordered_checksum_lines(artifacts, order) == before + mine);
    if p < order.len() - 1 {
        assert(order.drop_last()[p] == order[p]);
        lemma_ordered_lines_include(artifacts, order.drop_last(), p, line);
        let j = choose|j: int| 0 <= j < before.len() && before[j] == line;
        assert((before + mine)[j] == line);
    } else {
        let j = choose|j: int| 0 <= j < mine.len() && mine[j] == line;
        assert((before + mine)[before.len() + j] == line);
    }
}

/// The `SHA256SUMS` file: the checksum lines of every artifact with bytes,
/// repositories in name order, one per line, ending with a newline.
pub fn generate_sha256sums(artifacts: &[(String, Vec<Artifact>)]) -> (r: String)
    ensures
        r@ == join(ordered_checksum_lines(artifacts@, name_order(repo_names(artifacts@))), "\n"@) + "\n"@,
        forall|i: int, k: int| 0 <= i < artifacts@.len() && 0 <= k < artifacts@[i].1@.len()
            && (#[trigger] artifacts@[i].1@[k]).data is Some
            ==> ordered_checksum_lines(artifacts@, name_order(repo_names(artifacts@))).contains(
                hex_encode(spec_sha256(artifacts@[i].1@[k].data->0@)) + "  "@ + artifacts@[i].0@ + "-"@
                    + artifacts@[i].1@[k].name@),
{
    let mut names: Vec<String> = Vec::new();
    let n = artifacts.len();
    let mut i: usize = 0;
    while i < n
        invariant
            n == artifacts@.len(),
            i <= n,
            names@.len() == i,
            forall|j: int| 0 <= j < i ==> (#[trigger] names@[j])@ == artifacts@[j].0@,
        decreases n - i,
    {
        names.push(artifacts[i].0.clone());
        i = i + 1;
    }
    proof {
        assert(views(names@) =~= repo_names(artifacts@));
    }
    let order = sorted_order(names.as_slice());
    let mut lines: Vec<String> = Vec::new();
    let mut p: usize = 0;
    while p < n
        invariant
            n == artifacts@.len(),
            order@.len() == n,
            is_permutation(order@, n as nat),
            p <= n,
            views(lines@) == ordered_checksum_lines(artifacts@, order@.subrange(0, p as int)),
        decreases n - p,
    {
        proof {
            assert(order@.subrange(0, p + 1).drop_last() =~= order@.subrange(0, p as int));
            assert(order@[p as int] < n);
        }
        let k = order[p];
        let repo = &artifacts[k].0;
        let arts = &artifacts[k].1;
        let ghost base = views(lines@);
        let m = arts.len();
        let mut q: usize = 0;
        while q < m
            invariant
                m == arts@.len(),
                q <= m,
                views(lines@) == base + checksum_lines(repo@, arts@.subrange(0, q as int)),
            decreases m - q,
        {
            proof {
                assert(arts@.subrange(0, q + 1).drop_last() =~= arts@.subrange(0, q as int));
            }
            match &arts[q].data {
                Some(d) => {
                    let digest = sha256(d.as_slice());
                    let mut line = to_hex(digest.as_slice());
                    line.append("  ");
                    line.append(repo.as_str());
                    line.append("-");
                    line.append(arts[q].name.as_str());
                    proof {
                        assert(line@ =~= hex_encode(spec_sha256(d@)) + "  "@ + asset_name(repo@, arts@[q as int].name@));
                        let sub = arts@.subrange(0, q + 1);
                        assert(sub.last() == arts@[q as int]);
                        assert(checksum_lines(repo@, sub) == checksum_lines(repo@, arts@.subrange(0, q as int)).push(line@));
                    }
                    let ghost before = lines@;
                    lines.push(line);
                    proof {
                        assert(views(lines@) =~= views(before).push(lines@[lines@.len() - 1]@));
                        assert(base + checksum_lines(repo@, arts@.subrange(0, q as int)).push(lines@[lines@.len() - 1]@)
                            =~= (base + checksum_lines(repo@, arts@.subrange(0, q as int))).push(lines@[lines@.len() - 1]@));
                    }
                },
                None => {},
            }
            q = q + 1;
        }
        proof {
            assert(arts@.subrange(0, m as int) =~= arts@);
        }
        p = p + 1;
    }
    proof {
        assert(order@.subrange(0, n as int) =~= order@);
        let nm = repo_names(artifacts@);
        assert(is_permutation(order@, nm.len()) && sorted_stable(nm, order@));
        let o2 = name_order(nm);
        assert(is_permutation(o2, nm.len()) && sorted_stable(nm, o2));
        lemma_name_order_unique(nm, order@, o2);
        assert forall|i: int, k: int| 0 <= i < artifacts@.len() && 0 <= k < artifacts@[i].1@.len()
            && (#[trigger] artifacts@[i].1@[k]).data is Some
            implies ordered_checksum_lines(artifacts@, order@).contains(
                hex_encode(spec_sha256(artifacts@[i].1@[k].data->0@)) + "  "@ + artifacts@[i].0@ + "-"@
                    + artifacts@[i].1@[k].name@) by {
            lemma_checksum_line_present(artifacts@[i].0@, artifacts@[i].1@, k);
            lemma_permutation_covers(order@, n as nat, i);
            let p = choose|p: int| 0 <= p < order@.len() && order@[p] == i;
            lemma_ordered_lines_include(artifacts@, order@, p,
                hex_encode(spec_sha256(artifacts@[i].1@[k].data->0@)) + "  "@ + artifacts@[i].0@ + "-"@
                    + artifacts@[i].1@[k].name@);
        }
    }
    let mut out = join_strings(lines.as_slice(), "\n");
    out.append("\n");
    out
}

} // verus!
