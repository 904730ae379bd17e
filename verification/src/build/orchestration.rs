//! The decisions of a release build across the organization's repositories.
//! The repositories come in groups that may build in parallel, in
//! dependency order. Before a group is triggered, every dependency of its
//! repositories that was triggered earlier and has not finished yet is
//! waited for, once, and must succeed; then each repository of the group is
//! triggered. When every group is triggered, all builds are monitored, and
//! only if all succeed are their artifacts published. The caller performs
//! each action and reports back what happened.

use vstd::prelude::*;
use vstd::string::*;
use crate::error::GovernanceError;
use crate::text::{str_eq, views};

verus! {

/// What the orchestration asks to be done next.
#[derive(Debug)]
pub enum ReleaseAction {
    /// Wait until the build of `repo` (workflow run `run_id`) finishes and
    /// report whether it succeeded.
    WaitFor { repo: String, run_id: u64 },
    /// Trigger a build of `repo` and report its workflow run id.
    Trigger { repo: String },
    /// Wait until every triggered build finishes and report each outcome.
    MonitorAll { runs: Vec<(String, u64)> },
    /// Collect and download the artifacts of these runs and publish the
    /// release.
    Publish { runs: Vec<(String, u64)> },
    /// Stop: the release failed.
    Fail(GovernanceError),
}

/// Where an orchestration stands.
#[derive(Debug, Clone, Copy, PartialEq, Eq, Structural)]
pub enum ReleaseStage {
    /// Groups are being waited for and triggered.
    Building,
    /// Every group is triggered; the outcome of all builds is awaited.
    Monitoring,
    /// The release was published or failed.
    Finished,
}

/// The state of one release orchestration.
#[derive(Debug)]
pub struct ReleaseRun {
    pub version: String,
    /// The repositories, in groups that may build in parallel, in order.
    pub groups: Vec<Vec<String>>,
    /// The dependencies of each repository; one missing from the list has
    /// none.
    pub dependencies: Vec<(String, Vec<String>)>,
    /// The groups before this one have been opened.
    pub next_group: usize,
    /// Dependency builds still to wait for before the open group triggers.
    pub waits: Vec<(String, u64)>,
    /// Repositories of the open group still to trigger.
    pub to_trigger: Vec<String>,
    /// The builds triggered so far, each repository once, with its run id.
    pub triggered: Vec<(String, u64)>,
    /// The builds known to have succeeded.
    pub completed: Vec<String>,
    pub stage: ReleaseStage,
}

// ---------------------------------------------------------------------------
// Specifications

/// The runs as (repository, run id) pairs of texts.
pub open spec fn run_views(runs: Seq<(String, u64)>) -> Seq<(Seq<char>, u64)> {
    Seq::new(runs.len(), |i: int| (runs[i].0@, runs[i].1))
}

/// The position of the first run of `repo`, or -1.
pub open spec fn run_index(runs: Seq<(Seq<char>, u64)>, repo: Seq<char>) -> int
    decreases runs.len(),
{
    if runs.len() == 0 {
        -1
    } else if runs[0].0 == repo {
        0
    } else {
        let k = run_index(runs.drop_first(), repo);
        if k < 0 { -1 } else { k + 1 }
    }
}

/// The run id recorded for `repo`, if any.
pub open spec fn run_of(runs: Seq<(Seq<char>, u64)>, repo: Seq<char>) -> Option<u64> {
    let k = run_index(runs, repo);
    if k < 0 { None } else { Some(runs[k].1) }
}

/// The runs after recording run `id` of `repo`: it replaces an earlier run
/// of the same repository, else it is added at the end.
pub open spec fn with_run(runs: Seq<(Seq<char>, u64)>, repo: Seq<char>, id: u64) -> Seq<(Seq<char>, u64)> {
    let k = run_index(runs, repo);
    if k < 0 { runs.push((repo, id)) } else { runs.update(k, (repo, id)) }
}

/// The dependencies listed for `repo` (the first entry naming it), or none.
pub open spec fn deps_of(dependencies: Seq<(String, Vec<String>)>, repo: Seq<char>) -> Seq<Seq<char>>
    decreases dependencies.len(),
{
    if dependencies.len() == 0 {
        Seq::empty()
    } else if dependencies[0].0@ == repo {
        views(dependencies[0].1@)
    } else {
        deps_of(dependencies.drop_first(), repo)
    }
}

/// The dependencies of a group's repositories, repository by repository.
pub open spec fn candidates(group: Seq<Seq<char>>, dependencies: Seq<(String, Vec<String>)>) -> Seq<Seq<char>>
    decreases group.len(),
{
    if group.len() == 0 {
        Seq::empty()
    } else {
        candidates(group.drop_last(), dependencies) + deps_of(dependencies, group.last())
    }
}

/// The dependency builds waited for, in order: each candidate that was
/// triggered and has not completed, counting those already waited for as
/// completed.
pub open spec fn pick(cands: Seq<Seq<char>>, runs: Seq<(Seq<char>, u64)>, done: Seq<Seq<char>>) -> Seq<(Seq<char>, u64)>
    decreases cands.len(),
{
    if cands.len() == 0 {
        Seq::empty()
    } else {
        let c = cands[0];
        if !done.contains(c) && run_of(runs, c) is Some {
            seq![(c, run_of(runs, c)->0)] + pick(cands.drop_first(), runs, done.push(c))
        } else {
            pick(cands.drop_first(), runs, done)
        }
    }
}

/// The first group at or after `from` that has repositories, or the number
/// of groups.
pub open spec fn first_open_group(groups: Seq<Vec<String>>, from: int) -> int
    decreases groups.len() - from,
{
    if from >= groups.len() {
        groups.len() as int
    } else if groups[from]@.len() > 0 {
        from
    } else {
        first_open_group(groups, from + 1)
    }
}

/// The waits for opening group `g`, given the runs triggered and the
/// builds completed so far.
pub open spec fn group_waits(groups: Seq<Vec<String>>, dependencies: Seq<(String, Vec<String>)>, runs: Seq<(Seq<char>, u64)>, done: Seq<Seq<char>>, g: int) -> Seq<(Seq<char>, u64)> {
    pick(candidates(views(groups[g]@), dependencies), runs, done)
}

/// Each repository appears once among the runs.
pub open spec fn runs_unique(runs: Seq<(Seq<char>, u64)>) -> bool {
    forall|i: int, j: int| 0 <= i < j < runs.len() ==> runs[i].0 != runs[j].0
}

/// The run is consistent: the open group is within the groups, and while
/// monitoring or finished nothing is left to wait for or trigger.
pub open spec fn run_wf(s: ReleaseRun) -> bool {
    &&& s.next_group <= s.groups@.len()
    &&& s.stage != ReleaseStage::Building ==> s.waits@.len() == 0 && s.to_trigger@.len() == 0
    &&& s.waits@.len() > 0 ==> s.to_trigger@.len() > 0
    &&& runs_unique(run_views(s.triggered@))
}

/// The action asks to wait for the given run.
pub open spec fn is_wait(a: ReleaseAction, w: (Seq<char>, u64)) -> bool {
    a matches ReleaseAction::WaitFor { repo, run_id } && repo@ == w.0 && run_id == w.1
}

/// The action asks to trigger the given repository.
pub open spec fn is_trigger(a: ReleaseAction, repo_name: Seq<char>) -> bool {
    a matches ReleaseAction::Trigger { repo } && repo@ == repo_name
}

/// The action asks to monitor exactly these runs.
pub open spec fn is_monitor_all(a: ReleaseAction, rs: Seq<(Seq<char>, u64)>) -> bool {
    a matches ReleaseAction::MonitorAll { runs } && run_views(runs@) == rs
}

/// The action asks to publish exactly these runs.
pub open spec fn is_publish(a: ReleaseAction, rs: Seq<(Seq<char>, u64)>) -> bool {
    a matches ReleaseAction::Publish { runs } && run_views(runs@) == rs
}

/// The action fails with a build error carrying this message.
pub open spec fn is_build_failure(a: ReleaseAction, m: Seq<char>) -> bool {
    a matches ReleaseAction::Fail(GovernanceError::BuildError(e)) && e@ == m
}

/// What the run asks next, given that the open group is being worked
/// through or the next one is opened: the first wait, else the first
/// repository to trigger.
pub open spec fn next_in_group(waits: Seq<(Seq<char>, u64)>, to_trigger: Seq<Seq<char>>, a: ReleaseAction) -> bool {
    if waits.len() > 0 { is_wait(a, waits[0]) } else { is_trigger(a, to_trigger[0]) }
}

// ---------------------------------------------------------------------------
// Helpers

fn copy_names(v: &Vec<String>) -> (r: Vec<String>)
    ensures
        r@ == v@,
{
    let mut out: Vec<String> = Vec::new();
    let mut i: usize = 0;
    while i < v.len()
        invariant
            i <= v@.len(),
            out@ == v@.subrange(0, i as int),
        decreases v@.len() - i,
    {
        out.push(v[i].clone());
        proof {
            assert(out@ =~= v@.subrange(0, i + 1));
        }
        i = i + 1;
    }
    proof {
        assert(v@.subrange(0, v@.len() as int) =~= v@);
    }
    out
}

fn copy_runs(v: &Vec<(String, u64)>) -> (r: Vec<(String, u64)>)
    ensures
        r@ == v@,
{
    let mut out: Vec<(String, u64)> = Vec::new();
    let mut i: usize = 0;
    while i < v.len()
        invariant
            i <= v@.len(),
            out@ == v@.subrange(0, i as int),
        decreases v@.len() - i,
    {
        out.push((v[i].0.clone(), v[i].1));
        proof {
            assert(out@ =~= v@.subrange(0, i + 1));
        }
        i = i + 1;
    }
    proof {
        assert(v@.subrange(0, v@.len() as int) =~= v@);
    }
    out
}

proof fn lemma_run_index_bounds(runs: Seq<(Seq<char>, u64)>, repo: Seq<char>)
    ensures
        -1 <= run_index(runs, repo) < runs.len(),
        run_index(runs, repo) >= 0 ==> runs[run_index(runs, repo)].0 == repo,
        run_index(runs, repo) >= 0 ==> forall|j: int| 0 <= j < run_index(runs, repo) ==> runs[j].0 != repo,
        run_index(runs, repo) < 0 ==> forall|j: int| 0 <= j < runs.len() ==> runs[j].0 != repo,
    decreases runs.len(),
{
    if runs.len() > 0 {
        lemma_run_index_bounds(runs.drop_first(), repo);
        let k = run_index(runs.drop_first(), repo);
        assert forall|j: int| 1 <= j < runs.len() implies runs[j] == runs.drop_first()[j - 1] by {}
        if runs[0].0 != repo {
            if k >= 0 {
                assert forall|j: int| 0 <= j < k + 1 implies runs[j].0 != repo by {
                    if j > 0 {
                        assert(runs[j] == runs.drop_first()[j - 1]);
                    }
                }
            } else {
                assert forall|j: int| 0 <= j < runs.len() implies runs[j].0 != repo by {
                    if j > 0 {
                        assert(runs[j] == runs.drop_first()[j - 1]);
                    }
                }
            }
        }
    }
}

/// Where `repo` was triggered, if it was.
fn find_run(runs: &Vec<(String, u64)>, repo: &str) -> (r: Option<usize>)
    ensures
        match r {
            Some(i) => i as int == run_index(run_views(runs@), repo@),
            None => run_index(run_views(runs@), repo@) < 0,
        },
{
    let ghost rv = run_views(runs@);
    proof {
        lemma_run_index_bounds(rv, repo@);
    }
    let mut i: usize = 0;
    while i < runs.len()
        invariant
            rv == run_views(runs@),
            i <= runs@.len(),
            forall|j: int| 0 <= j < i ==> rv[j].0 != repo@,
            -1 <= run_index(rv, repo@) < rv.len(),
            run_index(rv, repo@) >= 0 ==> rv[run_index(rv, repo@)].0 == repo@,
            run_index(rv, repo@) >= 0 ==> forall|j: int| 0 <= j < run_index(rv, repo@) ==> rv[j].0 != repo@,
            run_index(rv, repo@) < 0 ==> forall|j: int| 0 <= j < rv.len() ==> rv[j].0 != repo@,
        decreases runs@.len() - i,
    {
        if str_eq(runs[i].0.as_str(), repo) {
            assert(rv[i as int].0 == repo@);
            return Some(i);
        }
        i = i + 1;
    }
    assert(rv.len() == runs@.len());
    None
}

/// Whether `repo` is among the completed builds.
fn is_completed(done: &Vec<String>, repo: &str) -> (r: bool)
    ensures
        r == views(done@).contains(repo@),
{
    let mut i: usize = 0;
    while i < done.len()
        invariant
            i <= done@.len(),
            forall|j: int| 0 <= j < i ==> done@[j]@ != repo@,
        decreases done@.len() - i,
    {
        if str_eq(done[i].as_str(), repo) {
            assert(views(done@)[i as int] == repo@);
            return true;
        }
        i = i + 1;
    }
    proof {
        if views(done@).contains(repo@) {
            let j = choose|j: int| 0 <= j < views(done@).len() && views(done@)[j] == repo@;
            assert(done@[j]@ == repo@);
        }
    }
    false
}

/// The dependencies listed for `repo`.
fn find_deps(dependencies: &Vec<(String, Vec<String>)>, repo: &str) -> (r: Vec<String>)
    ensures
        views(r@) == deps_of(dependencies@, repo@),
{
    let mut i: usize = 0;
    proof {
        assert(dependencies@.skip(0) =~= dependencies@);
    }
    while i < dependencies.len()
        invariant
            i <= dependencies@.len(),
            deps_of(dependencies@.skip(i as int), repo@) == deps_of(dependencies@, repo@),
        decreases dependencies@.len() - i,
    {
        proof {
            assert(dependencies@.skip(i as int).drop_first() =~= dependencies@.skip(i + 1));
            assert(dependencies@.skip(i as int)[0] == dependencies@[i as int]);
        }
        if str_eq(dependencies[i].0.as_str(), repo) {
            return copy_names(&dependencies[i].1);
        }
        i = i + 1;
    }
    Vec::new()
}

/// The dependencies of a group's repositories, in order.
fn group_candidates(group: &Vec<String>, dependencies: &Vec<(String, Vec<String>)>) -> (r: Vec<String>)
    ensures
        views(r@) == candidates(views(group@), dependencies@),
{
    let mut out: Vec<String> = Vec::new();
    let mut i: usize = 0;
    while i < group.len()
        invariant
            i <= group@.len(),
            views(out@) == candidates(views(group@.subrange(0, i as int)), dependencies@),
        decreases group@.len() - i,
    {
        let mut deps = find_deps(dependencies, group[i].as_str());
        let ghost before = out@;
        let ghost dv = deps@;
        out.append(&mut deps);
        proof {
            let g1 = views(group@.subrange(0, i + 1));
            assert(g1.drop_last() =~= views(group@.subrange(0, i as int)));
            assert(g1.last() == group@[i as int]@);
            assert(views(out@) =~= views(before) + views(dv));
        }
        i = i + 1;
    }
    proof {
        assert(group@.subrange(0, group@.len() as int) =~= group@);
    }
    out
}

proof fn lemma_views_push(v: Seq<String>, s: String)
    ensures
        views(v.push(s)) == views(v).push(s@),
{
    assert(views(v.push(s)) =~= views(v).push(s@));
}

/// The waits for a group: the candidates that were triggered and are not
/// completed, each once.
fn compute_waits(cands: &Vec<String>, triggered: &Vec<(String, u64)>, completed: &Vec<String>) -> (r: Vec<(String, u64)>)
    ensures
        run_views(r@) == pick(views(cands@), run_views(triggered@), views(completed@)),
{
    let ghost cv = views(cands@);
    let ghost tv = run_views(triggered@);
    let mut done: Vec<String> = copy_names(completed);
    let mut out: Vec<(String, u64)> = Vec::new();
    let mut i: usize = 0;
    proof {
        assert(cv.skip(0) =~= cv);
        assert(views(done@) =~= views(completed@));
        assert(run_views(out@) + pick(cv, tv, views(done@)) =~= pick(cv, tv, views(completed@)));
    }
    while i < cands.len()
        invariant
            cv == views(cands@),
            tv == run_views(triggered@),
            i <= cands@.len(),
            run_views(out@) + pick(cv.skip(i as int), tv, views(done@)) == pick(cv, tv, views(completed@)),
        decreases cands@.len() - i,
    {
        let ghost rest = cv.skip(i as int);
        proof {
            assert(rest[0] == cands@[i as int]@);
            assert(rest.drop_first() =~= cv.skip(i + 1));
        }
        let c = &cands[i];
        if !is_completed(&done, c.as_str()) {
            match find_run(triggered, c.as_str()) {
                Some(k) => {
                    proof {
                        lemma_run_index_bounds(tv, c@);
                    }
                    let ghost before = out@;
                    out.push((c.clone(), triggered[k].1));
                    proof {
                        lemma_run_index_bounds(tv, c@);
                        assert(run_of(tv, c@) == Some(triggered@[k as int].1));
                        lemma_views_push(done@, *c);
                        assert(run_views(out@) =~= run_views(before) + seq![(c@, triggered@[k as int].1)]);
                    }
                    done.push(c.clone());
                },
                None => {},
            }
        }
        i = i + 1;
    }
    proof {
        assert(cv.skip(cands@.len() as int) =~= Seq::<Seq<char>>::empty());
        assert(run_views(out@) + Seq::<(Seq<char>, u64)>::empty() =~= run_views(out@));
    }
    out
}

/// The first group at or after `from` that has repositories.
fn find_open_group(groups: &Vec<Vec<String>>, from: usize) -> (r: usize)
    requires
        from <= groups@.len(),
    ensures
        r as int == first_open_group(groups@, from as int),
{
    let mut k: usize = from;
    while k < groups.len() && groups[k].len() == 0
        invariant
            from <= k <= groups@.len(),
            first_open_group(groups@, k as int) == first_open_group(groups@, from as int),
        decreases groups@.len() - k,
    {
        k = k + 1;
    }
    k
}

impl ReleaseRun {
    /// Moves to the next piece of outside work: the next wait or trigger of
    /// the open group; else opens the next group with repositories; else,
    /// with every group triggered, asks for all builds to be monitored.
    fn advance(&mut self) -> (r: ReleaseAction)
        requires
            run_wf(*old(self)),
            old(self).stage == ReleaseStage::Building,
        ensures
            run_wf(*final(self)),
            final(self).version == old(self).version,
            final(self).groups == old(self).groups,
            final(self).dependencies == old(self).dependencies,
            final(self).triggered == old(self).triggered,
            final(self).completed == old(self).completed,
            old(self).waits@.len() > 0 || old(self).to_trigger@.len() > 0 ==> {
                &&& final(self).next_group == old(self).next_group
                &&& final(self).waits == old(self).waits
                &&& final(self).to_trigger == old(self).to_trigger
                &&& final(self).stage == ReleaseStage::Building
                &&& next_in_group(run_views(old(self).waits@), views(old(self).to_trigger@), r)
            },
            old(self).waits@.len() == 0 && old(self).to_trigger@.len() == 0 ==> ({
                let k = first_open_group(old(self).groups@, old(self).next_group as int);
                if k < old(self).groups@.len() {
                    &&& final(self).next_group == k + 1
                    &&& run_views(final(self).waits@) == group_waits(old(self).groups@, old(self).dependencies@,
                        run_views(old(self).triggered@), views(old(self).completed@), k)
                    &&& final(self).to_trigger@ == old(self).groups@[k]@
                    &&& final(self).stage == ReleaseStage::Building
                    &&& next_in_group(group_waits(old(self).groups@, old(self).dependencies@,
                        run_views(old(self).triggered@), views(old(self).completed@), k), views(old(self).groups@[k]@), r)
                } else {
                    &&& final(self).next_group == old(self).groups@.len()
                    &&& final(self).waits@.len() == 0
                    &&& final(self).to_trigger@.len() == 0
                    &&& final(self).stage == ReleaseStage::Monitoring
                    &&& is_monitor_all(r, run_views(old(self).triggered@))
                }
            }),
    {
        if self.waits.len() > 0 {
            let w = (self.waits[0].0.clone(), self.waits[0].1);
            return ReleaseAction::WaitFor { repo: w.0, run_id: w.1 };
        }
        if self.to_trigger.len() > 0 {
            let repo = self.to_trigger[0].clone();
            return ReleaseAction::Trigger { repo };
        }
        let k = find_open_group(&self.groups, self.next_group);
        proof {
            lemma_first_open_group(self.groups@, self.next_group as int);
        }
        if k < self.groups.len() {
            let cands = group_candidates(&self.groups[k], &self.dependencies);
            let waits = compute_waits(&cands, &self.triggered, &self.completed);
            let to_trigger = copy_names(&self.groups[k]);
            self.waits = waits;
            self.to_trigger = to_trigger;
            self.next_group = k + 1;
            if self.waits.len() > 0 {
                let w = (self.waits[0].0.clone(), self.waits[0].1);
                ReleaseAction::WaitFor { repo: w.0, run_id: w.1 }
            } else {
                let repo = self.to_trigger[0].clone();
                ReleaseAction::Trigger { repo }
            }
        } else {
            self.next_group = k;
            self.stage = ReleaseStage::Monitoring;
            let runs = copy_runs(&self.triggered);
            ReleaseAction::MonitorAll { runs }
        }
    }
}

proof fn lemma_first_open_group(groups: Seq<Vec<String>>, from: int)
    requires
        0 <= from <= groups.len(),
    ensures
        from <= first_open_group(groups, from) <= groups.len(),
        first_open_group(groups, from) < groups.len() ==> groups[first_open_group(groups, from)]@.len() > 0,
    decreases groups.len() - from,
{
    if from < groups.len() && groups[from]@.len() == 0 {
        lemma_first_open_group(groups, from + 1);
    }
}

/// `i` is the first build that did not succeed.
pub open spec fn first_failed(results: Seq<(String, bool, String)>, i: int) -> bool {
    &&& 0 <= i < results.len()
    &&& !results[i].1
    &&& forall|j: int| 0 <= j < i ==> #[trigger] results[j].1
}

proof fn lemma_pick_without_runs(cands: Seq<Seq<char>>, done: Seq<Seq<char>>)
    ensures
        pick(cands, Seq::empty(), done) == Seq::<(Seq<char>, u64)>::empty(),
    decreases cands.len(),
{
    if cands.len() > 0 {
        assert(run_index(Seq::<(Seq<char>, u64)>::empty(), cands[0]) == -1);
        lemma_pick_without_runs(cands.drop_first(), done);
    }
}

/// Records run `id` of `repo`, replacing an earlier run of it.
fn record_run(runs: &mut Vec<(String, u64)>, repo: String, id: u64)
    ensures
        run_views(final(runs)@) == with_run(run_views(old(runs)@), repo@, id),
{
    let ghost rv = run_views(runs@);
    proof {
        lemma_run_index_bounds(rv, repo@);
    }
    match find_run(runs, repo.as_str()) {
        Some(i) => {
            let ghost r2 = repo@;
            runs.set(i, (repo, id));
            proof {
                assert(run_views(runs@) =~= rv.update(i as int, (r2, id)));
            }
        },
        None => {
            let ghost r2 = repo@;
            runs.push((repo, id));
            proof {
                assert(run_views(runs@) =~= rv.push((r2, id)));
            }
        },
    }
}

fn first_failed_build(results: &[(String, bool, String)]) -> (r: Option<usize>)
    ensures
        match r {
            Some(i) => first_failed(results@, i as int),
            None => forall|j: int| 0 <= j < results@.len() ==> results@[j].1,
        },
{
    let mut i: usize = 0;
    while i < results.len()
        invariant
            i <= results@.len(),
            forall|j: int| 0 <= j < i ==> #[trigger] results@[j].1,
        decreases results@.len() - i,
    {
        if !results[i].1 {
            return Some(i);
        }
        i = i + 1;
    }
    None
}

impl ReleaseRun {
    /// Starts orchestrating the release of `version` over the given groups
    /// and dependencies, and gives the first action: nothing has been
    /// triggered yet, so the first group with repositories triggers at once.
    pub fn start(version: String, groups: Vec<Vec<String>>, dependencies: Vec<(String, Vec<String>)>) -> (r: (ReleaseRun, ReleaseAction))
        ensures
            r.0.version == version,
            r.0.groups == groups,
            r.0.dependencies == dependencies,
            r.0.triggered@.len() == 0,
            r.0.completed@.len() == 0,
            r.0.waits@.len() == 0,
            run_wf(r.0),
            ({
                let k = first_open_group(groups@, 0);
                if k < groups@.len() {
                    &&& r.0.next_group == k + 1
                    &&& r.0.stage == ReleaseStage::Building
                    &&& r.0.to_trigger@ == groups@[k]@
                    &&& is_trigger(r.1, groups@[k]@[0]@)
                } else {
                    &&& r.0.stage == ReleaseStage::Monitoring
                    &&& is_monitor_all(r.1, Seq::empty())
                }
            }),
    {
        let mut run = ReleaseRun {
            version,
            groups,
            dependencies,
            next_group: 0,
            waits: Vec::new(),
            to_trigger: Vec::new(),
            triggered: Vec::new(),
            completed: Vec::new(),
            stage: ReleaseStage::Building,
        };
        proof {
            let k = first_open_group(run.groups@, 0);
            lemma_first_open_group(run.groups@, 0);
            assert(run_views(run.triggered@) =~= Seq::<(Seq<char>, u64)>::empty());
            if k < run.groups@.len() {
                lemma_pick_without_runs(candidates(views(run.groups@[k]@), run.dependencies@), views(run.completed@));
            }
        }
        let a = run.advance();
        (run, a)
    }

    /// Takes the outcome of the dependency build waited for: a failure
    /// stops the release; a success records the build as completed and
    /// moves on.
    pub fn on_dependency_status(&mut self, success: bool, status: &str) -> (r: ReleaseAction)
        requires
            run_wf(*old(self)),
            old(self).stage == ReleaseStage::Building,
            old(self).waits@.len() > 0,
        ensures
            run_wf(*final(self)),
            final(self).version == old(self).version,
            final(self).groups == old(self).groups,
            final(self).dependencies == old(self).dependencies,
            final(self).triggered == old(self).triggered,
            !success ==> {
                &&& final(self).stage == ReleaseStage::Finished
                &&& final(self).completed == old(self).completed
                &&& is_build_failure(r, "Dependency "@ + old(self).waits@[0].0@ + " failed with status: "@ + status@)
            },
            success ==> {
                &&& views(final(self).completed@) == views(old(self).completed@).push(old(self).waits@[0].0@)
                &&& final(self).next_group == old(self).next_group
                &&& run_views(final(self).waits@) == run_views(old(self).waits@).drop_first()
                &&& final(self).to_trigger == old(self).to_trigger
                &&& final(self).stage == ReleaseStage::Building
                &&& next_in_group(run_views(old(self).waits@).drop_first(), views(old(self).to_trigger@), r)
            },
    {
        let dep = self.waits[0].0.clone();
        if !success {
            let mut m = String::from_str("Dependency ");
            m.append(dep.as_str());
            m.append(" failed with status: ");
            m.append(status);
            self.stage = ReleaseStage::Finished;
            self.waits = Vec::new();
            self.to_trigger = Vec::new();
            return ReleaseAction::Fail(GovernanceError::BuildError(m));
        }
        let ghost old_completed = self.completed@;
        let ghost old_waits = self.waits@;
        self.completed.push(dep);
        self.waits.remove(0);
        proof {
            lemma_views_push(old_completed, dep);
            assert(run_views(self.waits@) =~= run_views(old_waits).drop_first());
        }
        self.advance()
    }

    /// Takes the run id of the build just triggered, records it, and moves
    /// on: to the group's next repository, or else to the next group, whose
    /// waits are worked out from the runs triggered by then.
    pub fn on_triggered(&mut self, run_id: u64) -> (r: ReleaseAction)
        requires
            run_wf(*old(self)),
            old(self).stage == ReleaseStage::Building,
            old(self).waits@.len() == 0,
            old(self).to_trigger@.len() > 0,
        ensures
            run_wf(*final(self)),
            final(self).version == old(self).version,
            final(self).groups == old(self).groups,
            final(self).dependencies == old(self).dependencies,
            final(self).completed == old(self).completed,
            run_views(final(self).triggered@) == with_run(run_views(old(self).triggered@), old(self).to_trigger@[0]@, run_id),
            old(self).to_trigger@.len() > 1 ==> {
                &&& final(self).next_group == old(self).next_group
                &&& final(self).waits@.len() == 0
                &&& final(self).to_trigger@ == old(self).to_trigger@.drop_first()
                &&& final(self).stage == ReleaseStage::Building
                &&& is_trigger(r, old(self).to_trigger@[1]@)
            },
            old(self).to_trigger@.len() == 1 ==> ({
                let k = first_open_group(old(self).groups@, old(self).next_group as int);
                let runs = with_run(run_views(old(self).triggered@), old(self).to_trigger@[0]@, run_id);
                let w = group_waits(old(self).groups@, old(self).dependencies@, runs, views(old(self).completed@), k);
                if k < old(self).groups@.len() {
                    &&& final(self).next_group == k + 1
                    &&& run_views(final(self).waits@) == w
                    &&& final(self).to_trigger@ == old(self).groups@[k]@
                    &&& final(self).stage == ReleaseStage::Building
                    &&& next_in_group(w, views(old(self).groups@[k]@), r)
                } else {
                    &&& final(self).next_group == old(self).groups@.len()
                    &&& final(self).stage == ReleaseStage::Monitoring
                    &&& is_monitor_all(r, runs)
                }
            }),
    {
        let repo = self.to_trigger[0].clone();
        let ghost old_to_trigger = self.to_trigger@;
        let ghost old_runs = run_views(self.triggered@);
        proof {
            lemma_with_run_records_once(old_runs, repo@, run_id);
        }
        record_run(&mut self.triggered, repo, run_id);
        self.to_trigger.remove(0);
        proof {
            assert(self.to_trigger@ =~= old_to_trigger.drop_first());
            if old_to_trigger.len() > 1 {
                assert(views(self.to_trigger@)[0] == old_to_trigger[1]@);
            }
        }
        self.advance()
    }

    /// Takes the outcome of every build: the first failure, in the order
    /// given, fails the release; if all succeeded, the triggered runs are
    /// published.
    pub fn on_build_results(&mut self, results: &[(String, bool, String)]) -> (r: ReleaseAction)
        requires
            run_wf(*old(self)),
            old(self).stage == ReleaseStage::Monitoring,
        ensures
            run_wf(*final(self)),
            final(self).stage == ReleaseStage::Finished,
            final(self).version == old(self).version,
            final(self).groups == old(self).groups,
            final(self).dependencies == old(self).dependencies,
            final(self).triggered == old(self).triggered,
            final(self).completed == old(self).completed,
            (exists|i: int| 0 <= i < results@.len() && !results@[i].1) ==> exists|i: int| #[trigger] first_failed(results@, i)
                && is_build_failure(r, "Build failed for "@ + results@[i].0@ + ": "@ + results@[i].2@),
            (forall|i: int| 0 <= i < results@.len() ==> results@[i].1) ==> is_publish(r, run_views(old(self).triggered@)),
    {
        self.stage = ReleaseStage::Finished;
        match first_failed_build(results) {
            Some(i) => {
                let mut m = String::from_str("Build failed for ");
                m.append(results[i].0.as_str());
                m.append(": ");
                m.append(results[i].2.as_str());
                return ReleaseAction::Fail(GovernanceError::BuildError(m));
            },
            None => {},
        }
        let runs = copy_runs(&self.triggered);
        ReleaseAction::Publish { runs }
    }
}

/// Before a group triggers, exactly the right builds are waited for: each
/// wait is of a dependency of the group that was triggered, with the run id
/// recorded for it, and had not completed; no build is waited for twice;
/// and every dependency that was triggered and had not completed is waited
/// for.
pub proof fn lemma_waits_are_pending_dependencies(cands: Seq<Seq<char>>, runs: Seq<(Seq<char>, u64)>, done: Seq<Seq<char>>)
    ensures
        forall|i: int| 0 <= i < pick(cands, runs, done).len() ==> {
            let w = #[trigger] pick(cands, runs, done)[i];
            &&& cands.contains(w.0)
            &&& run_of(runs, w.0) == Some(w.1)
            &&& !done.contains(w.0)
        },
        forall|i: int, j: int| 0 <= i < j < pick(cands, runs, done).len() ==> #[trigger] pick(cands, runs, done)[i].0 != #[trigger] pick(cands, runs, done)[j].0,
        forall|c: Seq<char>| cands.contains(c) && run_of(runs, c) is Some && !done.contains(c) ==>
            exists|i: int| 0 <= i < pick(cands, runs, done).len() && #[trigger] pick(cands, runs, done)[i].0 == c,
    decreases cands.len(),
{
    if cands.len() > 0 {
        let c0 = cands[0];
        let rest = cands.drop_first();
        let p = pick(cands, runs, done);
        if !done.contains(c0) && run_of(runs, c0) is Some {
            let d2 = done.push(c0);
            lemma_waits_are_pending_dependencies(rest, runs, d2);
            let q = pick(rest, runs, d2);
            assert(p == seq![(c0, run_of(runs, c0)->0)] + q);
            assert forall|i: int| 0 <= i < p.len() implies {
                let w = #[trigger] p[i];
                &&& cands.contains(w.0)
                &&& run_of(runs, w.0) == Some(w.1)
                &&& !done.contains(w.0)
            } by {
                if i == 0 {
                    assert(cands[0] == c0);
                } else {
                    assert(p[i] == q[i - 1]);
                    let w = q[i - 1];
                    let k = choose|k: int| 0 <= k < rest.len() && rest[k] == w.0;
                    assert(cands[k + 1] == w.0);
                    if done.contains(w.0) {
                        let m = choose|m: int| 0 <= m < done.len() && done[m] == w.0;
                        assert(d2[m] == w.0);
                    }
                }
            }
            assert forall|i: int, j: int| 0 <= i < j < p.len() implies #[trigger] p[i].0 != #[trigger] p[j].0 by {
                assert(p[j] == q[j - 1]);
                if i == 0 {
                    assert(d2[done.len() as int] == c0);
                    assert(d2.contains(c0));
                } else {
                    assert(p[i] == q[i - 1]);
                }
            }
            assert forall|c: Seq<char>| cands.contains(c) && run_of(runs, c) is Some && !done.contains(c) implies
                exists|i: int| 0 <= i < p.len() && #[trigger] p[i].0 == c by {
                if c == c0 {
                    assert(p[0].0 == c);
                } else {
                    let k = choose|k: int| 0 <= k < cands.len() && cands[k] == c;
                    assert(k > 0);
                    assert(rest[k - 1] == c);
                    assert(rest.contains(c));
                    if d2.contains(c) {
                        let m = choose|m: int| 0 <= m < d2.len() && d2[m] == c;
                        if m < done.len() {
                            assert(done[m] == c);
                        }
                    }
                    let i = choose|i: int| 0 <= i < q.len() && #[trigger] q[i].0 == c;
                    assert(p[i + 1] == q[i]);
                }
            }
        } else {
            lemma_waits_are_pending_dependencies(rest, runs, done);
            let q = pick(rest, runs, done);
            assert(p == q);
            assert forall|i: int| 0 <= i < p.len() implies {
                let w = #[trigger] p[i];
                &&& cands.contains(w.0)
                &&& run_of(runs, w.0) == Some(w.1)
                &&& !done.contains(w.0)
            } by {
                let w = q[i];
                let k = choose|k: int| 0 <= k < rest.len() && rest[k] == w.0;
                assert(cands[k + 1] == w.0);
            }
            assert forall|c: Seq<char>| cands.contains(c) && run_of(runs, c) is Some && !done.contains(c) implies
                exists|i: int| 0 <= i < p.len() && #[trigger] p[i].0 == c by {
                let k = choose|k: int| 0 <= k < cands.len() && cands[k] == c;
                if k == 0 {
                    assert(cands[0] == c0);
                } else {
                    assert(rest[k - 1] == c);
                    assert(rest.contains(c));
                }
            }
        }
    }
}

/// Recording a triggered build keeps each repository once among the runs,
/// with its latest run id, and leaves every other repository's run as it
/// was: over a whole release, the triggered runs hold each repository once.
pub proof fn lemma_with_run_records_once(runs: Seq<(Seq<char>, u64)>, repo: Seq<char>, id: u64)
    requires
        runs_unique(runs),
    ensures
        runs_unique(with_run(runs, repo, id)),
        run_of(with_run(runs, repo, id), repo) == Some(id),
        forall|other: Seq<char>| other != repo ==> run_of(with_run(runs, repo, id), other) == run_of(runs, other),
{
    let w = with_run(runs, repo, id);
    lemma_run_index_bounds(runs, repo);
    lemma_run_index_bounds(w, repo);
    let k = run_index(runs, repo);
    assert forall|i: int, j: int| 0 <= i < j < w.len() implies w[i].0 != w[j].0 by {
        if k < 0 {
            if j == runs.len() {
                assert(runs[i].0 != repo);
            }
        } else {
            if i == k {
                assert(runs[j].0 != runs[k].0);
            } else if j == k {
                assert(runs[i].0 != runs[k].0);
            }
        }
    }
    if k < 0 {
        assert(w[runs.len() as int].0 == repo);
    } else {
        assert(w[k].0 == repo);
    }
    let kk = run_index(w, repo);
    assert(kk >= 0);
    assert(w[kk].0 == repo);
    assert(w[kk].1 == id) by {
        if k < 0 {
            if kk != runs.len() {
                assert(w[kk] == runs[kk]);
            }
        } else if kk != k {
            assert(w[kk] == runs[kk]);
            if kk < k { } else { assert(runs[kk].0 != runs[k].0); }
        }
    }
    assert forall|other: Seq<char>| other != repo implies run_of(w, other) == run_of(runs, other) by {
        lemma_run_index_bounds(runs, other);
        lemma_run_index_bounds(w, other);
        let a = run_index(runs, other);
        let b = run_index(w, other);
        if a >= 0 {
            assert(w[a] == runs[a]) by {
                if k >= 0 { assert(a != k); }
            }
            if b >= 0 && b != a {
                if b < a {
                    if b < runs.len() && !(k >= 0 && b == k) {
                        assert(w[b] == runs[b]);
                    }
                }
            }
            assert(b == a) by {
                if b < 0 || b > a {
                    assert(w[a].0 == other);
                } else if b < a {
                    if k >= 0 && b == k {
                        assert(w[b].0 == repo);
                    } else {
                        assert(w[b] == runs[b]);
                    }
                }
            }
        } else {
            if b >= 0 {
                if k < 0 && b == runs.len() {
                    assert(w[b].0 == repo);
                } else if k >= 0 && b == k {
                    assert(w[b].0 == repo);
                } else {
                    assert(w[b] == runs[b]);
                }
            }
        }
    }
}

} // verus!
