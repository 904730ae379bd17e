//! The cross-layer status check of a pull request: whether changed
//! specification files have their proof counterparts updated, whether version
//! references are pinned to valid specification versions, and whether the
//! equivalence tests of the changed consensus files pass. Each check is
//! decided from the changed file paths.

use vstd::prelude::*;
use vstd::string::*;
use crate::text::{join, join_strings, views, contains, dec_nat, ends_with, is_suffix, occurs_in, starts_with, u64_to_string, is_prefix};

verus! {

/// The state of a GitHub status check.
#[derive(Debug, PartialEq, Eq, Structural)]
pub enum StatusState {
    Success,
    Failure,
    Pending,
    Error,
}

/// How far the layers are in sync.
#[derive(Debug, PartialEq, Eq, Structural)]
pub enum SyncStatus {
    Synchronized,
    MissingUpdates,
    SyncFailure,
}

/// A reference from a file to a version of the specification.
#[derive(Debug)]
pub struct VersionReference {
    pub file_path: String,
    pub orange_paper_version: String,
    pub orange_paper_commit: String,
    pub orange_paper_hash: String,
}

/// The content-hash check: which changed files lack their counterpart update.
#[derive(Debug)]
pub struct ContentHashStatus {
    pub status: StatusState,
    pub message: String,
    pub files_checked: usize,
    pub files_synced: usize,
    pub files_missing: Vec<String>,
    pub files_outdated: Vec<String>,
}

/// A version reference that failed verification.
#[derive(Debug)]
pub struct VersionReferenceError {
    pub file_path: String,
    pub line_number: usize,
    pub reference: VersionReference,
    pub error_message: String,
}

/// The version-pinning check.
#[derive(Debug)]
pub struct VersionPinningStatus {
    pub status: StatusState,
    pub message: String,
    pub references_checked: usize,
    pub references_valid: usize,
    pub references_invalid: Vec<VersionReferenceError>,
    pub latest_version: Option<String>,
}

/// The equivalence-proof check.
#[derive(Debug)]
pub struct EquivalenceProofStatus {
    pub status: StatusState,
    pub message: String,
    pub tests_run: usize,
    pub tests_passed: usize,
    pub tests_failed: Vec<String>,
    pub proof_verification: Option<String>,
}

/// All three checks, the overall sync status, and what to do next.
#[derive(Debug)]
pub struct CrossLayerStatusDetails {
    pub content_hash_status: ContentHashStatus,
    pub version_pinning_status: VersionPinningStatus,
    pub equivalence_proof_status: EquivalenceProofStatus,
    pub overall_sync_status: SyncStatus,
    pub recommendations: Vec<String>,
}

/// The status check posted on a pull request.
#[derive(Debug)]
pub struct CrossLayerStatusCheck {
    pub state: StatusState,
    pub description: String,
    pub target_url: Option<String>,
    pub context: String,
    pub details: CrossLayerStatusDetails,
}

// ---------------------------------------------------------------------------
// Selections over the changed paths

/// The images under `f` of the paths that satisfy `p`, in order.
pub open spec fn select(s: Seq<Seq<char>>, p: spec_fn(Seq<char>) -> bool, f: spec_fn(Seq<char>) -> Seq<char>) -> Seq<Seq<char>>
    decreases s.len(),
{
    if s.len() == 0 {
        Seq::empty()
    } else if p(s.last()) {
        select(s.drop_last(), p, f).push(f(s.last()))
    } else {
        select(s.drop_last(), p, f)
    }
}

/// How many paths satisfy `p`.
pub open spec fn count_where(s: Seq<Seq<char>>, p: spec_fn(Seq<char>) -> bool) -> nat
    decreases s.len(),
{
    if s.len() == 0 {
        0
    } else {
        count_where(s.drop_last(), p) + if p(s.last()) { 1nat } else { 0nat }
    }
}

proof fn lemma_select_step(s: Seq<Seq<char>>, i: int, p: spec_fn(Seq<char>) -> bool, f: spec_fn(Seq<char>) -> Seq<char>)
    requires
        0 <= i < s.len(),
    ensures
        select(s.subrange(0, i + 1), p, f) == (if p(s[i]) {
            select(s.subrange(0, i), p, f).push(f(s[i]))
        } else {
            select(s.subrange(0, i), p, f)
        }),
        count_where(s.subrange(0, i + 1), p) == count_where(s.subrange(0, i), p) + if p(s[i]) { 1nat } else { 0nat },
{
    assert(s.subrange(0, i + 1).drop_last() =~= s.subrange(0, i));
}

// ---------------------------------------------------------------------------
// The three checks

/// A changed specification file whose proof counterpart is not updated.
pub open spec fn needs_sync(f: Seq<char>) -> bool {
    occurs_in("consensus-rules"@, f) && occurs_in("block-validation"@, f)
}

/// The identity on texts.
pub open spec fn same_text() -> spec_fn(Seq<char>) -> Seq<char> {
    |x: Seq<char>| x
}

/// `needs_sync` as a predicate value.
pub open spec fn sync_pred() -> spec_fn(Seq<char>) -> bool {
    |f: Seq<char>| needs_sync(f)
}

/// The changed files that lack their counterpart update.
pub open spec fn missing_files(files: Seq<Seq<char>>) -> Seq<Seq<char>> {
    select(files, sync_pred(), same_text())
}

/// The message of the content-hash check.
pub open spec fn content_hash_message(files: Seq<Seq<char>>) -> Seq<char> {
    let missing = missing_files(files);
    if missing.len() == 0 {
        "✅ Content Hash Sync: All "@ + dec_nat(files.len()) + " files are synchronized"@
    } else {
        "❌ Content Hash Sync: "@ + dec_nat(missing.len()) + " files missing updates: "@ + join(missing, ", "@)
    }
}

/// The content-hash check of a list of changed files.
pub open spec fn content_hash_ok(files: Seq<Seq<char>>, c: ContentHashStatus) -> bool {
    let missing = missing_files(files);
    &&& c.files_checked == files.len()
    &&& c.files_synced == files.len() - missing.len()
    &&& views(c.files_missing@) == missing
    &&& c.files_outdated@.len() == 0
    &&& c.status == (if missing.len() == 0 { StatusState::Success } else { StatusState::Failure })
    &&& c.message@ == content_hash_message(files)
}

/// A changed file that carries version references.
pub open spec fn has_version_refs(f: Seq<char>) -> bool {
    (is_suffix(".rs"@, f) || is_suffix(".md"@, f)) && occurs_in("consensus"@, f)
}

/// `has_version_refs` as a predicate value.
pub open spec fn refs_pred() -> spec_fn(Seq<char>) -> bool {
    |f: Seq<char>| has_version_refs(f)
}

/// The version-pinning check: every referencing file carries one reference,
/// to a valid version.
pub open spec fn version_pinning_ok(files: Seq<Seq<char>>, v: VersionPinningStatus) -> bool {
    let n = count_where(files, refs_pred());
    &&& v.references_checked == n
    &&& v.references_valid == n
    &&& v.references_invalid@.len() == 0
    &&& v.status == StatusState::Success
    &&& v.message@ == "✅ Version Pinning: All "@ + dec_nat(n) + " references are valid"@
    &&& v.latest_version matches Some(l) && l@ == "v1.2.3"@
}

/// A changed file that the equivalence tests cover.
pub open spec fn is_tested(f: Seq<char>) -> bool {
    occurs_in("consensus-rules"@, f) || occurs_in("proofs"@, f)
}

/// A covered file whose equivalence test fails.
pub open spec fn test_fails(f: Seq<char>) -> bool {
    is_tested(f) && occurs_in("script-execution"@, f)
}

/// `is_tested` as a predicate value.
pub open spec fn tested_pred() -> spec_fn(Seq<char>) -> bool {
    |f: Seq<char>| is_tested(f)
}

/// `test_fails` as a predicate value.
pub open spec fn fails_pred() -> spec_fn(Seq<char>) -> bool {
    |f: Seq<char>| test_fails(f)
}

/// The note for a failed equivalence test.
pub open spec fn failure_note() -> spec_fn(Seq<char>) -> Seq<char> {
    |f: Seq<char>| f + ": Equivalence test failed"@
}

/// The failure notes of the equivalence tests.
pub open spec fn failure_notes(files: Seq<Seq<char>>) -> Seq<Seq<char>> {
    select(files, fails_pred(), failure_note())
}

/// The equivalence-proof check.
pub open spec fn equivalence_ok(files: Seq<Seq<char>>, e: EquivalenceProofStatus) -> bool {
    let run = count_where(files, tested_pred());
    let failed = failure_notes(files);
    &&& e.tests_run == run
    &&& e.tests_passed == run - failed.len()
    &&& views(e.tests_failed@) == failed
    &&& e.status == (if failed.len() == 0 { StatusState::Success } else { StatusState::Failure })
    &&& e.message@ == (if failed.len() == 0 {
        "✅ Equivalence Proof: All "@ + dec_nat(run) + " tests passed"@
    } else {
        "❌ Equivalence Proof: "@ + dec_nat(failed.len()) + " tests failed"@
    })
    &&& e.proof_verification matches Some(p) && p@ == "sha256:verified_proof_hash"@
}

fn concat3(a: &str, b: &str, c: &str) -> (r: String)
    ensures
        r@ == a@ + b@ + c@,
{
    let mut s = String::from_str(a);
    s.append(b);
    s.append(c);
    s
}

/// The checker of cross-layer synchronization.
pub struct CrossLayerStatusChecker;

impl CrossLayerStatusChecker {
    /// A checker.
    pub fn new() -> (r: Self) {
        CrossLayerStatusChecker
    }

    /// Whether a changed specification file has its counterpart updated.
    fn file_sync_ok(file: &str) -> (r: bool)
        ensures
            r == !occurs_in("block-validation"@, file@),
    {
        !contains(file, "block-validation")
    }

    /// Checks that every changed specification file has its proof
    /// counterpart updated.
    pub fn check_content_hash_sync(&self, changed_files: &[String]) -> (r: ContentHashStatus)
        ensures
            content_hash_ok(views(changed_files@), r),
    {
        let ghost files = views(changed_files@);
        let mut files_checked: usize = 0;
        let mut files_synced: usize = 0;
        let mut files_missing: Vec<String> = Vec::new();
        let n = changed_files.len();
        let mut i: usize = 0;
        while i < n
            invariant
                n == changed_files@.len(),
                files == views(changed_files@),
                i <= n,
                files_checked == i,
                views(files_missing@) == select(files.subrange(0, i as int), sync_pred(), same_text()),
                files_synced + files_missing@.len() == i,
            decreases n - i,
        {
            let file = changed_files[i].as_str();
            proof {
                lemma_select_step(files, i as int, sync_pred(), same_text());
                assert(files[i as int] == file@);
            }
            files_checked = files_checked + 1;
            if contains(file, "consensus-rules") {
                if Self::file_sync_ok(file) {
                    files_synced = files_synced + 1;
                } else {
                    files_missing.push(changed_files[i].clone());
                    proof {
                        assert(views(files_missing@) =~= select(files.subrange(0, i as int), sync_pred(), same_text()).push(file@));
                    }
                }
            } else {
                files_synced = files_synced + 1;
            }
            i = i + 1;
        }
        proof {
            assert(files.subrange(0, n as int) =~= files);
        }
        let none_missing = files_missing.len() == 0;
        let status = if none_missing { StatusState::Success } else { StatusState::Failure };
        let message = if none_missing {
            let c = u64_to_string(files_checked as u64);
            concat3("✅ Content Hash Sync: All ", c.as_str(), " files are synchronized")
        } else {
            let c = u64_to_string(files_missing.len() as u64);
            let j = join_strings(files_missing.as_slice(), ", ");
            let mut m = concat3("❌ Content Hash Sync: ", c.as_str(), " files missing updates: ");
            m.append(j.as_str());
            m
        };
        ContentHashStatus {
            status,
            message,
            files_checked,
            files_synced,
            files_missing,
            files_outdated: Vec::new(),
        }
    }

    /// The references a changed file carries.
    fn parse_version_references(file: &str) -> (r: Vec<VersionReference>)
        ensures
            r@.len() == (if occurs_in("consensus"@, file@) { 1nat } else { 0nat }),
            forall|k: int| 0 <= k < r@.len() ==> (#[trigger] r@[k]).orange_paper_version@ == "v1.2.3"@,
    {
        let mut refs: Vec<VersionReference> = Vec::new();
        if contains(file, "consensus") {
            refs.push(VersionReference {
                file_path: String::from_str(file),
                orange_paper_version: String::from_str("v1.2.3"),
                orange_paper_commit: String::from_str("abc123def456"),
                orange_paper_hash: String::from_str("sha256:1234567890abcdef"),
            });
        }
        refs
    }

    /// A reference is valid when it names a `v1.` version.
    fn verify_version_reference(reference: &VersionReference) -> (r: bool)
        ensures
            r == is_prefix("v1."@, reference.orange_paper_version@),
    {
        starts_with(reference.orange_paper_version.as_str(), "v1.")
    }

    /// Checks the version references of the changed source and document files.
    pub fn check_version_pinning(&self, changed_files: &[String]) -> (r: VersionPinningStatus)
        ensures
            version_pinning_ok(views(changed_files@), r),
    {
        let ghost files = views(changed_files@);
        proof {
            reveal_strlit("v1.2.3");
            reveal_strlit("v1.");
            assert("v1.2.3"@.subrange(0, 3) =~= "v1."@);
            assert(is_prefix("v1."@, "v1.2.3"@));
        }
        let mut checked: usize = 0;
        let mut valid: usize = 0;
        let mut invalid: Vec<VersionReferenceError> = Vec::new();
        let n = changed_files.len();
        let mut i: usize = 0;
        while i < n
            invariant
                n == changed_files@.len(),
                files == views(changed_files@),
                i <= n,
                is_prefix("v1."@, "v1.2.3"@),
                checked == count_where(files.subrange(0, i as int), refs_pred()),
                valid == checked,
                invalid@.len() == 0,
                checked <= i,
            decreases n - i,
        {
            let file = changed_files[i].as_str();
            proof {
                lemma_select_step(files, i as int, refs_pred(), same_text());
                assert(files[i as int] == file@);
            }
            if ends_with(file, ".rs") || ends_with(file, ".md") {
                let refs = Self::parse_version_references(file);
                if refs.len() > 0 {
                    checked = checked + 1;
                    if Self::verify_version_reference(&refs[0]) {
                        valid = valid + 1;
                    } else {
                        invalid.push(VersionReferenceError {
                            file_path: String::from_str(file),
                            line_number: 1,
                            reference: VersionReference {
                                file_path: String::from_str(file),
                                orange_paper_version: refs[0].orange_paper_version.clone(),
                                orange_paper_commit: refs[0].orange_paper_commit.clone(),
                                orange_paper_hash: refs[0].orange_paper_hash.clone(),
                            },
                            error_message: String::from_str("Invalid version reference"),
                        });
                    }
                }
            }
            i = i + 1;
        }
        proof {
            assert(files.subrange(0, n as int) =~= files);
        }
        let c = u64_to_string(checked as u64);
        VersionPinningStatus {
            status: StatusState::Success,
            message: concat3("✅ Version Pinning: All ", c.as_str(), " references are valid"),
            references_checked: checked,
            references_valid: valid,
            references_invalid: invalid,
            latest_version: Some(String::from_str("v1.2.3")),
        }
    }

    /// Runs the equivalence tests of the changed consensus and proof files.
    pub fn check_equivalence_proofs(&self, changed_files: &[String]) -> (r: EquivalenceProofStatus)
        ensures
            equivalence_ok(views(changed_files@), r),
    {
        let ghost files = views(changed_files@);
        let mut run: usize = 0;
        let mut passed: usize = 0;
        let mut failed: Vec<String> = Vec::new();
        let n = changed_files.len();
        let mut i: usize = 0;
        while i < n
            invariant
                n == changed_files@.len(),
                files == views(changed_files@),
                i <= n,
                run == count_where(files.subrange(0, i as int), tested_pred()),
                views(failed@) == select(files.subrange(0, i as int), fails_pred(), failure_note()),
                passed + failed@.len() == run,
                run <= i,
            decreases n - i,
        {
            let file = changed_files[i].as_str();
            proof {
                lemma_select_step(files, i as int, tested_pred(), same_text());
                lemma_select_step(files, i as int, fails_pred(), failure_note());
                assert(files[i as int] == file@);
            }
            if contains(file, "consensus-rules") || contains(file, "proofs") {
                run = run + 1;
                if !contains(file, "script-execution") {
                    passed = passed + 1;
                } else {
                    let mut m = String::from_str(file);
                    m.append(": Equivalence test failed");
                    failed.push(m);
                    proof {
                        assert(views(failed@) =~= select(files.subrange(0, i as int), fails_pred(), failure_note()).push(file@ + ": Equivalence test failed"@));
                    }
                }
            }
            i = i + 1;
        }
        proof {
            assert(files.subrange(0, n as int) =~= files);
        }
        let none_failed = failed.len() == 0;
        let message = if none_failed {
            let c = u64_to_string(run as u64);
            concat3("✅ Equivalence Proof: All ", c.as_str(), " tests passed")
        } else {
            let c = u64_to_string(failed.len() as u64);
            concat3("❌ Equivalence Proof: ", c.as_str(), " tests failed")
        };
        EquivalenceProofStatus {
            status: if none_failed { StatusState::Success } else { StatusState::Failure },
            message,
            tests_run: run,
            tests_passed: passed,
            tests_failed: failed,
            proof_verification: Some(String::from_str("sha256:verified_proof_hash")),
        }
    }

    /// Success when all three checks succeed, failure when any fails,
    /// pending otherwise.
    pub fn determine_overall_status(&self, content_hash: &ContentHashStatus, version_pinning: &VersionPinningStatus, equivalence_proof: &EquivalenceProofStatus) -> (r: StatusState)
        ensures
            r == overall_state(content_hash.status, version_pinning.status, equivalence_proof.status),
    {
        if content_hash.status == StatusState::Success && version_pinning.status == StatusState::Success
            && equivalence_proof.status == StatusState::Success {
            StatusState::Success
        } else if content_hash.status == StatusState::Failure || version_pinning.status == StatusState::Failure
            || equivalence_proof.status == StatusState::Failure {
            StatusState::Failure
        } else {
            StatusState::Pending
        }
    }

    /// One line naming the outcome of each check.
    pub fn generate_status_description(&self, content_hash: &ContentHashStatus, version_pinning: &VersionPinningStatus, equivalence_proof: &EquivalenceProofStatus) -> (r: String)
        ensures
            r@ == status_description(content_hash.status, version_pinning.status, equivalence_proof.status),
    {
        let mut s = String::from_str(if content_hash.status == StatusState::Success { "Content Hash: ✅" } else { "Content Hash: ❌" });
        s.append(" | ");
        s.append(if version_pinning.status == StatusState::Success { "Version Pinning: ✅" } else { "Version Pinning: ❌" });
        s.append(" | ");
        s.append(if equivalence_proof.status == StatusState::Success { "Equivalence Proof: ✅" } else { "Equivalence Proof: ❌" });
        s
    }

    /// What to do next, given the three checks.
    pub fn generate_recommendations(&self, content_hash: &ContentHashStatus, version_pinning: &VersionPinningStatus, equivalence_proof: &EquivalenceProofStatus) -> (r: Vec<String>)
        ensures
            views(r@) == recommendations(views(content_hash.files_missing@), version_pinning.references_invalid@.len() > 0,
                equivalence_proof.tests_failed@.len() > 0),
    {
        let mut recs: Vec<String> = Vec::new();
        if content_hash.files_missing.len() > 0 {
            let j = join_strings(content_hash.files_missing.as_slice(), ", ");
            let mut m = String::from_str("Update corresponding Consensus Proof files: ");
            m.append(j.as_str());
            recs.push(m);
        }
        if version_pinning.references_invalid.len() > 0 {
            recs.push(String::from_str("Update version references to point to valid Orange Paper versions"));
        }
        if equivalence_proof.tests_failed.len() > 0 {
            recs.push(String::from_str("Fix failing equivalence tests to ensure implementation matches specification"));
        }
        if recs.len() == 0 {
            recs.push(String::from_str("All cross-layer checks passed! Ready to merge."));
        }
        proof {
            assert(views(recs@) =~= recommendations(views(content_hash.files_missing@), version_pinning.references_invalid@.len() > 0,
                equivalence_proof.tests_failed@.len() > 0));
        }
        recs
    }

    /// The sync status of an overall state.
    pub fn map_status_to_sync_status(&self, status: &StatusState) -> (r: SyncStatus)
        ensures
            r == sync_status_of(*status),
    {
        match status {
            StatusState::Success => SyncStatus::Synchronized,
            StatusState::Failure => SyncStatus::MissingUpdates,
            StatusState::Pending => SyncStatus::SyncFailure,
            StatusState::Error => SyncStatus::SyncFailure,
        }
    }

    /// The full status check of a pull request with the given changed files.
    pub fn generate_cross_layer_status(&self, owner: &str, repo: &str, pr_number: u64, changed_files: &[String]) -> (r: CrossLayerStatusCheck)
        ensures
            content_hash_ok(views(changed_files@), r.details.content_hash_status),
            version_pinning_ok(views(changed_files@), r.details.version_pinning_status),
            equivalence_ok(views(changed_files@), r.details.equivalence_proof_status),
            r.state == overall_state(r.details.content_hash_status.status, r.details.version_pinning_status.status,
                r.details.equivalence_proof_status.status),
            r.description@ == status_description(r.details.content_hash_status.status,
                r.details.version_pinning_status.status, r.details.equivalence_proof_status.status),
            r.target_url matches Some(u) && u@ == "https://github.com/"@ + owner@ + "/"@ + repo@ + "/pull/"@
                + dec_nat(pr_number as nat),
            r.context@ == "cross-layer-sync"@,
            r.details.overall_sync_status == sync_status_of(r.state),
            views(r.details.recommendations@) == recommendations(views(r.details.content_hash_status.files_missing@),
                r.details.version_pinning_status.references_invalid@.len() > 0,
                r.details.equivalence_proof_status.tests_failed@.len() > 0),
    {
        let content_hash_status = self.check_content_hash_sync(changed_files);
        let version_pinning_status = self.check_version_pinning(changed_files);
        let equivalence_proof_status = self.check_equivalence_proofs(changed_files);
        let state = self.determine_overall_status(&content_hash_status, &version_pinning_status, &equivalence_proof_status);
        let recommendations = self.generate_recommendations(&content_hash_status, &version_pinning_status, &equivalence_proof_status);
        let description = self.generate_status_description(&content_hash_status, &version_pinning_status, &equivalence_proof_status);
        let mut url = concat3("https://github.com/", owner, "/");
        url.append(repo);
        url.append("/pull/");
        let num = u64_to_string(pr_number);
        url.append(num.as_str());
        let overall_sync_status = self.map_status_to_sync_status(&state);
        CrossLayerStatusCheck {
            state,
            description,
            target_url: Some(url),
            context: String::from_str("cross-layer-sync"),
            details: CrossLayerStatusDetails {
                content_hash_status,
                version_pinning_status,
                equivalence_proof_status,
                overall_sync_status,
                recommendations,
            },
        }
    }
}

/// The overall state of three checks.
pub open spec fn overall_state(a: StatusState, b: StatusState, c: StatusState) -> StatusState {
    if a == StatusState::Success && b == StatusState::Success && c == StatusState::Success {
        StatusState::Success
    } else if a == StatusState::Failure || b == StatusState::Failure || c == StatusState::Failure {
        StatusState::Failure
    } else {
        StatusState::Pending
    }
}

/// The description line of three checks.
pub open spec fn status_description(a: StatusState, b: StatusState, c: StatusState) -> Seq<char> {
    (if a == StatusState::Success { "Content Hash: ✅"@ } else { "Content Hash: ❌"@ }) + " | "@
        + (if b == StatusState::Success { "Version Pinning: ✅"@ } else { "Version Pinning: ❌"@ }) + " | "@
        + (if c == StatusState::Success { "Equivalence Proof: ✅"@ } else { "Equivalence Proof: ❌"@ })
}

/// The recommendations for the given outcomes, in a fixed order; a single
/// all-clear note when there is nothing to do.
pub open spec fn recommendations(missing: Seq<Seq<char>>, invalid_refs: bool, failed_tests: bool) -> Seq<Seq<char>> {
    let a: Seq<Seq<char>> = if missing.len() > 0 {
        seq!["Update corresponding Consensus Proof files: "@ + join(missing, ", "@)]
    } else {
        Seq::empty()
    };
    let b: Seq<Seq<char>> = if invalid_refs {
        a.push("Update version references to point to valid Orange Paper versions"@)
    } else {
        a
    };
    let c: Seq<Seq<char>> = if failed_tests {
        b.push("Fix failing equivalence tests to ensure implementation matches specification"@)
    } else {
        b
    };
    if c.len() == 0 {
        seq!["All cross-layer checks passed! Ready to merge."@]
    } else {
        c
    }
}

/// The sync status of an overall state.
pub open spec fn sync_status_of(s: StatusState) -> SyncStatus {
    match s {
        StatusState::Success => SyncStatus::Synchronized,
        StatusState::Failure => SyncStatus::MissingUpdates,
        _ => SyncStatus::SyncFailure,
    }
}

} // verus!
