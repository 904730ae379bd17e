use governance_app::build::orchestration::{ReleaseAction, ReleaseRun, ReleaseStage};
use governance_app::error::GovernanceError;

fn names(v: &[&str]) -> Vec<String> {
    v.iter().map(|s| s.to_string()).collect()
}

fn runs(v: &[(&str, u64)]) -> Vec<(String, u64)> {
    v.iter().map(|(s, id)| (s.to_string(), *id)).collect()
}

fn plan() -> (Vec<Vec<String>>, Vec<(String, Vec<String>)>) {
    let groups = vec![names(&["core"]), vec![], names(&["protocol", "node"]), names(&["commons"])];
    let deps = vec![
        ("protocol".to_string(), names(&["core"])),
        ("node".to_string(), names(&["core", "protocol"])),
        ("commons".to_string(), names(&["node", "core"])),
    ];
    (groups, deps)
}

fn expect_trigger(a: ReleaseAction, repo: &str) {
    match a {
        ReleaseAction::Trigger { repo: r } => assert_eq!(r, repo),
        other => panic!("expected trigger of {}, got {:?}", repo, other),
    }
}

fn expect_wait(a: ReleaseAction, repo: &str, id: u64) {
    match a {
        ReleaseAction::WaitFor { repo: r, run_id } => {
            assert_eq!(r, repo);
            assert_eq!(run_id, id);
        }
        other => panic!("expected wait for {}, got {:?}", repo, other),
    }
}

#[test]
fn release_waits_for_triggered_dependencies_once() {
    let (groups, deps) = plan();
    let (mut run, a) = ReleaseRun::start("v1.0.0".to_string(), groups, deps);
    expect_trigger(a, "core");
    expect_wait(run.on_triggered(101), "core", 101);
    expect_trigger(run.on_dependency_status(true, "Success"), "protocol");
    expect_trigger(run.on_triggered(102), "node");
    // commons depends on node (still running) and core (already completed).
    expect_wait(run.on_triggered(103), "node", 103);
    expect_trigger(run.on_dependency_status(true, "Success"), "commons");
    let all = runs(&[("core", 101), ("protocol", 102), ("node", 103), ("commons", 104)]);
    match run.on_triggered(104) {
        ReleaseAction::MonitorAll { runs } => assert_eq!(runs, all),
        other => panic!("expected monitoring, got {:?}", other),
    }
    assert_eq!(run.stage, ReleaseStage::Monitoring);
    let results: Vec<(String, bool, String)> =
        all.iter().map(|(r, _)| (r.clone(), true, "Success".to_string())).collect();
    match run.on_build_results(&results) {
        ReleaseAction::Publish { runs } => assert_eq!(runs, all),
        other => panic!("expected publishing, got {:?}", other),
    }
    assert_eq!(run.stage, ReleaseStage::Finished);
}

#[test]
fn release_stops_when_a_dependency_fails() {
    let (groups, deps) = plan();
    let (mut run, _) = ReleaseRun::start("v1.0.0".to_string(), groups, deps);
    run.on_triggered(101);
    match run.on_dependency_status(false, "Failure") {
        ReleaseAction::Fail(GovernanceError::BuildError(m)) => {
            assert_eq!(m, "Dependency core failed with status: Failure")
        }
        other => panic!("expected failure, got {:?}", other),
    }
    assert_eq!(run.stage, ReleaseStage::Finished);
}

#[test]
fn release_fails_on_first_failed_build() {
    let groups = vec![names(&["core", "node"])];
    let (mut run, a) = ReleaseRun::start("v2.0.0-rc1".to_string(), groups, vec![]);
    expect_trigger(a, "core");
    expect_trigger(run.on_triggered(1), "node");
    run.on_triggered(2);
    let results = vec![
        ("core".to_string(), true, "Success".to_string()),
        ("node".to_string(), false, "Failure".to_string()),
    ];
    match run.on_build_results(&results) {
        ReleaseAction::Fail(GovernanceError::BuildError(m)) => assert_eq!(m, "Build failed for node: Failure"),
        other => panic!("expected failure, got {:?}", other),
    }
}

#[test]
fn release_without_repositories_monitors_nothing() {
    let (run, a) = ReleaseRun::start("v0".to_string(), vec![vec![], vec![]], vec![]);
    match a {
        ReleaseAction::MonitorAll { runs } => assert!(runs.is_empty()),
        other => panic!("expected monitoring, got {:?}", other),
    }
    assert_eq!(run.stage, ReleaseStage::Monitoring);
}

#[test]
fn retriggering_a_repository_replaces_its_run() {
    let groups = vec![names(&["core"]), names(&["core"])];
    let (mut run, _) = ReleaseRun::start("v1".to_string(), groups, vec![]);
    expect_trigger(run.on_triggered(7), "core");
    match run.on_triggered(8) {
        ReleaseAction::MonitorAll { runs: r } => assert_eq!(r, runs(&[("core", 8)])),
        other => panic!("expected monitoring, got {:?}", other),
    }
}
