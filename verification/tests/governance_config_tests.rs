use governance_app::error::GovernanceError;
use governance_app::fork::config::governance_config;
use governance_app::fork::executor::ForkExecutor;
use governance_app::fork::types::RulesetVersion;

fn entries(v: &[(&str, &str)]) -> Vec<(String, String)> {
    v.iter().map(|(a, b)| (a.to_string(), b.to_string())).collect()
}

fn config_error(r: Result<String, GovernanceError>) -> String {
    match r {
        Err(GovernanceError::ConfigError(m)) => m,
        other => panic!("expected a configuration error, got {:?}", other),
    }
}

#[test]
fn empty_directory_gives_an_empty_object() {
    assert_eq!(governance_config(None, None, None, None).unwrap(), "{}");
    assert_eq!(
        governance_config(None, None, Some(Vec::new()), None).unwrap(),
        r#"{"maintainers":{}}"#
    );
}

#[test]
fn sources_are_converted_and_keyed_in_sorted_order() {
    let config = governance_config(
        Some("tiers:\n  - 1\n  - 2\n"),
        Some("b: 2\na: x\n"),
        Some(entries(&[("zed", "name: Z\n"), ("alice", "keys: []\n")])),
        Some(entries(&[("bllvm-consensus", "layer: 2\n")])),
    )
    .unwrap();
    assert_eq!(
        config,
        r#"{"action_tiers":{"tiers":[1,2]},"economic_nodes":{"a":"x","b":2},"maintainers":{"alice":{"keys":[]},"zed":{"name":"Z"}},"repositories":{"bllvm-consensus":{"layer":2}}}"#
    );
    let value: serde_json::Value = serde_json::from_str(&config).unwrap();
    assert_eq!(value["maintainers"]["zed"]["name"], "Z");
}

#[test]
fn only_given_sources_have_keys() {
    let config = governance_config(None, Some("weight: 1\n"), None, Some(entries(&[("r", "x: true\n")]))).unwrap();
    assert_eq!(config, r#"{"economic_nodes":{"weight":1},"repositories":{"r":{"x":true}}}"#);
}

#[test]
fn stems_are_written_as_json_strings() {
    let config = governance_config(None, None, Some(entries(&[("we\"ird", "1\n")])), None).unwrap();
    assert_eq!(config, r#"{"maintainers":{"we\"ird":1}}"#);
}

#[test]
fn the_first_failing_source_names_the_error() {
    let bad = "a: [1, 2\n";
    let m = config_error(governance_config(Some(bad), Some(bad), None, None));
    assert!(m.starts_with("Failed to parse action-tiers.yml: "), "{}", m);
    let m = config_error(governance_config(Some("a: 1\n"), Some(bad), None, None));
    assert!(m.starts_with("Failed to parse economic-nodes.yml: "), "{}", m);
    let m = config_error(governance_config(
        None,
        None,
        Some(entries(&[("good", "a: 1\n"), ("bad", bad), ("worse", bad)])),
        Some(entries(&[("r", bad)])),
    ));
    assert!(m.starts_with("Failed to parse maintainers/bad.yml: "), "{}", m);
    let m = config_error(governance_config(None, None, Some(entries(&[("good", "a: 1\n")])), Some(entries(&[("r", bad)]))));
    assert!(m.starts_with("Failed to parse repos/r.yml: "), "{}", m);
    assert!(m.len() > "Failed to parse repos/r.yml: ".len());
}

#[test]
fn initialize_puts_the_configuration_in_force() {
    let config = governance_config(
        Some("tiers: []\n"),
        Some("nodes: []\n"),
        Some(entries(&[("alice", "keys: []\n")])),
        None,
    )
    .unwrap();
    let mut ex = ForkExecutor::new("exports").unwrap();
    ex.initialize(config.clone(), 1_700_000_000);
    let current = ex.get_current_ruleset().unwrap().clone();
    assert_eq!(current.id, "current");
    assert_eq!(current.name, "Governance Ruleset current");
    assert_eq!(current.version, RulesetVersion::new(1, 0, 0));
    assert_eq!(current.hash, ForkExecutor::calculate_config_hash(&config));
    assert_eq!(current.created_at, 1_700_000_000);
    assert_eq!(current.config, config);
    assert_eq!(current.description, Some("Current governance configuration".to_string()));
    assert_eq!(ex.get_available_rulesets().len(), 1);
    assert_eq!(ex.get_available_rulesets()[0].0, "current");
    assert!(ex.validate_ruleset(&current).is_ok());
}
