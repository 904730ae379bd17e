use sha2::Digest;
use governance_app::config::{AppConfig, ConfigError, parse_bounded};
use governance_app::database::{postgres_performance, sqlite_health};
use governance_app::enforcement::emergency::{ActiveEmergency, EmergencyTier};
use governance_app::enforcement::merge_block::MergeBlocker;
use governance_app::enforcement::status_checks::StatusCheckGenerator;
use governance_app::fork::executor::ForkExecutor;
use governance_app::fork::types::RulesetVersion;
use governance_app::fork::versioning::{RulesetVersioning, VersionChangeType, VersionComparison};
use governance_app::github::cross_layer_status::{CrossLayerStatusChecker, StatusState, SyncStatus};
use governance_app::github::file_operations::{
    compare_file_versions, directory_from_listing, file_from_listing, ContentItem, FileComparison,
    GitHubFile, GitHubRepo,
};
use governance_app::github::webhooks::{WebhookEventType, WebhookProcessor};
use governance_app::governance::time_lock::{TimeLockDurations, TimeLockManager, TimeLockStatus};
use governance_app::ots::anchor::{GovernanceRegistry, Maintainer, MultisigConfig};
use governance_app::ots::client::{OtsClient, VerificationResult};
use governance_app::ots::verify::{check_registry_structure, proof_block_height, verify_registry_chain, ChainError, RegistryLink, RegistryStructureError};

#[test]
fn test_verification_result() {
    let pending = VerificationResult::Pending;
    assert!(!pending.is_confirmed());
    assert_eq!(pending.block_height(), None);

    let confirmed = VerificationResult::Confirmed(12345);
    assert!(confirmed.is_confirmed());
    assert_eq!(confirmed.block_height(), Some(12345));
}

#[test]
fn test_file_comparison_creation() {
    let comparison = FileComparison {
        file_path: "test.txt".to_string(),
        source_sha: "abc123".to_string(),
        target_sha: Some("def456".to_string()),
        is_same: false,
        size_diff: Some(100),
        content_diff: Some("Content differs".to_string()),
    };

    assert_eq!(comparison.file_path, "test.txt");
    assert_eq!(comparison.source_sha, "abc123");
    assert_eq!(comparison.target_sha, Some("def456".to_string()));
    assert!(!comparison.is_same);
    assert_eq!(comparison.size_diff, Some(100));
    assert_eq!(comparison.content_diff, Some("Content differs".to_string()));
}

#[test]
fn test_github_repo_creation() {
    let repo = GitHubRepo {
        owner: "test-owner".to_string(),
        name: "test-repo".to_string(),
        default_branch: "main".to_string(),
        last_commit_sha: "abc123def456".to_string(),
    };

    assert_eq!(repo.owner, "test-owner");
    assert_eq!(repo.name, "test-repo");
    assert_eq!(repo.default_branch, "main");
    assert_eq!(repo.last_commit_sha, "abc123def456");
}

#[test]
fn stamp_is_marker_and_hex_digest_and_verifies() {
    let client = OtsClient::new("https://alice.btc.calendar.opentimestamps.org".to_string());
    let proof = client.stamp(b"registry");
    let expected = format!("MOCK_OTS_PROOF:{}", hex::encode(sha2::Sha256::digest(b"registry")));
    assert_eq!(proof, expected.into_bytes());
    assert_eq!(client.verify(b"registry", &proof), Ok(VerificationResult::Confirmed(12345)));
    assert!(client.verify(b"registry", b"invalid proof").is_err());
    assert_eq!(client.upgrade(&proof), proof);
    assert_eq!(proof_block_height(&proof), Some(12345));
    assert_eq!(proof_block_height(b"MOCK"), None);
}

fn registry(version: &str, previous: &str) -> GovernanceRegistry {
    GovernanceRegistry {
        version: version.to_string(),
        timestamp: 1_735_689_600,
        previous_registry_hash: previous.to_string(),
        maintainers: vec![Maintainer {
            id: 1,
            name: "Test Maintainer".to_string(),
            npub: "npub1test".to_string(),
            added_at: 1_735_689_600,
            status: "active".to_string(),
        }],
        authorized_servers: vec![],
        audit_logs: vec![],
        multisig_config: MultisigConfig { required_signatures: 3, total_maintainers: 5 },
    }
}

const ZERO: &str = "sha256:0000000000000000000000000000000000000000000000000000000000000000";

#[test]
fn registry_structure_checks_in_order() {
    assert!(check_registry_structure(&registry("2025-01", ZERO)).is_ok());
    assert_eq!(check_registry_structure(&registry("", ZERO)), Err(RegistryStructureError::EmptyVersion));
    let mut r = registry("2025-01", ZERO);
    r.maintainers.clear();
    assert_eq!(check_registry_structure(&r), Err(RegistryStructureError::NoMaintainers));
    let mut r = registry("2025-01", ZERO);
    r.multisig_config.required_signatures = 0;
    assert_eq!(check_registry_structure(&r), Err(RegistryStructureError::InvalidMultisig));
}

#[test]
fn registry_chain_links_by_file_hash() {
    let first_bytes = b"first registry file".to_vec();
    let first_hash = format!("sha256:{}", hex::encode(sha2::Sha256::digest(&first_bytes)));
    let links = vec![
        RegistryLink { registry: registry("2025-01", ZERO), file_bytes: first_bytes.clone(), ots_proof: None },
        RegistryLink {
            registry: registry("2025-02", &first_hash),
            file_bytes: b"second".to_vec(),
            ots_proof: Some(b"MOCK_OTS_PROOF:abc".to_vec()),
        },
    ];
    assert_eq!(verify_registry_chain(&links), Ok(vec!["2025-01".to_string(), "2025-02".to_string()]));

    let broken = vec![
        RegistryLink { registry: registry("2025-01", ZERO), file_bytes: first_bytes, ots_proof: None },
        RegistryLink { registry: registry("2025-02", ZERO), file_bytes: b"second".to_vec(), ots_proof: None },
    ];
    assert_eq!(verify_registry_chain(&broken), Err(ChainError::HashChainBroken(1)));

    let bad_proof = vec![RegistryLink {
        registry: registry("2025-01", ZERO),
        file_bytes: vec![],
        ots_proof: Some(b"invalid proof".to_vec()),
    }];
    assert_eq!(verify_registry_chain(&bad_proof), Err(ChainError::InvalidProof(0)));
}

#[test]
fn webhook_actions_are_classified() {
    let ev = WebhookProcessor::process_webhook(r#"{"action":"opened","number":1}"#).unwrap();
    assert_eq!(ev.event_type, WebhookEventType::PullRequest);
    assert_eq!(ev.action, "opened");
    let ev = WebhookProcessor::process_webhook(r#"{"action":"submitted"}"#).unwrap();
    assert_eq!(ev.event_type, WebhookEventType::Review);
    let ev = WebhookProcessor::process_webhook(r#"{"action":"created"}"#).unwrap();
    assert_eq!(ev.event_type, WebhookEventType::Comment);
    let ev = WebhookProcessor::process_webhook(r#"{"ref":"main"}"#).unwrap();
    assert_eq!(ev.event_type, WebhookEventType::Unknown);
    assert_eq!(ev.action, "unknown");
}

fn item(kind: &str, path: &str, size: u64, content: Option<&str>) -> ContentItem {
    ContentItem {
        kind: kind.to_string(),
        path: path.to_string(),
        sha: format!("sha-{}", path),
        size,
        content: content.map(|c| c.to_string()),
        download_url: None,
    }
}

#[test]
fn listing_becomes_file_or_error() {
    let f = file_from_listing(vec![item("file", "a.txt", 5, Some("aGVsbG8=\n"))], "a.txt").unwrap();
    assert_eq!(f.content, b"hello".to_vec());
    assert_eq!(f.sha, "sha-a.txt");
    let e = file_from_listing(vec![], "a.txt").unwrap_err();
    assert_eq!(e.to_string(), "GitHub API error: Expected single file, got 0 items");
    let e = file_from_listing(vec![item("dir", "d", 0, None)], "d").unwrap_err();
    assert_eq!(e.to_string(), "GitHub API error: Path 'd' is a directory, not a file");
    let e = file_from_listing(vec![item("file", "a", 0, None)], "a").unwrap_err();
    assert_eq!(e.to_string(), "GitHub API error: File content is empty");
    let e = file_from_listing(vec![item("file", "a", 0, Some("@@@"))], "a").unwrap_err();
    assert!(e.to_string().starts_with("GitHub API error: Failed to decode base64 content: "));
}

#[test]
fn directory_sums_file_sizes() {
    let d = directory_from_listing("src", vec![item("file", "a", 10, None), item("dir", "b", 99, None), item("file", "c", 5, None)]);
    assert_eq!(d.total_size, 15);
    assert_eq!(d.files.len(), 2);
    assert_eq!(d.files[1].path, "c");
}

fn gh_file(sha: &str, size: u64, content: &[u8]) -> GitHubFile {
    GitHubFile { path: "p".to_string(), content: content.to_vec(), sha: sha.to_string(), size, download_url: None }
}

#[test]
fn file_versions_compare() {
    let c = compare_file_versions("p", gh_file("a", 10, b"xx"), Some(gh_file("b", 4, b"yyy")));
    assert!(!c.is_same);
    assert_eq!(c.size_diff, Some(6));
    assert_eq!(c.content_diff, Some("Content differs: 2 bytes vs 3 bytes".to_string()));
    let c = compare_file_versions("p", gh_file("a", 10, b"xx"), Some(gh_file("a", 10, b"xx")));
    assert!(c.is_same);
    assert_eq!(c.content_diff, None);
    let c = compare_file_versions("p", gh_file("a", 10, b"xx"), None);
    assert_eq!(c.content_diff, Some("Target file does not exist".to_string()));
    assert_eq!(c.size_diff, None);
}

#[test]
fn test_cross_layer_status_generation() {
    let checker = CrossLayerStatusChecker::new();
    let files = vec![
        "consensus-rules/block-validation.md".to_string(),
        "proofs/block-validation.rs".to_string(),
    ];
    let status = checker.generate_cross_layer_status("test_owner", "test_repo", 123, &files);
    assert_eq!(status.context, "cross-layer-sync");
    assert_eq!(status.target_url, Some("https://github.com/test_owner/test_repo/pull/123".to_string()));
    assert_eq!(status.state, StatusState::Failure);
    assert_eq!(status.details.content_hash_status.files_missing, vec!["consensus-rules/block-validation.md".to_string()]);
    assert_eq!(status.details.overall_sync_status, SyncStatus::MissingUpdates);
    assert_eq!(status.description, "Content Hash: ❌ | Version Pinning: ✅ | Equivalence Proof: ✅");
    assert_eq!(status.details.equivalence_proof_status.tests_run, 2);
    assert_eq!(status.details.version_pinning_status.references_checked, 1);
}

#[test]
fn versions_compare_and_increment() {
    let v = RulesetVersioning::new();
    let base = v.version_ruleset(None, VersionChangeType::Patch).unwrap();
    assert_eq!(base, RulesetVersion::new(1, 0, 0));
    let minor = v.version_ruleset(Some(&base), VersionChangeType::Minor).unwrap();
    assert_eq!(minor, RulesetVersion::new(1, 1, 0));
    let major = v.version_ruleset(Some(&minor), VersionChangeType::Major).unwrap();
    assert_eq!(major, RulesetVersion::new(2, 0, 0));
    assert_eq!(v.compare_versions(&base, &minor), VersionComparison::Older);
    assert_eq!(v.compare_versions(&major, &minor), VersionComparison::Newer);
    assert_eq!(v.compare_versions(&minor, &minor), VersionComparison::Equal);
    assert!(v.is_compatible(&base, &minor));
    assert!(!v.is_compatible(&minor, &major));
    assert_eq!(major.to_string(), "2.0.0");
}

#[test]
fn ruleset_hash_covers_all_parts() {
    let v = RulesetVersioning::new();
    let ver = RulesetVersion::new(1, 2, 3);
    let h = v.generate_ruleset_hash_at("id", &ver, "{}", "2025-01-01T00:00:00+00:00");
    let expected = hex::encode(sha2::Sha256::digest(b"id1.2.3{}2025-01-01T00:00:00+00:00"));
    assert_eq!(h, expected);
}

fn config_json() -> String {
    r#"{"action_tiers":{},"economic_nodes":{},"maintainers":{},"repositories":{}}"#.to_string()
}

#[test]
fn test_ruleset_validation() {
    let mut ex = ForkExecutor::new("exports").unwrap();
    assert!(!ex.is_fork_in_progress());
    let current = ForkExecutor::create_ruleset_from_config(config_json(), "current", 0);
    assert_eq!(current.hash, hex::encode(sha2::Sha256::digest(config_json().as_bytes())));
    ex.perform_fork_transition(&current);
    assert!(ex.validate_ruleset(&current).is_ok());
    let bad = ForkExecutor::create_ruleset_from_config(r#"{"test":1}"#.to_string(), "test", 0);
    let err = ex.validate_ruleset(&bad).unwrap_err();
    assert_eq!(err.to_string(), "Configuration error: Ruleset missing action_tiers configuration");
}

#[test]
fn fork_targets_are_looked_up_and_checked() {
    let mut ex = ForkExecutor::new("exports").unwrap();
    let current = ForkExecutor::create_ruleset_from_config(config_json(), "current", 0);
    ex.perform_fork_transition(&current);
    let other = ForkExecutor::ruleset_from_export("other", RulesetVersion::new(2, 0, 0), config_json(), 5, "org/repo");
    assert_eq!(other.description, Some("Exported ruleset from org/repo".to_string()));
    ex.add_available_ruleset(other);
    let err = ex.check_fork_target("other").unwrap_err();
    assert_eq!(err.to_string(), "Configuration error: Incompatible ruleset version: 1.0.0 -> 2.0.0");
    let err = ex.check_fork_target("missing").unwrap_err();
    assert_eq!(err.to_string(), "Configuration error: Target ruleset not found: missing");
    let same = ForkExecutor::ruleset_from_export("same", RulesetVersion::new(1, 4, 0), config_json(), 5, "org/repo");
    ex.add_available_ruleset(same);
    let target = ex.check_fork_target("same").unwrap();
    ex.perform_fork_transition(&target);
    assert_eq!(ex.get_current_ruleset().unwrap().id, "same");
    let status = ex.get_fork_status(42);
    assert_eq!(status.current_ruleset, Some("same".to_string()));
    assert_eq!(status.available_rulesets.len(), 3);
    assert!(!status.fork_in_progress);
}

#[test]
fn merge_decisions() {
    assert_eq!(MergeBlocker::should_block_merge(true, true, false, 3, false).unwrap(), false);
    assert_eq!(MergeBlocker::should_block_merge(true, true, true, 3, false).unwrap(), true);
    assert_eq!(MergeBlocker::should_block_merge(true, true, true, 2, false).unwrap(), false);
    assert_eq!(MergeBlocker::should_block_merge(false, true, true, 3, true).unwrap(), false);
    assert_eq!(MergeBlocker::should_block_merge(true, false, false, 1, true).unwrap(), true);
    assert_eq!(
        MergeBlocker::get_block_reason(false, false, true, 3, false),
        "Governance requirements not met: Review period requirement not met, Signature threshold requirement not met, Economic node veto active (30%+ hashpower or 40%+ economic activity)"
    );
    assert_eq!(MergeBlocker::get_block_reason(true, true, false, 3, false), "All governance requirements met");
    assert_eq!(MergeBlocker::get_block_reason(true, false, false, 3, true), "Emergency mode: Signature threshold not met");
    let b = MergeBlocker::new(true);
    let (state, desc) = b.merge_status(true, "x");
    assert_eq!(state, "failure");
    assert_eq!(desc, "[DRY-RUN] ❌ Merge blocked: x");
}

#[test]
fn merge_status_message_lines() {
    let m = MergeBlocker::generate_merge_status_message(false, false, true, 3, "Consensus-Adjacent", false, 30, 12, 2, 4);
    assert_eq!(
        m,
        "🏛️ Governance Status for Tier 3: Consensus-Adjacent\n\n❌ Review Period: 12 days elapsed, 30 days required\n❌ Signatures: 2/4 required\n⚠️ Economic Node Veto: Active\n\n❌ Merge Blocked: Governance requirements not met"
    );
}

#[test]
fn status_texts() {
    let signers = vec!["alice".to_string(), "bob".to_string()];
    let pending = vec!["carol".to_string()];
    assert_eq!(
        StatusCheckGenerator::generate_signature_status(3, 3, 5, &signers, &pending),
        "✅ Governance: Signatures Complete"
    );
    assert_eq!(
        StatusCheckGenerator::generate_signature_status_with_dry_run(2, 3, 5, &signers, &pending, true),
        "[DRY-RUN] ❌ Governance: Signatures Missing\nRequired: 3-of-5 | Current: 2-of-5\nSigned by: alice, bob\nPending: carol"
    );
    assert_eq!(
        StatusCheckGenerator::generate_combined_status(true, false, "R", "S"),
        "❌ Governance: Requirements Not Met\n\nR\n\nS"
    );
    assert_eq!(
        StatusCheckGenerator::generate_tier_status(4, "Emergency", true, true, true, "R", "S"),
        "🚨 Tier 4: Emergency\n⚠️ Economic Node Veto Active\n❌ Governance: Requirements Not Met\n\nR\n\nS\n\n⚠️ Economic Node Veto: 30%+ hashpower or 40%+ economic activity has vetoed this change"
    );
    assert_eq!(
        StatusCheckGenerator::generate_detailed_status(1, "Routine", true, true, false, "R", "S", "E", Some("https://docs")),
        "🔧 Tier 1: Routine\n✅ Governance: All Requirements Met - Ready to Merge\n\n📚 Documentation: https://docs"
    );
}

fn emergency(expires_at: i64, count: u32) -> ActiveEmergency {
    ActiveEmergency {
        tier: EmergencyTier {
            name: "Critical Emergency".to_string(),
            emoji: "🚨".to_string(),
            signatures_required: 4,
            signatures_total: 7,
            review_period_days: 0,
            allows_extensions: true,
            max_extensions: 1,
            extension_duration_days: 7,
            extension_signatures_required: 5,
            extension_signatures_total: 7,
            requires_security_audit: true,
        },
        reason: "Exploit".to_string(),
        activated_by: "alice".to_string(),
        activated_at: 1_735_689_600,
        expires_at,
        extension_count: count,
    }
}

#[test]
fn emergency_status_texts() {
    let now = 1_735_689_600;
    let e = emergency(now + 10 * 3600, 0);
    assert_eq!(
        StatusCheckGenerator::generate_emergency_status(&e, now),
        "🚨 Emergency Tier Active: Critical Emergency\n📊 Requirements: 4-of-7 signatures, 0 day review period\n⏰ Expires in 10 hours\n📋 Extensions: 0 of 1 used (can extend by 7 days)\n\nReason: Exploit\nActivated by: alice on 2025-01-01 00:00 UTC"
    );
    assert_eq!(
        StatusCheckGenerator::generate_emergency_expiration_warning(&e, now),
        "⚠️ 🚨 Emergency Tier Expiring Soon\n⏰ Less than 24 hours remaining\nExpires at: 2025-01-01 10:00 UTC\n\nExtension available: requires 5-of-7 signatures"
    );
    let later = emergency(now + 10 * 86400, 1);
    assert_eq!(StatusCheckGenerator::generate_emergency_expiration_warning(&later, now), "");
    let combined = StatusCheckGenerator::generate_combined_status_with_emergency(true, true, "R", "S", Some(&later), now);
    assert!(combined.contains("⚠️ Maximum extensions reached"));
    assert!(combined.ends_with("\n\n---\n\n✅ Governance: All Requirements Met - Ready to Merge"));
}

#[test]
fn time_locks() {
    let m = TimeLockManager::new(TimeLockDurations::default_durations());
    let c = m.create_time_lock("test-change-1", 3, "Test change", Some(123), 1000).unwrap();
    assert_eq!(c.min_duration_hours, 168);
    assert_eq!(c.lock_end, 1000 + 168 * 3600);
    assert_eq!(c.status, "pending");
    let c4 = m.create_time_lock("c4", 4, "Tier 4 change", None, 0).unwrap();
    assert_eq!(c4.min_duration_hours, 336);
    let c99 = m.create_time_lock("x", 99, "Invalid tier", None, 0).unwrap();
    assert_eq!(c99.min_duration_hours, 720);
    assert_eq!(TimeLockManager::check_time_lock(Some(&c), 1000), TimeLockStatus::Pending);
    assert_eq!(TimeLockManager::check_time_lock(Some(&c), c.lock_end), TimeLockStatus::Ready);
    assert_eq!(TimeLockManager::check_time_lock(None, 0), TimeLockStatus::Cancelled);
    assert_eq!(TimeLockManager::get_time_remaining(Some(&c), 1000), Some(168 * 3600));
    assert_eq!(TimeLockManager::get_time_remaining(Some(&c), c.lock_end + 5), Some(0));
    let mut c = c;
    TimeLockManager::record_override_signal(&mut c, "node-1", 5);
    TimeLockManager::record_override_signal(&mut c, "node-2", 6);
    TimeLockManager::record_override_signal(&mut c, "node-1", 7);
    assert_eq!(c.override_signals, vec![("node-1".to_string(), 7), ("node-2".to_string(), 6)]);
    TimeLockManager::activate_change(&mut c, 8);
    assert_eq!(TimeLockManager::check_time_lock(Some(&c), 0), TimeLockStatus::Activated);
    TimeLockManager::cancel_change(&mut c, 9);
    assert_eq!(c.status, "cancelled");
}

#[test]
fn test_time_lock_config_default() {
    let d = TimeLockDurations::default_durations();
    assert_eq!(d.tier3_min_hours, 168);
    assert_eq!(d.tier4_min_hours, 336);
    assert_eq!(d.tier5_min_hours, 720);
}

#[test]
fn config_defaults_and_parsing() {
    let c = AppConfig::from_values(None, None, None, None, None, None, None).unwrap();
    assert_eq!(c.database_url, "sqlite://governance.db");
    assert_eq!(c.github_app_id, 123456);
    assert_eq!(c.server_port, 3000);
    assert_eq!(c.governance_repo, "BTCDecoded/governance");
    let e = AppConfig::from_values(None, Some("12a".to_string()), None, None, None, None, None);
    assert_eq!(e.unwrap_err(), ConfigError::InvalidGithubAppId);
    let e = AppConfig::from_values(None, None, None, None, None, None, Some("70000".to_string()));
    assert_eq!(e.unwrap_err(), ConfigError::InvalidServerPort);
    assert_eq!(parse_bounded("+42", u64::MAX), Some(42));
    assert_eq!(parse_bounded("18446744073709551615", u64::MAX), Some(u64::MAX));
    assert_eq!(parse_bounded("18446744073709551616", u64::MAX), None);
    assert_eq!(parse_bounded("", u64::MAX), None);
    assert_eq!(parse_bounded("+", u64::MAX), None);
}

#[test]
fn database_reports() {
    let h = sqlite_health(10, 4, "ok", "wal".to_string(), 100, 4096);
    assert_eq!(h.active_connections, 6);
    assert!(h.integrity_ok);
    assert!(h.wal_mode_active);
    assert_eq!(h.database_size_bytes, 409600);
    let h = sqlite_health(1, 1, "corrupt", "delete".to_string(), 1, 1);
    assert!(!h.integrity_ok);
    assert!(!h.wal_mode_active);
    assert_eq!(postgres_performance().cache_size, 0);
}

#[test]
fn test_governance_registry_creation() {
    let registry = GovernanceRegistry {
        version: "2025-01".to_string(),
        timestamp: chrono::Utc::now().timestamp(),
        previous_registry_hash: "sha256:0000000000000000000000000000000000000000000000000000000000000000".to_string(),
        maintainers: vec![],
        authorized_servers: vec![],
        audit_logs: vec![],
        multisig_config: MultisigConfig { required_signatures: 3, total_maintainers: 5 },
    };
    assert_eq!(registry.version, "2025-01");
    assert_eq!(registry.multisig_config.required_signatures, 3);
}

fn critical_tier(requires_security_audit: bool) -> EmergencyTier {
    EmergencyTier {
        name: "Critical Emergency".to_string(),
        emoji: "🚨".to_string(),
        signatures_required: 4,
        signatures_total: 7,
        review_period_days: 0,
        allows_extensions: true,
        max_extensions: 1,
        extension_duration_days: 7,
        extension_signatures_required: 5,
        extension_signatures_total: 7,
        requires_security_audit,
    }
}

#[test]
fn post_emergency_requirements_track_deadlines() {
    let now = 1_735_689_600; // 2025-01-01 00:00 UTC
    let text = StatusCheckGenerator::generate_post_emergency_requirements(
        &critical_tier(true),
        false,
        1_736_000_000,
        false,
        Some(now + 20 * 86_400),
        now,
    );
    assert_eq!(
        text,
        "📋 Post-Emergency Requirements for Critical Emergency\n\n⚠️ Post-mortem due soon\nDeadline: 2025-01-04\n\n⏳ Security audit pending\nDeadline: 2025-01-21"
    );
    let late = StatusCheckGenerator::generate_post_emergency_requirements(
        &critical_tier(false),
        false,
        now - 1,
        false,
        Some(now + 20 * 86_400),
        now,
    );
    assert_eq!(late, "📋 Post-Emergency Requirements for Critical Emergency\n\n❌ Post-mortem OVERDUE\nDeadline: 2024-12-31\n");
    let done = StatusCheckGenerator::generate_post_emergency_requirements(&critical_tier(true), true, now, true, Some(now), now);
    assert_eq!(
        done,
        "📋 Post-Emergency Requirements for Critical Emergency\n\n✅ Post-mortem published\nDeadline: 2025-01-01\n\n✅ Security audit completed\nDeadline: 2025-01-01"
    );
}
