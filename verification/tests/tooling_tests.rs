use governance_app::economic_nodes::types::{NodeType, QualificationThresholds};
use sha2::Digest;
use governance_app::build::release::{
    build_event_type, generate_sha256sums, is_prerelease, release_body, sorted_order, successful_builds,
    upload_plan, Artifact,
};
use governance_app::economic_nodes::veto_files::{
    check_registration_request, governance_verdict, list_vetoes, placeholder_signature, proof_submission_path,
    registration_file_path, sweep_vetoes, tally_vetoes, threshold_met, validate_strength, verify_registration,
    verify_veto, veto_file_path, veto_message, JsonField, RegistrationError, RegistrationRecord, VetoError,
    VetoRecord,
};
use governance_app::security_gate::{
    check_placeholders, check_pr_impact, check_status, generate_report, get_blocking_controls, not_ready_text,
    verify_production_readiness, AffectedControl, ControlEntry, ControlSummary, GateError, ImpactLevel, NextActions,
    PlaceholderViolation, SecurityImpact, SecurityStatus,
};

fn control(id: &str, name: &str, state: &str, priority: &str, blocks: bool) -> ControlEntry {
    ControlEntry {
        id: Some(id.to_string()),
        name: Some(name.to_string()),
        state: Some(state.to_string()),
        priority: Some(priority.to_string()),
        blocks_production: Some(blocks),
    }
}

fn status() -> SecurityStatus {
    SecurityStatus {
        production_ready: Some(false),
        blocking_controls: Some(2),
        total_controls: Some(10),
        summary: Some(ControlSummary {
            p0_critical: Some(4),
            p0_complete: Some(2),
            p0_incomplete: Some(2),
            p1_high: Some(3),
            p1_complete: Some(3),
            p1_incomplete: None,
        }),
        controls: Some(vec![
            control("A-001", "Key storage", "placeholder", "P0", true),
            control("B-002", "Audit log", "certified", "P1", false),
        ]),
        next_actions: Some(NextActions { immediate: Some(vec![Some("Fix keys".to_string()), None]) }),
        audit_blockers: Some(vec![Some("A-001".to_string())]),
    }
}

#[test]
fn security_status_text() {
    let text = check_status(&status(), true);
    assert_eq!(
        text,
        "🔒 Bitcoin Commons Security Control Status\n=====================================\n\n❌ Production Ready: NO (2 controls blocking)\n📊 Total Controls: 10\n\nP0 (Critical) Controls: 2/4 complete\n⚠️  2 P0 controls incomplete - blocks production\n\n📋 Detailed Control Status:\n---------------------------\n  🔴 🔴 Key storage - A-001 (BLOCKS)\n  ✅ 🟡 Audit log - B-002\n\n🎯 Immediate Actions Required:\n  - Fix keys\n  - Unknown\n"
    );
    let brief = check_status(&status(), false);
    assert!(!brief.contains("Detailed"));
}

#[test]
fn security_report_text() {
    let report = generate_report(&status(), "2025-01-01 00:00:00 UTC");
    assert!(report.starts_with("# Bitcoin Commons Security Control Report\nGenerated: 2025-01-01 00:00:00 UTC\n\n## Overall Status\n\n❌ **Production Ready**: NO (2 controls blocking)\n\n"));
    assert!(report.contains("| P0 (Critical) | 4 | 2 | 2 |\n| P1 (High) | 3 | 3 | 0 |\n"));
    assert!(report.contains("- 🔴 **Key storage** (A-001) - P0 ⚠️ BLOCKS PRODUCTION\n- ✅ **Audit log** (B-002) - P1\n"));
    assert!(report.ends_with("\n## Next Actions Required\n\n### Immediate\n- Fix keys\n- Unknown\n\n"));
}

#[test]
fn pr_impact_text() {
    let impact = SecurityImpact {
        impact_level: ImpactLevel::High,
        affected_controls: vec![AffectedControl { id: "A-001".to_string(), name: "Key storage".to_string(), priority: "P0".to_string() }],
        required_tier: Some("Tier 3".to_string()),
        additional_requirements: vec!["Security review".to_string()],
        blocks_production: true,
        blocks_audit: false,
    };
    let text = check_pr_impact(7, "text", &impact).unwrap().unwrap();
    assert_eq!(
        text,
        "🔍 Security Impact Analysis for PR #7\n=============================================\n\n🔴 HIGH IMPACT - P0 security controls affected\n\n📋 Affected Security Controls:\n  🔴 Key storage (A-001)\n\n🎯 Required Governance Tier: Tier 3\n\n📝 Additional Requirements:\n  - Security review\n\n⚠️  This PR blocks production deployment!\n"
    );
    assert_eq!(check_pr_impact(7, "json", &impact).unwrap(), None);
    assert_eq!(check_pr_impact(7, "xml", &impact).unwrap_err(), GateError::UnknownFormat);
}

#[test]
fn placeholders_and_readiness() {
    let (text, res) = check_placeholders(&vec![], true);
    assert!(res.is_ok());
    assert!(text.starts_with("✅"));
    let v = vec![PlaceholderViolation { file: "a.rs".to_string(), line: 3, pattern: "todo!".to_string(), content: "todo!()".to_string() }];
    let (text, res) = check_placeholders(&v, true);
    assert_eq!(res, Err(GateError::PlaceholdersFound));
    assert_eq!(text, "❌ Found 1 placeholder violations:\n\n📁 a.rs:3\n   Pattern: todo!\n   Content: todo!()\n\n");
    assert!(check_placeholders(&v, false).1.is_ok());
    assert_eq!(get_blocking_controls(&status()), vec!["A-001".to_string()]);
    assert_eq!(verify_production_readiness(&status(), "text").unwrap_err(), GateError::NotProductionReady);
    let mut ready = status();
    ready.production_ready = Some(true);
    let (res, text) = verify_production_readiness(&ready, "text").unwrap();
    assert!(res.ready);
    assert_eq!(res.blocking_controls, 2);
    assert_eq!(text.unwrap(), "✅ Production Ready: YES\n🚀 System is ready for production deployment\n");
    assert_eq!(not_ready_text(&status()), "❌ Production Ready: NO\n⚠️  2 controls blocking production deployment\n\n🔒 Blocking Controls:\n  - A-001\n");
}

fn veto(node: &str, repo: &str, pr: u64, strength: u64, active: bool) -> VetoRecord {
    VetoRecord {
        node_name: JsonField::Text(node.to_string()),
        repository: JsonField::Text(repo.to_string()),
        pr_number: JsonField::Unsigned(pr),
        reason: JsonField::Text("risk".to_string()),
        strength: JsonField::Unsigned(strength),
        active: JsonField::Flag(active),
        timestamp: JsonField::Text("2025-01-01T00:00:00Z".to_string()),
    }
}

#[test]
fn veto_files_and_messages() {
    assert_eq!(veto_file_path("org/repo", 12, "pool-a"), "veto-signals/org_repo_12_pool-a.json");
    let m = veto_message("pool-a", "org/repo", 12, "unsafe");
    assert_eq!(m, "veto:pool-a:org/repo:12:unsafe");
    assert_eq!(placeholder_signature(&m), "signature_for_veto_pool-a_org/repo_12_unsafe");
    assert_eq!(validate_strength(0), Err(VetoError::InvalidStrength));
    assert_eq!(validate_strength(101), Err(VetoError::InvalidStrength));
    assert!(validate_strength(100).is_ok());
}

#[test]
fn veto_tally_and_threshold() {
    let records = vec![
        veto("a", "org/repo", 1, 20, true),
        veto("b", "org/repo", 1, 15, true),
        veto("c", "org/repo", 1, 50, false),
        veto("d", "org/other", 1, 90, true),
        veto("e", "org/repo", 2, 90, true),
    ];
    let t = tally_vetoes(&records, "org/repo", 1);
    assert_eq!(t.veto_count, 2);
    assert_eq!(t.total_strength, 35);
    assert_eq!(t.active, vec![0, 1]);
    assert!(threshold_met(&t));
    assert_eq!(governance_verdict(&t), "🚫 VETO THRESHOLD MET - PR is blocked");
    let t = tally_vetoes(&records, "org/repo", 3);
    assert_eq!(governance_verdict(&t), "✅ No veto signals - PR can proceed");
    assert_eq!(list_vetoes(&records, Some("org/repo")), vec![0, 1, 4]);
    assert_eq!(list_vetoes(&records, None), vec![0, 1, 3, 4]);
    assert_eq!(sweep_vetoes(&records), (5, 4));
}

#[test]
fn veto_file_validation() {
    assert!(verify_veto(&veto("a", "org/repo", 1, 20, true)).is_empty());
    let mut bad = veto("a", "org/repo", 1, 0, true);
    bad.reason = JsonField::Absent;
    bad.timestamp = JsonField::Text("yesterday".to_string());
    assert_eq!(
        verify_veto(&bad),
        vec!["❌ Missing veto reason".to_string(), "❌ Invalid veto strength: 0".to_string(), "❌ Invalid timestamp format".to_string()]
    );
}

#[test]
fn registration_validation() {
    let rec = RegistrationRecord {
        name: JsonField::Text("pool".to_string()),
        node_type: JsonField::Text("mining_pool".to_string()),
        public_key: JsonField::Text("abc".to_string()),
        hash_rate_percent: JsonField::OtherNumber,
        hash_rate_in_range: Some(false),
        hash_rate_text: "150.5".to_string(),
        economic_activity_percent: JsonField::Absent,
        economic_activity_in_range: None,
        economic_activity_text: String::new(),
        node_type_text: "\"mining_pool\"".to_string(),
        registration_timestamp: JsonField::Absent,
    };
    assert_eq!(
        verify_registration(&rec),
        vec!["❌ Invalid hash rate percentage: 150.5".to_string(), "❌ Missing registration timestamp".to_string()]
    );
    assert_eq!(registration_file_path("pool"), "economic-registrations/pool.json");
    assert_eq!(check_registration_request("bank", true, true), Err(RegistrationError::InvalidNodeType));
    assert_eq!(check_registration_request("mining_pool", false, true), Err(RegistrationError::MissingHashRate));
    assert!(check_registration_request("exchange", false, true).is_ok());
    assert_eq!(
        RegistrationError::InvalidNodeType.message("bank"),
        "Invalid node type: bank. Must be one of: [\"mining_pool\", \"exchange\", \"custodian\"]"
    );
    assert_eq!(proof_submission_path("pool", "reserves").unwrap(), "economic-proofs/pool_proof_reserves.json");
    assert!(proof_submission_path("pool", "other").is_err());
}

fn artifact(name: &str, size: u64, data: Option<&[u8]>) -> Artifact {
    Artifact { name: name.to_string(), size, content_type: "application/octet-stream".to_string(), data: data.map(|d| d.to_vec()) }
}

#[test]
fn release_assembly() {
    assert!(is_prerelease("v1.0.0-rc1"));
    assert!(!is_prerelease("v1.0.0"));
    assert_eq!(build_event_type("blvm-commons"), "build-request");
    assert_eq!(build_event_type("blvm-node"), "build-chain");
    let arts = vec![
        ("zeta".to_string(), vec![artifact("z.tar", 3, Some(b"zzz"))]),
        ("alpha".to_string(), vec![artifact("a.tar", 2, Some(b"aa")), artifact("b.tar", 9, None)]),
    ];
    assert_eq!(
        release_body("v1", &arts),
        "Bitcoin Commons Release v1\n\nThis release was orchestrated by blvm-commons.\n\n## Artifacts\n\n### zeta\n\n- z.tar (3 bytes)\n\n### alpha\n\n- a.tar (2 bytes)\n- b.tar (9 bytes)\n\n"
    );
    let plan = upload_plan(&arts);
    assert_eq!(plan.len(), 2);
    assert_eq!(plan[0].asset_name, "zeta-z.tar");
    assert_eq!(plan[1].asset_name, "alpha-a.tar");
    let sums = generate_sha256sums(&arts);
    let expected = format!(
        "{}  alpha-a.tar\n{}  zeta-z.tar\n",
        hex::encode(sha2::Sha256::digest(b"aa")),
        hex::encode(sha2::Sha256::digest(b"zzz"))
    );
    assert_eq!(sums, expected);
    assert_eq!(generate_sha256sums(&[]), "\n");
    let names = vec!["b".to_string(), "a".to_string(), "b".to_string(), "ab".to_string()];
    assert_eq!(sorted_order(&names), vec![1, 3, 0, 2]);
    let runs = vec![
        ("a".to_string(), Some(1u64), "success".to_string()),
        ("b".to_string(), None, "success".to_string()),
        ("c".to_string(), Some(3u64), "failure".to_string()),
    ];
    assert_eq!(successful_builds("v1", &runs).unwrap(), vec![("a".to_string(), 1)]);
    let e = successful_builds("v1", &runs[1..]).unwrap_err();
    assert_eq!(e.to_string(), "Build orchestration error: No successful builds found for release v1");
}

#[test]
fn qualification_thresholds_by_node_type() {
    assert_eq!(
        NodeType::MiningPool.qualification_thresholds(),
        QualificationThresholds { minimum_hashpower_percent: Some(1), minimum_holdings_btc: None, minimum_volume_usd: None, minimum_transactions_monthly: None }
    );
    assert_eq!(NodeType::Exchange.qualification_thresholds().minimum_holdings_btc, Some(10_000));
    assert_eq!(NodeType::Exchange.qualification_thresholds().minimum_volume_usd, Some(100_000_000));
    assert_eq!(NodeType::Custodian.qualification_thresholds().minimum_volume_usd, None);
    assert_eq!(NodeType::PaymentProcessor.qualification_thresholds().minimum_volume_usd, Some(50_000_000));
    assert_eq!(NodeType::MajorHolder.qualification_thresholds().minimum_holdings_btc, Some(5_000));
}
