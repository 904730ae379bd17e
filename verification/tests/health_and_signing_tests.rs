use std::str::FromStr;
use chrono::Datelike;
use governance_app::audit::entry::AuditLogEntry;
use governance_app::audit::health::{check_audit_log_health, HealthError, TimestampGap};
use governance_app::crypto::signatures::{pr_sign_message, SignatureManager};
use governance_app::economic_nodes::veto_files::{registration_well_formed, JsonField, RegistrationRecord};
use governance_app::economic_nodes::veto_signal::{veto_signal_decision, veto_signal_message};
use governance_app::error::GovernanceError;
use governance_app::nostr::publisher::{next_ots_anchor, status_event_tags, AnchorDate, STATUS_EVENT_KIND};

fn log_entry(job_id: &str, job_type: &str, timestamp: i64) -> AuditLogEntry {
    AuditLogEntry {
        job_id: job_id.to_string(),
        job_type: job_type.to_string(),
        server_id: "governance-01".to_string(),
        inputs_hash: "sha256:in".to_string(),
        outputs_hash: "sha256:out".to_string(),
        previous_log_hash: "sha256:prev".to_string(),
        this_log_hash: "sha256:this".to_string(),
        timestamp,
        metadata: Vec::new(),
    }
}

#[test]
fn health_reports_first_duplicate_job_id() {
    let entries = vec![log_entry("a", "t", 1), log_entry("b", "t", 2), log_entry("a", "t", 3), log_entry("b", "t", 4)];
    assert_eq!(check_audit_log_health(&entries).unwrap_err(), HealthError::DuplicateJobId("a".to_string()));
}

#[test]
fn health_duplicate_wins_over_order() {
    let entries = vec![log_entry("a", "t", 10), log_entry("b", "t", 5), log_entry("a", "t", 20)];
    assert_eq!(check_audit_log_health(&entries).unwrap_err(), HealthError::DuplicateJobId("a".to_string()));
}

#[test]
fn health_reports_first_timestamp_out_of_order() {
    let entries = vec![log_entry("a", "t", 100), log_entry("b", "t", 50), log_entry("c", "t", 10)];
    assert_eq!(check_audit_log_health(&entries).unwrap_err(), HealthError::TimestampOrder("b".to_string()));
}

#[test]
fn health_lists_long_gaps_and_job_types() {
    let entries = vec![
        log_entry("a", "merge", 0),
        log_entry("b", "review", 3600),
        log_entry("c", "merge", 3600 + 7200),
        log_entry("d", "merge", 3600 + 7200 + 7199),
        log_entry("e", "review", 3600 + 7200 + 7199 + 36000),
    ];
    let health = check_audit_log_health(&entries).unwrap();
    assert_eq!(health.gaps, vec![TimestampGap { index: 2, hours: 2 }, TimestampGap { index: 4, hours: 10 }]);
    let mut types = health.job_types.clone();
    types.sort();
    assert_eq!(types, vec![("merge".to_string(), 3), ("review".to_string(), 2)]);
}

#[test]
fn health_of_empty_log() {
    let health = check_audit_log_health(&[]).unwrap();
    assert!(health.gaps.is_empty());
    assert!(health.job_types.is_empty());
}

#[test]
fn sign_message_defaults_to_pr_and_repo() {
    assert_eq!(pr_sign_message("BTCDecoded/blvm", 42, None), "PR #42 in BTCDecoded/blvm");
    assert_eq!(pr_sign_message("BTCDecoded/blvm", 42, Some("approve".to_string())), "approve");
}

#[test]
fn governance_signature_round_trip() {
    let secret = [7u8; 32];
    let secp = secp256k1::Secp256k1::new();
    let sk = secp256k1::SecretKey::from_slice(&secret).unwrap();
    let pk = secp256k1::PublicKey::from_secret_key(&secp, &sk).to_string();
    let manager = SignatureManager::new();
    let sig = manager.create_signature("PR #1 in org/repo", &secret).unwrap();
    assert_eq!(manager.verify_governance_signature("PR #1 in org/repo", &sig, &pk), Ok(true));
    assert_eq!(manager.verify_governance_signature("PR #2 in org/repo", &sig, &pk), Ok(false));
    assert!(manager.verify_governance_signature("PR #1 in org/repo", "zz", &pk).is_err());
    assert!(manager.verify_governance_signature("PR #1 in org/repo", &sig, "not a key").is_err());
}

#[test]
fn registration_sweep_needs_name_type_and_key() {
    let mut rec = RegistrationRecord {
        name: JsonField::Text("pool".to_string()),
        node_type: JsonField::Text("mining_pool".to_string()),
        public_key: JsonField::Text("02ab".to_string()),
        hash_rate_percent: JsonField::Absent,
        hash_rate_in_range: None,
        hash_rate_text: String::new(),
        economic_activity_percent: JsonField::Absent,
        economic_activity_in_range: None,
        economic_activity_text: String::new(),
        node_type_text: "\"mining_pool\"".to_string(),
        registration_timestamp: JsonField::Absent,
    };
    assert!(registration_well_formed(&rec));
    rec.public_key = JsonField::Unsigned(3);
    assert!(!registration_well_formed(&rec));
}

#[test]
fn test_next_ots_anchor_calculation() {
    let now = chrono::Utc::now();
    let next_anchor = next_ots_anchor(now.year(), now.month(), now.day());
    assert_eq!(next_anchor.day, 1);
    assert_eq!(next_anchor.hour, 0);
    assert_eq!(next_anchor.minute, 0);
    assert_eq!(next_anchor.second, 0);
}

#[test]
fn next_anchor_is_first_of_next_month() {
    assert_eq!(next_ots_anchor(2025, 3, 15), AnchorDate { year: 2025, month: 4, day: 1, hour: 0, minute: 0, second: 0 });
    assert_eq!(next_ots_anchor(2024, 12, 31), AnchorDate { year: 2025, month: 1, day: 1, hour: 0, minute: 0, second: 0 });
    assert_eq!(next_ots_anchor(2024, 1, 29), AnchorDate { year: 2024, month: 2, day: 1, hour: 0, minute: 0, second: 0 });
    assert_eq!(next_ots_anchor(2025, 1, 31), AnchorDate { year: 2025, month: 2, day: 1, hour: 0, minute: 0, second: 0 });
}

#[test]
fn status_event_carries_its_tags() {
    let tags = status_event_tags("governance-01", "2025-01");
    let expected: Vec<(String, Vec<String>)> = vec![
        ("d".to_string(), vec!["governance-status".to_string()]),
        ("server".to_string(), vec!["governance-01".to_string()]),
        ("authorized_by".to_string(), vec!["registry-2025-01".to_string()]),
        ("btcdecoded".to_string(), vec!["governance-infrastructure".to_string()]),
        ("t".to_string(), vec!["bitcoin".to_string(), "governance".to_string()]),
    ];
    assert_eq!(tags, expected);
    assert_eq!(STATUS_EVENT_KIND, 30078);
}

#[test]
fn create_signature_refuses_invalid_secret_keys() {
    let manager = SignatureManager::new();
    assert!(manager.create_signature("m", &[0u8; 32]).is_err());
    assert!(manager.create_signature("m", &[7u8; 31]).is_err());
    let order: [u8; 32] = [
        0xff, 0xff, 0xff, 0xff, 0xff, 0xff, 0xff, 0xff, 0xff, 0xff, 0xff, 0xff, 0xff, 0xff, 0xff, 0xfe,
        0xba, 0xae, 0xdc, 0xe6, 0xaf, 0x48, 0xa0, 0x3b, 0xbf, 0xd2, 0x5e, 0x8c, 0xd0, 0x36, 0x41, 0x41,
    ];
    assert!(manager.create_signature("m", &order).is_err());
    let mut below = order;
    below[31] = 0x40;
    assert!(manager.create_signature("m", &below).is_ok());
    assert!(manager.create_signature("m", &[7u8; 32]).is_ok());
}

#[test]
fn parsing_server_status_and_action_texts() {
    assert_eq!(governance_app::authorization::server::ServerStatus::from_str("retiring"), Ok(governance_app::authorization::server::ServerStatus::Retiring));
    assert_eq!(governance_app::authorization::server::ServerStatus::from_str("x"), Err("Invalid server status: x".to_string()));
    assert!(matches!(governance_app::authorization::server::ServerAction::from_str("remove"), Ok(governance_app::authorization::server::ServerAction::Remove)));
    assert_eq!(governance_app::authorization::server::ServerAction::from_str("y").err(), Some("Invalid server action: y".to_string()));
}

#[test]
fn defect_messages() {
    assert_eq!(governance_app::authorization::verification::ServerConfigError::InvalidNpubFormat.message(), "Invalid NPUB format");
    assert_eq!(governance_app::ots::verify::RegistryStructureError::NoMaintainers.message(), "Registry has no maintainers");
}

#[test]
fn signing_with_a_hex_key_and_deriving_its_public_key() {
    let manager = SignatureManager::new();
    let secret = [7u8; 32];
    let hex_key = hex::encode(secret);
    let from_hex = manager.create_signature_from_hex("PR #1 in org/repo", &hex_key).unwrap();
    assert_eq!(from_hex, manager.create_signature("PR #1 in org/repo", &secret).unwrap());
    assert_eq!(manager.create_signature_from_hex("m", &hex_key.to_uppercase()).unwrap(), manager.create_signature("m", &secret).unwrap());
    assert!(manager.create_signature_from_hex("m", "zz").is_err());
    assert!(manager.create_signature_from_hex("m", &hex::encode([0u8; 32])).is_err());
    assert!(manager.create_signature_from_hex("m", &hex::encode([7u8; 31])).is_err());
    let pk = manager.public_key_from_secret(&secret);
    let secp = secp256k1::Secp256k1::new();
    let expected = secp256k1::PublicKey::from_secret_key(&secp, &secp256k1::SecretKey::from_slice(&secret).unwrap());
    assert_eq!(pk, expected.serialize().to_vec());
    assert_eq!(manager.verify_governance_signature("PR #1 in org/repo", &from_hex, &hex::encode(&pk)), Ok(true));
}

#[test]
fn veto_signals_are_admitted_in_order_of_checks() {
    let manager = SignatureManager::new();
    let secret = [9u8; 32];
    let pk = hex::encode(manager.public_key_from_secret(&secret));
    let message = veto_signal_message(42, "Pool A");
    assert_eq!(message, "PR #42 veto signal from Pool A");
    let sig = manager.create_signature(&message, &secret).unwrap();
    assert!(veto_signal_decision(42, true, "Pool A", &pk, &sig, false).is_ok());
    let msg = |r: Result<(), GovernanceError>| match r {
        Err(GovernanceError::CryptoError(m)) => m,
        other => panic!("expected a crypto error, got {:?}", other),
    };
    assert_eq!(msg(veto_signal_decision(42, false, "Pool A", &pk, &sig, false)), "Node is not active");
    assert_eq!(msg(veto_signal_decision(43, true, "Pool A", &pk, &sig, false)), "Invalid signature");
    assert_eq!(
        msg(veto_signal_decision(42, true, "Pool A", &pk, &sig, true)),
        "Node already submitted signal for this PR"
    );
    assert!(veto_signal_decision(42, true, "Pool A", &pk, "zz", false).is_err());
    assert_eq!(veto_signal_message(-1, "X"), "PR #-1 veto signal from X");
}
