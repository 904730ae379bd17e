use sha2::Digest;
use governance_app::audit::entry::AuditLogEntry;
use governance_app::governance_review::policy::{
    admit_case, appeal_deadline, case_number, check_emergency_removal, check_extension, check_private_warning,
    check_public_warning, check_removal, check_retaliation_confirmation, is_appeal_expired, is_case_expired,
    is_limit_expired, is_mediation_expired, mediation_deadline, resolved_at_for, review_appeal, CaseDeadlines,
    PolicyError,
};
use governance_app::nostr::bots::{bot_for, bots_to_start, nsec_source, publish_outcome, BotPurpose, NsecSource};
use governance_app::nostr::zaps::{parse_zap_event, ZapError, ZapReceipt};
use governance_app::ots::summaries::{byte_root, get_audit_log_summaries, registry_maintainer};

const DAY: i64 = 86400;

#[test]
fn case_admission_and_deadlines() {
    assert_eq!(admit_case(false, 0), Err(PolicyError::OffPlatform));
    assert_eq!(
        admit_case(true, 1000),
        Ok(CaseDeadlines { response_deadline: 1000 + 30 * DAY, resolution_deadline: 1000 + 180 * DAY })
    );
    assert_eq!(case_number(1_735_689_600, 0), "GR-2025-0101-9600");
    assert_eq!(case_number(1_735_680_003, 2), "GR-2024-1231-0005");
    assert_eq!(mediation_deadline(0), 30 * DAY);
}

#[test]
fn sanction_thresholds() {
    assert_eq!(check_private_warning(3), Err(PolicyError::InsufficientApprovals));
    assert!(check_private_warning(4).is_ok());
    assert_eq!(check_public_warning(4, 0), Err(PolicyError::InsufficientApprovals));
    assert_eq!(check_public_warning(5, 0), Ok(90 * DAY));
    assert_eq!(check_removal(5, 7), Err(PolicyError::InsufficientApprovals));
    assert_eq!(check_removal(6, 3), Err(PolicyError::InsufficientTeams));
    assert!(check_removal(6, 4).is_ok());
    assert_eq!(check_emergency_removal(&vec![1, 2, 3], 0), Err(PolicyError::InsufficientApprovals));
    let (num, reporter) = check_emergency_removal(&vec![9, 2, 3, 4], 1_735_689_600).unwrap();
    assert_eq!(num, "GR-EMERGENCY-20250101-000000");
    assert_eq!(reporter, 9);
    let (num, desc) = check_retaliation_confirmation(4, "spam", 1_735_689_600).unwrap();
    assert_eq!(num, "GR-RETALIATION-20250101-000000");
    assert_eq!(desc, "Retaliation confirmed: spam");
}

#[test]
fn appeals_and_extensions() {
    assert_eq!(appeal_deadline(0, None), 60 * DAY);
    assert_eq!(appeal_deadline(0, Some(10 * DAY)), 10 * DAY);
    assert_eq!(appeal_deadline(0, Some(100 * DAY)), 60 * DAY);
    assert_eq!(review_appeal(4, "granted", "ok"), Err(PolicyError::InsufficientTeams));
    assert_eq!(review_appeal(5, "granted", "ok"), Ok(Some("Appeal granted: ok".to_string())));
    assert_eq!(review_appeal(0, "denied", "no"), Ok(None));
    assert!(check_extension("response", Some(100), None, 0, 100 + 90 * DAY).is_ok());
    assert_eq!(check_extension("response", Some(100), None, 0, 101 + 90 * DAY), Err(PolicyError::ExtensionTooLong));
    assert!(check_extension("resolution", None, Some(50), 0, 50 + 90 * DAY).is_ok());
    assert_eq!(check_extension("response", None, Some(50), 0, 50 + 90 * DAY), Err(PolicyError::ExtensionTooLong));
}

#[test]
fn expiry_and_resolution() {
    assert!(is_case_expired("open", Some(5), 6));
    assert!(!is_case_expired("resolved", Some(5), 6));
    assert!(!is_case_expired("open", None, 6));
    assert!(is_appeal_expired("pending", Some(5), 6));
    assert!(!is_appeal_expired("granted", Some(5), 6));
    assert!(is_mediation_expired("active", Some(5), 6));
    assert!(is_limit_expired(5, false, 6));
    assert!(!is_limit_expired(5, true, 6));
    assert_eq!(resolved_at_for("dismissed", 7), Some(7));
    assert_eq!(resolved_at_for("mediation", 7), None);
}

fn tag(parts: &[&str]) -> Vec<String> {
    parts.iter().map(|s| s.to_string()).collect()
}

#[test]
fn zap_receipts() {
    let receipt = ZapReceipt {
        tags: vec![
            tag(&["p", "recipient"]),
            tag(&["amount", "21000"]),
            tag(&["bolt11", "lnbc1"]),
            tag(&["description", r#"{"pubkey":"sender","content":"thanks"}"#]),
            tag(&["e", "proposal"]),
            tag(&["p", "other"]),
        ],
        created_at: 42,
    };
    let z = parse_zap_event(&receipt).unwrap();
    assert_eq!(z.recipient_pubkey, "recipient");
    assert_eq!(z.amount_msat, 21000);
    assert_eq!(z.invoice, Some("lnbc1".to_string()));
    assert_eq!(z.sender_pubkey, Some("sender".to_string()));
    assert_eq!(z.message, Some("thanks".to_string()));
    assert_eq!(z.zapped_event_id, Some("proposal".to_string()));
    assert_eq!(z.timestamp, 42);
    let bad = ZapReceipt { tags: vec![tag(&["p"]), tag(&["p", "later"])], created_at: 0 };
    assert_eq!(parse_zap_event(&bad).unwrap_err(), ZapError::MissingRecipient);
    let odd = ZapReceipt { tags: vec![tag(&["p", "r"]), tag(&["amount", "lots"]), tag(&["description", "not json"])], created_at: 0 };
    let z = parse_zap_event(&odd).unwrap();
    assert_eq!(z.amount_msat, 0);
    assert_eq!(z.sender_pubkey, None);
}

#[test]
fn bot_choice_and_keys() {
    assert_eq!(nsec_source("env:GOV_NSEC"), NsecSource::Environment("GOV_NSEC".to_string()));
    assert_eq!(nsec_source("/keys/gov"), NsecSource::File("/keys/gov".to_string()));
    let bots = vec!["gov".to_string(), "dev".to_string()];
    assert_eq!(bot_for(&bots, BotPurpose::Research), Some("dev".to_string()));
    assert_eq!(bot_for(&bots, BotPurpose::Network), Some("dev".to_string()));
    let only_gov = vec!["gov".to_string()];
    assert_eq!(bot_for(&only_gov, BotPurpose::Development), Some("gov".to_string()));
    assert_eq!(bot_for(&vec![], BotPurpose::Governance), None);
    assert_eq!(bots_to_start(&vec![], "/legacy"), (vec!["gov".to_string()], true));
    assert_eq!(bots_to_start(&vec![], ""), (vec![], false));
    let out = publish_outcome(&vec![("wss://a".to_string(), true), ("wss://b".to_string(), false)]).unwrap();
    assert_eq!(out, (1, vec!["wss://b".to_string()]));
    assert!(publish_outcome(&vec![("wss://a".to_string(), false)]).is_err());
}

fn entry(server: &str, hash: &str) -> AuditLogEntry {
    AuditLogEntry {
        job_id: "j".to_string(),
        job_type: "t".to_string(),
        server_id: server.to_string(),
        inputs_hash: "i".to_string(),
        outputs_hash: "o".to_string(),
        previous_log_hash: "p".to_string(),
        this_log_hash: hash.to_string(),
        timestamp: 0,
        metadata: vec![],
    }
}

#[test]
fn audit_summaries_group_by_server() {
    let h1 = format!("sha256:{}", "11".repeat(32));
    let h2 = format!("sha256:{}", "22".repeat(32));
    let h3 = "33".repeat(32);
    let entries = vec![entry("s1", &h1), entry("s2", &h2), entry("s1", &h3)];
    let sums = get_audit_log_summaries(&entries);
    assert_eq!(sums.len(), 2);
    assert_eq!(sums[0].0, "s1");
    assert_eq!(sums[0].1.entries_count, 2);
    assert_eq!(sums[0].1.first_entry_hash, h1);
    assert_eq!(sums[0].1.last_entry_hash, h3);
    let root = sha2::Sha256::digest([[0x11u8; 32], [0x33u8; 32]].concat());
    assert_eq!(sums[0].1.merkle_root, format!("sha256:{}", hex::encode(root)));
    assert_eq!(sums[1].1.merkle_root, format!("sha256:{}", "22".repeat(32)));
    assert_eq!(byte_root(vec![vec![7u8; 32]]), vec![7u8; 32]);
    let m = registry_maintainer(3, "alice", "npub1", false, 9);
    assert_eq!(m.status, "inactive");
}

#[test]
fn case_numbers_before_1970_wrap_like_u32() {
    assert_eq!(case_number(-1, 0), "GR-1969-1231-4294967295");
    assert_eq!(case_number(-86_400 * 365, 3), "GR-1969-0101-4294961299");
}

#[test]
fn case_numbers_reach_the_last_representable_second() {
    let last: i64 = 8_210_266_876_799;
    assert!(chrono::DateTime::from_timestamp(last, 0).is_some());
    assert!(chrono::DateTime::from_timestamp(last + 1, 0).is_none());
    assert!(chrono::DateTime::from_timestamp(-8_334_601_228_800, 0).is_some());
    assert!(chrono::DateTime::from_timestamp(-8_334_601_228_801, 0).is_none());
    let date = chrono::DateTime::from_timestamp(last, 0).unwrap().format("%Y-%m%d").to_string();
    assert_eq!(case_number(last, 0), format!("GR-{}-6799", date));
}
