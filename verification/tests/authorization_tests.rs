use governance_app::authorization::server::{
    AuthorizedServer, InfrastructureInfo, OperatorInfo, ServerAction, ServerApproval, ServerKeys,
    ServerStatus,
};
use governance_app::authorization::verification::{
    get_authorized_servers, get_server_by_id, get_server_by_npub, get_server_statistics,
    get_servers_by_status, server_exists, validate_server_config, verify_server_authorization,
    verify_server_authorization_detailed,
};
use governance_app::ots::anchor;
use governance_app::ots::anchor::{GovernanceRegistry, MultisigConfig};

fn registry_server(id: &str, name: &str, npub: &str, fp: &str, status: &str) -> anchor::AuthorizedServer {
    anchor::AuthorizedServer {
        server_id: id.to_string(),
        operator: anchor::OperatorInfo {
            name: name.to_string(),
            jurisdiction: "United States".to_string(),
            contact: Some(format!("{}@example.com", name.to_lowercase())),
        },
        keys: anchor::ServerKeys { nostr_npub: npub.to_string(), ssh_fingerprint: fp.to_string() },
        infrastructure: anchor::InfrastructureInfo {
            vpn_ip: Some("10.0.0.2".to_string()),
            github_runner: true,
            ots_enabled: true,
        },
        status: status.to_string(),
        added_at: 1_735_689_600,
    }
}

fn create_test_registry() -> GovernanceRegistry {
    GovernanceRegistry {
        version: "2025-01".to_string(),
        timestamp: 1_735_689_600,
        previous_registry_hash:
            "sha256:0000000000000000000000000000000000000000000000000000000000000000".to_string(),
        maintainers: vec![],
        authorized_servers: vec![
            registry_server("governance-01", "Alice", "npub1abc123", "SHA256:xyz789", "active"),
            registry_server("governance-02", "Bob", "npub1def456", "SHA256:uvw012", "compromised"),
        ],
        audit_logs: vec![],
        multisig_config: MultisigConfig { required_signatures: 3, total_maintainers: 5 },
    }
}

fn config_server(id: &str, npub: &str, fp: &str) -> anchor::AuthorizedServer {
    anchor::AuthorizedServer {
        server_id: id.to_string(),
        operator: anchor::OperatorInfo { name: "Test".to_string(), jurisdiction: "Test".to_string(), contact: None },
        keys: anchor::ServerKeys { nostr_npub: npub.to_string(), ssh_fingerprint: fp.to_string() },
        infrastructure: anchor::InfrastructureInfo { vpn_ip: None, github_runner: false, ots_enabled: false },
        status: "active".to_string(),
        added_at: 1_735_689_600,
    }
}

#[test]
fn test_authorized_server_creation() {
    let operator = OperatorInfo {
        name: "Alice".to_string(),
        jurisdiction: "United States".to_string(),
        contact: Some("alice@example.com".to_string()),
    };
    let keys = ServerKeys { nostr_npub: "npub1abc123".to_string(), ssh_fingerprint: "SHA256:xyz789".to_string() };
    let infrastructure = InfrastructureInfo { vpn_ip: Some("10.0.0.2".to_string()), github_runner: true, ots_enabled: true };
    let server = AuthorizedServer::new("governance-01".to_string(), operator, keys, infrastructure);
    assert_eq!(server.server_id, "governance-01");
    assert!(server.is_authorized());
    assert!(!server.is_compromised());
}

#[test]
fn test_server_status() {
    assert!(ServerStatus::Active.is_operational());
    assert!(!ServerStatus::Active.is_compromised());

    assert!(!ServerStatus::Inactive.is_operational());
    assert!(!ServerStatus::Inactive.is_compromised());

    assert!(!ServerStatus::Compromised.is_operational());
    assert!(ServerStatus::Compromised.is_compromised());
}

#[test]
fn test_server_status_parsing() {
    assert_eq!("active".parse::<ServerStatus>().unwrap(), ServerStatus::Active);
    assert_eq!("compromised".parse::<ServerStatus>().unwrap(), ServerStatus::Compromised);
    assert!("invalid".parse::<ServerStatus>().is_err());
}

#[test]
fn test_server_approval() {
    let approval = ServerApproval::new("governance-01".to_string(), 1, ServerAction::Add, "sig123".to_string());
    assert_eq!(approval.server_id, "governance-01");
    assert_eq!(approval.maintainer_id, 1);
    assert_eq!(approval.action.as_str(), "add");
}

#[test]
fn test_verify_server_authorization() {
    let registry = create_test_registry();

    let result = verify_server_authorization("governance-01", "npub1abc123", &registry);
    assert!(result.is_ok());
    assert!(result.unwrap());

    let result = verify_server_authorization("governance-01", "npub1wrong", &registry);
    assert!(result.is_ok());
    assert!(!result.unwrap());

    let result = verify_server_authorization("governance-02", "npub1def456", &registry);
    assert!(result.is_err());
}

#[test]
fn test_verify_server_authorization_detailed() {
    let registry = create_test_registry();
    let result = verify_server_authorization_detailed("governance-01", "npub1abc123", &registry);
    assert!(result.is_authorized);
    assert!(result.is_active);
    assert!(!result.is_compromised);
    assert!(result.server_info.is_some());
}

#[test]
fn test_get_authorized_servers() {
    let registry = create_test_registry();
    let authorized = get_authorized_servers(&registry);
    assert_eq!(authorized.len(), 1);
    assert_eq!(authorized[0].server_id, "governance-01");
}

#[test]
fn test_get_server_statistics() {
    let registry = create_test_registry();
    let stats = get_server_statistics(&registry);
    assert_eq!(stats.total_servers, 2);
    assert_eq!(stats.active_servers, 1);
    assert_eq!(stats.compromised_servers, 1);
}

#[test]
fn test_validate_server_config() {
    let server = config_server("test", "npub1test", "SHA256:test");
    assert!(validate_server_config(&server).is_ok());
}

#[test]
fn test_verify_server_authorization_not_found() {
    let registry = create_test_registry();
    let result = verify_server_authorization("non-existent", "npub1abc123", &registry);
    assert!(result.is_ok());
    assert!(!result.unwrap());
}

#[test]
fn test_verify_server_authorization_detailed_not_found() {
    let registry = create_test_registry();
    let result = verify_server_authorization_detailed("non-existent", "npub1abc123", &registry);
    assert!(!result.is_authorized);
    assert!(!result.is_active);
    assert!(!result.is_compromised);
    assert!(result.error_message.is_some());
    assert!(result.error_message.unwrap().contains("not found"));
}

#[test]
fn test_verify_server_authorization_detailed_wrong_npub() {
    let registry = create_test_registry();
    let result = verify_server_authorization_detailed("governance-01", "npub1wrong", &registry);
    assert!(!result.is_authorized);
    assert!(result.is_active);
    assert!(!result.is_compromised);
    assert!(result.error_message.is_some());
    assert!(result.error_message.unwrap().contains("NPUB"));
}

#[test]
fn test_verify_server_authorization_detailed_compromised() {
    let registry = create_test_registry();
    let result = verify_server_authorization_detailed("governance-02", "npub1def456", &registry);
    assert!(!result.is_authorized);
    assert!(!result.is_active);
    assert!(result.is_compromised);
    assert!(result.error_message.is_some());
    assert!(result.error_message.unwrap().contains("compromised"));
}

#[test]
fn test_get_servers_by_status() {
    let registry = create_test_registry();

    let active = get_servers_by_status(&registry, ServerStatus::Active);
    assert_eq!(active.len(), 1);
    assert_eq!(active[0].server_id, "governance-01");

    let compromised = get_servers_by_status(&registry, ServerStatus::Compromised);
    assert_eq!(compromised.len(), 1);
    assert_eq!(compromised[0].server_id, "governance-02");

    let inactive = get_servers_by_status(&registry, ServerStatus::Inactive);
    assert_eq!(inactive.len(), 0);
}

#[test]
fn test_get_server_by_id() {
    let registry = create_test_registry();
    let server = get_server_by_id(&registry, "governance-01");
    assert!(server.is_some());
    assert_eq!(server.unwrap().server_id, "governance-01");
    let not_found = get_server_by_id(&registry, "non-existent");
    assert!(not_found.is_none());
}

#[test]
fn test_get_server_by_npub() {
    let registry = create_test_registry();
    let server = get_server_by_npub(&registry, "npub1abc123");
    assert!(server.is_some());
    assert_eq!(server.unwrap().server_id, "governance-01");
    let not_found = get_server_by_npub(&registry, "npub1nonexistent");
    assert!(not_found.is_none());
}

#[test]
fn test_server_exists() {
    let registry = create_test_registry();
    assert!(server_exists(&registry, "governance-01"));
    assert!(server_exists(&registry, "governance-02"));
    assert!(!server_exists(&registry, "non-existent"));
}

#[test]
fn test_server_statistics_summary() {
    let registry = create_test_registry();
    let stats = get_server_statistics(&registry);
    let summary = stats.summary();
    assert!(summary.contains("2 total"));
    assert!(summary.contains("1 active"));
    assert!(summary.contains("1 compromised"));
}

#[test]
fn test_validate_server_config_empty_fields() {
    let server = config_server("", "npub1test", "SHA256:test");
    assert!(validate_server_config(&server).is_err());
}

#[test]
fn test_validate_server_config_invalid_npub() {
    let server = config_server("test", "invalid", "SHA256:test");
    assert!(validate_server_config(&server).is_err());
}

#[test]
fn test_validate_server_config_invalid_ssh_fingerprint() {
    let server = config_server("test", "npub1test", "invalid");
    assert!(validate_server_config(&server).is_err());
}

#[test]
fn test_server_verification_result_summary() {
    let registry = create_test_registry();
    let result = verify_server_authorization_detailed("governance-01", "npub1abc123", &registry);
    let summary = result.summary();
    assert!(summary.contains("✅"));
    assert!(summary.contains("authorized"));
}

#[test]
fn test_server_verification_result_detailed_status() {
    let registry = create_test_registry();
    let result = verify_server_authorization_detailed("governance-01", "npub1abc123", &registry);
    let detailed = result.detailed_status();
    assert!(detailed.contains("Authorized"));
    assert!(detailed.contains("Active"));
    assert!(detailed.contains("Compromised"));
}

#[test]
fn compromised_error_names_the_server() {
    let registry = create_test_registry();
    let err = verify_server_authorization("governance-02", "npub1def456", &registry).unwrap_err();
    assert_eq!(err.to_string(), "Server governance-02 is marked as compromised");
}

#[test]
fn verification_info_lists_identity_and_times() {
    let mut server = AuthorizedServer::from_registry(registry_server("governance-01", "Alice", "npub1abc123", "SHA256:xyz789", "active"));
    let info = server.verification_info();
    assert_eq!(
        info,
        vec![
            ("server_id".to_string(), "governance-01".to_string()),
            ("nostr_npub".to_string(), "npub1abc123".to_string()),
            ("ssh_fingerprint".to_string(), "SHA256:xyz789".to_string()),
            ("status".to_string(), "active".to_string()),
            ("added_at".to_string(), "2025-01-01T00:00:00+00:00".to_string()),
        ]
    );
    server.last_verified = Some(1_735_693_200);
    let info = server.verification_info();
    assert_eq!(info.len(), 6);
    assert_eq!(info[5], ("last_verified".to_string(), "2025-01-01T01:00:00+00:00".to_string()));
}

#[test]
fn status_counts_cover_total_only_when_every_status_is_known() {
    let mut registry = create_test_registry();
    let stats = get_server_statistics(&registry);
    assert_eq!(
        stats.active_servers + stats.compromised_servers + stats.inactive_servers + stats.retiring_servers,
        stats.total_servers
    );
    registry.authorized_servers.push(registry_server("governance-03", "Carol", "npub1ghi", "SHA256:abc", "suspended"));
    let stats = get_server_statistics(&registry);
    assert_eq!(stats.total_servers, 3);
    assert_eq!(
        stats.active_servers + stats.compromised_servers + stats.inactive_servers + stats.retiring_servers,
        2
    );
}
