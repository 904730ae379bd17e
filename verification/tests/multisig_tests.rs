use sha2::Digest;
use governance_app::crypto::multisig::MultisigManager;
use governance_app::crypto::signatures::SignatureManager;
use governance_app::error::GovernanceError;

fn create_test_keypair(seed: u8) -> (String, [u8; 32]) {
    let secret = [seed; 32];
    let secp = secp256k1::Secp256k1::new();
    let sk = secp256k1::SecretKey::from_slice(&secret).unwrap();
    let pk = secp256k1::PublicKey::from_secret_key(&secp, &sk);
    (pk.to_string(), secret)
}

fn keys(entries: &[(&str, &String)]) -> Vec<(String, String)> {
    entries.iter().map(|(n, k)| (n.to_string(), (*k).clone())).collect()
}

#[test]
fn test_multisig_threshold_met() {
    let manager = MultisigManager::new();
    let sig_manager = SignatureManager::new();
    let (pub1, sec1) = create_test_keypair(1);
    let (pub2, sec2) = create_test_keypair(2);
    let (pub3, _sec3) = create_test_keypair(3);
    let public_keys = keys(&[("alice", &pub1), ("bob", &pub2), ("charlie", &pub3)]);
    let message = "test message";
    let sig1 = sig_manager.create_signature(message, &sec1).unwrap();
    let sig2 = sig_manager.create_signature(message, &sec2).unwrap();
    let signatures = vec![("alice".to_string(), sig1), ("bob".to_string(), sig2)];
    let result = manager.verify_multisig(message, &signatures, &public_keys, (2, 3));
    assert!(result.is_ok() && result.unwrap(), "Should meet 2-of-3 threshold");
}

#[test]
fn test_multisig_threshold_not_met() {
    let manager = MultisigManager::new();
    let sig_manager = SignatureManager::new();
    let (pub1, sec1) = create_test_keypair(1);
    let (pub2, _) = create_test_keypair(2);
    let (pub3, _) = create_test_keypair(3);
    let public_keys = keys(&[("alice", &pub1), ("bob", &pub2), ("charlie", &pub3)]);
    let message = "test message";
    let sig1 = sig_manager.create_signature(message, &sec1).unwrap();
    let signatures = vec![("alice".to_string(), sig1)];
    let result = manager.verify_multisig(message, &signatures, &public_keys, (2, 3));
    assert!(result.is_err(), "Should fail 2-of-3 threshold with only 1 signature");
    match result {
        Err(GovernanceError::ThresholdError(m)) => {
            assert_eq!(m, "Multisig threshold not met. Required: 2/3 signatures, Valid: 1/1")
        }
        _ => panic!("expected a threshold error"),
    }
}

#[test]
fn test_multisig_invalid_signature() {
    let manager = MultisigManager::new();
    let sig_manager = SignatureManager::new();
    let (pub1, sec1) = create_test_keypair(1);
    let (pub2, sec2) = create_test_keypair(2);
    let public_keys = keys(&[("alice", &pub1), ("bob", &pub2)]);
    let message = "test message";
    let sig1 = sig_manager.create_signature(message, &sec1).unwrap();
    let wrong_sig = sig_manager.create_signature("wrong message", &sec2).unwrap();
    let signatures = vec![("alice".to_string(), sig1), ("bob".to_string(), wrong_sig)];
    let result = manager.verify_multisig(message, &signatures, &public_keys, (2, 2));
    assert!(result.is_err(), "Should fail with invalid signature");
}

#[test]
fn test_multisig_missing_public_key() {
    let manager = MultisigManager::new();
    let sig_manager = SignatureManager::new();
    let (pub1, sec1) = create_test_keypair(1);
    let public_keys = keys(&[("alice", &pub1)]);
    let message = "test message";
    let sig1 = sig_manager.create_signature(message, &sec1).unwrap();
    let signatures = vec![("alice".to_string(), sig1), ("bob".to_string(), "invalid".to_string())];
    let result = manager.verify_multisig(message, &signatures, &public_keys, (1, 2));
    assert!(result.is_ok() && result.unwrap(), "Should pass with alice's signature");
}

#[test]
fn test_get_verified_signers() {
    let manager = MultisigManager::new();
    let sig_manager = SignatureManager::new();
    let (pub1, sec1) = create_test_keypair(1);
    let (pub2, sec2) = create_test_keypair(2);
    let (pub3, sec3) = create_test_keypair(3);
    let public_keys = keys(&[("alice", &pub1), ("bob", &pub2), ("charlie", &pub3)]);
    let message = "test message";
    let sig1 = sig_manager.create_signature(message, &sec1).unwrap();
    let sig2 = sig_manager.create_signature(message, &sec2).unwrap();
    let wrong_sig = sig_manager.create_signature("wrong", &sec3).unwrap();
    let signatures = vec![
        ("alice".to_string(), sig1),
        ("bob".to_string(), sig2),
        ("charlie".to_string(), wrong_sig),
    ];
    let verified = manager.get_verified_signers(message, &signatures, &public_keys).unwrap();
    assert_eq!(verified.len(), 2, "Should have 2 verified signers");
    assert!(verified.contains(&"alice".to_string()));
    assert!(verified.contains(&"bob".to_string()));
    assert!(!verified.contains(&"charlie".to_string()));
}

#[test]
fn test_multisig_exact_threshold() {
    let manager = MultisigManager::new();
    let sig_manager = SignatureManager::new();
    let (pub1, sec1) = create_test_keypair(1);
    let (pub2, sec2) = create_test_keypair(2);
    let public_keys = keys(&[("alice", &pub1), ("bob", &pub2)]);
    let message = "test message";
    let sig1 = sig_manager.create_signature(message, &sec1).unwrap();
    let sig2 = sig_manager.create_signature(message, &sec2).unwrap();
    let signatures = vec![("alice".to_string(), sig1), ("bob".to_string(), sig2)];
    let result = manager.verify_multisig(message, &signatures, &public_keys, (2, 2));
    assert!(result.is_ok() && result.unwrap(), "Should meet exact 2-of-2 threshold");
}

#[test]
fn test_multisig_more_than_threshold() {
    let manager = MultisigManager::new();
    let sig_manager = SignatureManager::new();
    let (pub1, sec1) = create_test_keypair(1);
    let (pub2, sec2) = create_test_keypair(2);
    let (pub3, sec3) = create_test_keypair(3);
    let public_keys = keys(&[("alice", &pub1), ("bob", &pub2), ("charlie", &pub3)]);
    let message = "test message";
    let sig1 = sig_manager.create_signature(message, &sec1).unwrap();
    let sig2 = sig_manager.create_signature(message, &sec2).unwrap();
    let sig3 = sig_manager.create_signature(message, &sec3).unwrap();
    let signatures = vec![("alice".to_string(), sig1), ("bob".to_string(), sig2), ("charlie".to_string(), sig3)];
    let result = manager.verify_multisig(message, &signatures, &public_keys, (2, 3));
    assert!(result.is_ok() && result.unwrap(), "Should pass with more than threshold");
}

#[test]
fn test_multisig_invalid_public_key_format() {
    let manager = MultisigManager::new();
    let public_keys = vec![("alice".to_string(), "invalid_key".to_string())];
    let signatures = vec![("alice".to_string(), "invalid_sig".to_string())];
    let result = manager.verify_multisig("message", &signatures, &public_keys, (1, 1));
    assert!(result.is_err(), "Should fail with invalid public key format");
    match result {
        Err(GovernanceError::CryptoError(m)) => assert!(m.starts_with("Invalid public key for alice: ")),
        _ => panic!("expected a crypto error"),
    }
}

#[test]
fn test_multisig_invalid_signature_format() {
    let manager = MultisigManager::new();
    let (pub1, _) = create_test_keypair(1);
    let public_keys = keys(&[("alice", &pub1)]);
    let signatures = vec![("alice".to_string(), "invalid_signature".to_string())];
    let result = manager.verify_multisig("message", &signatures, &public_keys, (1, 1));
    assert!(result.is_err(), "Should fail with invalid signature format");
    match result {
        Err(GovernanceError::CryptoError(m)) => assert!(m.starts_with("Invalid signature from alice: ")),
        _ => panic!("expected a crypto error"),
    }
}

#[test]
fn test_multisig_empty_signatures() {
    let manager = MultisigManager::new();
    let (pub1, _) = create_test_keypair(1);
    let public_keys = keys(&[("alice", &pub1)]);
    let signatures: Vec<(String, String)> = vec![];
    let result = manager.verify_multisig("message", &signatures, &public_keys, (1, 1));
    assert!(result.is_err(), "Should fail with no signatures");
}

#[test]
fn signature_round_trip_matches_crate() {
    let sig_manager = SignatureManager::new();
    let (_, sec) = create_test_keypair(7);
    let made = sig_manager.create_signature("hello", &sec).unwrap();
    let digest = sha2::Sha256::digest(b"hello");
    let secp = secp256k1::Secp256k1::new();
    let msg = secp256k1::Message::from_digest_slice(&digest).unwrap();
    let sk = secp256k1::SecretKey::from_slice(&sec).unwrap();
    assert_eq!(made, secp.sign_ecdsa(&msg, &sk).to_string());
    assert!(sig_manager.create_signature("hello", &[0u8; 32]).is_err());
}
