use sha2::Digest;
use governance_app::audit::entry::{create_genesis_entry, AuditLogEntry};
use governance_app::audit::log_state::{
    get_entries_by_type, get_entries_in_range, replay_entries, AuditLogError, AuditLogState,
};
use governance_app::audit::merkle::{
    build_merkle_tree, calculate_monthly_merkle_root, generate_merkle_proof, get_merkle_root,
    verify_merkle_proof, verify_merkle_root, MerkleError,
};
use governance_app::audit::verify::{
    calculate_entry_hash, verify_audit_log, verify_entry, verify_entry_in_chain, verify_hash_chain,
};

fn create_test_entries(count: usize) -> Vec<AuditLogEntry> {
    let mut entries = Vec::new();
    entries.push(create_genesis_entry("test".to_string()));
    for i in 1..count {
        let metadata = vec![("index".to_string(), i.to_string())];
        let entry = AuditLogEntry::new(
            format!("job-{}", i),
            "test_type".to_string(),
            "test".to_string(),
            format!("sha256:input{}", i),
            format!("sha256:output{}", i),
            entries[i - 1].this_log_hash.clone(),
            metadata,
        );
        entries.push(entry);
    }
    entries
}

fn create_test_entry(previous_hash: &str) -> AuditLogEntry {
    let metadata = vec![("test".to_string(), "value".to_string())];
    AuditLogEntry::new(
        "test-job".to_string(),
        "test_type".to_string(),
        "governance-01".to_string(),
        "sha256:input".to_string(),
        "sha256:output".to_string(),
        previous_hash.to_string(),
        metadata,
    )
}

#[test]
fn test_merkle_tree_construction() {
    let entries = create_test_entries(4);
    let tree = build_merkle_tree(&entries).unwrap();
    assert!(!tree.hash.is_empty());
    assert!(tree.hash.starts_with("sha256:"));
}

#[test]
fn test_merkle_root_verification() {
    let entries = create_test_entries(8);
    let root = get_merkle_root(&entries).unwrap();
    assert!(verify_merkle_root(&entries, &root).unwrap());
    assert!(!verify_merkle_root(&entries, "sha256:invalid").unwrap());
}

#[test]
fn test_merkle_proof_generation() {
    let entries = create_test_entries(8);
    let proof = generate_merkle_proof(&entries, 0).unwrap();
    assert_eq!(proof.leaf_hash, entries[0].this_log_hash);
    assert!(!proof.proof_hashes.is_empty());
    assert!(proof.verify());
}

#[test]
fn test_merkle_proof_verification() {
    let entries = create_test_entries(4);
    let proof = generate_merkle_proof(&entries, 1).unwrap();
    assert!(verify_merkle_proof(&proof, &entries[1].this_log_hash, &proof.root_hash));
}

#[test]
fn test_monthly_merkle_root() {
    let entries = create_test_entries(10);
    let monthly_root = calculate_monthly_merkle_root(&entries, "2025-01").unwrap();
    assert_eq!(monthly_root.month, "2025-01");
    assert_eq!(monthly_root.entry_count, 10);
    assert!(!monthly_root.merkle_root.is_empty());
}

#[test]
fn test_verify_entry_valid() {
    let entry = create_test_entry("sha256:previous");
    let verified = verify_entry(&entry).unwrap();
    assert!(verified, "Valid entry should verify");
}

#[test]
fn test_verify_entry_tampered() {
    let mut entry = create_test_entry("sha256:previous");
    entry.job_id = "tampered-job".to_string();
    let verified = verify_entry(&entry).unwrap();
    assert!(!verified, "Tampered entry should not verify");
}

#[test]
fn test_verify_hash_chain_valid() {
    let entry1 = create_test_entry("sha256:genesis");
    let entry2 = create_test_entry(&entry1.this_log_hash);
    let entry3 = create_test_entry(&entry2.this_log_hash);
    let entries = vec![entry1, entry2, entry3];
    let verified = verify_hash_chain(&entries).unwrap();
    assert!(verified, "Valid chain should verify");
}

#[test]
fn test_verify_hash_chain_broken_link() {
    let entry1 = create_test_entry("sha256:genesis");
    let mut entry2 = create_test_entry("sha256:wrong_previous");
    entry2.job_id = "entry2".to_string();
    let entry3 = create_test_entry(&entry2.this_log_hash);
    let entries = vec![entry1, entry2, entry3];
    let verified = verify_hash_chain(&entries).unwrap();
    assert!(!verified, "Chain with broken link should not verify");
}

#[test]
fn test_verify_hash_chain_empty() {
    let entries = vec![];
    let verified = verify_hash_chain(&entries).unwrap();
    assert!(verified, "Empty chain should verify");
}

#[test]
fn test_verify_entry_in_chain_with_previous() {
    let entry1 = create_test_entry("sha256:genesis");
    let entry2 = create_test_entry(&entry1.this_log_hash);
    let verified = verify_entry_in_chain(&entry2, Some(&entry1)).unwrap();
    assert!(verified, "Entry with valid previous should verify");
}

#[test]
fn test_verify_entry_in_chain_wrong_previous() {
    let entry1 = create_test_entry("sha256:genesis");
    let mut entry2 = create_test_entry("sha256:wrong");
    entry2.job_id = "entry2".to_string();
    let verified = verify_entry_in_chain(&entry2, Some(&entry1)).unwrap();
    assert!(!verified, "Entry with wrong previous should not verify");
}

#[test]
fn test_verify_entry_in_chain_no_previous() {
    let entry = create_test_entry("sha256:genesis");
    let verified = verify_entry_in_chain(&entry, None).unwrap();
    assert!(verified, "Entry without previous should verify if hash is valid");
}

#[test]
fn test_calculate_entry_hash_deterministic() {
    let entry = create_test_entry("sha256:previous");
    let hash1 = calculate_entry_hash(&entry).unwrap();
    let hash2 = calculate_entry_hash(&entry).unwrap();
    assert_eq!(hash1, hash2, "Hash calculation should be deterministic");
}

#[test]
fn test_calculate_entry_hash_different_entries() {
    let entry1 = create_test_entry("sha256:previous");
    let mut entry2 = create_test_entry("sha256:previous");
    entry2.job_id = "different-job".to_string();
    let hash1 = calculate_entry_hash(&entry1).unwrap();
    let hash2 = calculate_entry_hash(&entry2).unwrap();
    assert_ne!(hash1, hash2, "Different entries should have different hashes");
}

// Further cases of this library.

#[test]
fn entry_hash_has_tagged_hex_form() {
    let entry = create_test_entry("sha256:previous");
    assert!(entry.this_log_hash.starts_with("sha256:"));
    assert_eq!(entry.this_log_hash.len(), 71);
    assert!(entry.this_log_hash[7..].chars().all(|c| c.is_ascii_hexdigit() && !c.is_ascii_uppercase()));
}

#[test]
fn fixed_time_entry_hash_matches_known_digest() {
    let e = AuditLogEntry::new_at(
        "j".to_string(), "t".to_string(), "s".to_string(), "i".to_string(), "o".to_string(),
        "p".to_string(), vec![("k".to_string(), "v".to_string())], 42,
    );
    assert_eq!(e.canonical_string(), "j|t|s|i|o|p|42|k=v;");
    // sha256("j|t|s|i|o|p|42|k=v;")
    let expected = format!("sha256:{}", hex::encode(sha2::Sha256::digest("j|t|s|i|o|p|42|k=v;".as_bytes())));
    assert_eq!(e.this_log_hash, expected);
    let neg = AuditLogEntry::new_at(
        "j".to_string(), "t".to_string(), "s".to_string(), "i".to_string(), "o".to_string(),
        "p".to_string(), vec![], -7,
    );
    assert_eq!(neg.canonical_string(), "j|t|s|i|o|p|-7|");
}

#[test]
fn verify_audit_log_matches_hash_chain() {
    let entries = create_test_entries(5);
    assert!(verify_audit_log(&entries).unwrap());
    let mut broken = entries.clone();
    broken[3].previous_log_hash = "sha256:other".to_string();
    assert!(!verify_audit_log(&broken).unwrap());
}

#[test]
fn appended_chain_stays_valid() {
    let mut entries = create_test_entries(3);
    let head = entries.last().unwrap().this_log_hash.clone();
    entries.push(create_test_entry(&head));
    assert!(verify_hash_chain(&entries).unwrap());
}

#[test]
fn replay_gives_head_and_count() {
    let entries = create_test_entries(6);
    let st = replay_entries(&entries).unwrap();
    assert_eq!(st.entry_count, 6);
    assert_eq!(st.head_hash, entries[5].this_log_hash);
    assert_eq!(replay_entries(&[]).unwrap().entry_count, 0);
}

#[test]
fn replay_reports_first_broken_link() {
    let mut entries = create_test_entries(5);
    entries[2].previous_log_hash = "sha256:bogus".to_string();
    assert_eq!(replay_entries(&entries).unwrap_err(), AuditLogError::ChainBroken(2));
}

#[test]
fn replay_reports_bad_hash() {
    let mut entries = create_test_entries(5);
    entries[0].server_id = "other".to_string();
    assert_eq!(replay_entries(&entries).unwrap_err(), AuditLogError::InvalidHashAt(0));
}

#[test]
fn log_state_append_updates_head_and_count() {
    let (mut st, g) = AuditLogState::new("governance-01".to_string());
    assert_eq!(st.get_entry_count(), 1);
    assert_eq!(g.job_id, "genesis");
    assert_eq!(st.get_head_hash(), g.this_log_hash);
    let e = create_test_entry(&st.get_head_hash());
    st.append_entry(&e).unwrap();
    assert_eq!(st.get_entry_count(), 2);
    assert_eq!(st.get_head_hash(), e.this_log_hash);
    let mut bad = create_test_entry(&e.this_log_hash);
    bad.outputs_hash = "sha256:changed".to_string();
    assert_eq!(st.append_entry(&bad), Err(AuditLogError::InvalidEntryHash));
    assert_eq!(st.get_entry_count(), 2);
}

#[test]
fn test_audit_logger_creation() {
    let (st, _genesis) = AuditLogState::new("governance-01".to_string());
    assert_eq!(st.get_entry_count(), 1);
}

#[test]
fn test_append_entry() {
    let (mut st, _genesis) = AuditLogState::new("governance-01".to_string());
    let entry = AuditLogEntry::new(
        "test-job".to_string(),
        "test_type".to_string(),
        "governance-01".to_string(),
        "sha256:input".to_string(),
        "sha256:output".to_string(),
        st.get_head_hash(),
        vec![("test".to_string(), "value".to_string())],
    );
    st.append_entry(&entry).unwrap();
    assert_eq!(st.get_entry_count(), 2);
}

#[test]
fn filters_by_type_and_time() {
    let mut entries = create_test_entries(4);
    entries[1].job_type = "other".to_string();
    entries[2].timestamp = 100;
    let of_type = get_entries_by_type(entries.clone(), "test_type");
    assert_eq!(of_type.len(), 2);
    let in_range = get_entries_in_range(entries, 50, 150);
    assert_eq!(in_range.len(), 1);
    assert_eq!(in_range[0].timestamp, 100);
}

#[test]
fn merkle_root_of_single_entry_is_its_hash() {
    let entries = create_test_entries(1);
    assert_eq!(get_merkle_root(&entries).unwrap(), entries[0].this_log_hash);
}

#[test]
fn merkle_root_of_two_entries_is_combined_hash() {
    let entries = create_test_entries(2);
    let combined = format!("{}{}", entries[0].this_log_hash, entries[1].this_log_hash);
    let expected = format!("sha256:{}", hex::encode(sha2::Sha256::digest(combined.as_bytes())));
    assert_eq!(get_merkle_root(&entries).unwrap(), expected);
}

#[test]
fn merkle_errors_on_empty_and_out_of_range() {
    assert!(matches!(build_merkle_tree(&[]), Err(MerkleError::EmptyEntries)));
    let entries = create_test_entries(3);
    assert!(matches!(generate_merkle_proof(&entries, 3), Err(MerkleError::IndexOutOfRange)));
    assert!(calculate_monthly_merkle_root(&[], "2025-02").is_err());
}

#[test]
fn every_generated_proof_verifies() {
    for n in 1..12 {
        let entries = create_test_entries(n);
        let root = get_merkle_root(&entries).unwrap();
        for i in 0..n {
            let proof = generate_merkle_proof(&entries, i).unwrap();
            assert_eq!(proof.root_hash, root);
            assert!(proof.verify());
            assert!(!verify_merkle_proof(&proof, "sha256:forged", &root));
        }
    }
}

#[test]
fn proof_and_monthly_summaries() {
    let entries = create_test_entries(4);
    let proof = generate_merkle_proof(&entries, 2).unwrap();
    assert_eq!(proof.size(), 2);
    assert_eq!(proof.summary(), format!("Merkle proof: 2 hashes, root: {}", proof.root_hash));
    let m = calculate_monthly_merkle_root(&entries, "2025-03").unwrap();
    assert_eq!(m.summary(), format!("Month 2025-03: 4 entries, root: {}", m.merkle_root));
    assert_eq!(m.first_entry_hash, entries[0].this_log_hash);
    assert_eq!(m.last_entry_hash, entries[3].this_log_hash);
}

#[test]
fn merkle_proofs_have_one_hash_per_level() {
    for (n, depth) in [(1usize, 0usize), (2, 1), (3, 2), (4, 2), (5, 3), (8, 3), (9, 4)] {
        let entries = create_test_entries(n);
        for i in 0..n {
            let proof = generate_merkle_proof(&entries, i).unwrap();
            assert_eq!(proof.size(), depth);
            assert_eq!(proof.proof_hashes.len(), depth);
            assert_eq!(proof.proof_order.len(), depth);
        }
    }
}
