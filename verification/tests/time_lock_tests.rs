use governance_app::governance::time_lock::{override_threshold_count, TimeLockDurations, TimeLockManager, TimeLockStatus, TimeLockedChange};

const NOW: i64 = 1_700_000_000;

fn manager() -> TimeLockManager {
    TimeLockManager::new(TimeLockDurations::default_durations())
}

fn create(m: &TimeLockManager, id: &str, tier: u8, description: &str, pr: Option<i64>) -> TimeLockedChange {
    m.create_time_lock(id, tier, description, pr, NOW).unwrap()
}

#[test]
fn test_create_time_lock_tier3() {
    let change = create(&manager(), "test-change-1", 3, "Test change", Some(123));
    assert_eq!(change.change_id, "test-change-1");
    assert_eq!(change.tier, 3);
    assert_eq!(change.description, "Test change");
    assert_eq!(change.pr_number, Some(123));
    assert_eq!(change.status, "pending");
    assert_eq!(change.min_duration_hours, 168);
    assert!(change.lock_end > change.lock_start);
}

#[test]
fn test_create_time_lock_tier4() {
    let change = create(&manager(), "test-change-2", 4, "Tier 4 change", None);
    assert_eq!(change.tier, 4);
    assert_eq!(change.min_duration_hours, 336);
}

#[test]
fn test_create_time_lock_tier5() {
    let change = create(&manager(), "test-change-3", 5, "Tier 5 change", None);
    assert_eq!(change.tier, 5);
    assert_eq!(change.min_duration_hours, 720);
}

#[test]
fn test_create_time_lock_invalid_tier() {
    let change = create(&manager(), "test-change-invalid", 99, "Invalid tier", None);
    assert_eq!(change.min_duration_hours, 720);
}

#[test]
fn test_check_time_lock_pending() {
    let change = create(&manager(), "test-pending", 3, "Pending change", None);
    assert_eq!(TimeLockManager::check_time_lock(Some(&change), NOW), TimeLockStatus::Pending);
}

#[test]
fn test_check_time_lock_not_found() {
    let changes: Vec<TimeLockedChange> = Vec::new();
    let found = TimeLockManager::get_change(&changes, "non-existent").map(|i| &changes[i]);
    assert_eq!(TimeLockManager::check_time_lock(found, NOW), TimeLockStatus::Cancelled);
}

#[test]
fn test_check_time_lock_activated() {
    let mut change = create(&manager(), "test-activate", 3, "Test", None);
    TimeLockManager::activate_change(&mut change, NOW);
    assert_eq!(TimeLockManager::check_time_lock(Some(&change), NOW), TimeLockStatus::Activated);
}

#[test]
fn test_check_time_lock_cancelled() {
    let mut change = create(&manager(), "test-cancel", 3, "Test", None);
    TimeLockManager::cancel_change(&mut change, NOW);
    assert_eq!(TimeLockManager::check_time_lock(Some(&change), NOW), TimeLockStatus::Cancelled);
}

#[test]
fn test_get_time_remaining() {
    let change = create(&manager(), "test-remaining", 3, "Test", None);
    let remaining = TimeLockManager::get_time_remaining(Some(&change), NOW + 60).unwrap();
    let hours = remaining / 3600;
    assert!(hours > 160);
    assert!(hours < 170);
}

#[test]
fn test_get_time_remaining_not_found() {
    assert_eq!(TimeLockManager::get_time_remaining(None, NOW), None);
}

#[test]
fn test_record_override_signal_multiple() {
    let mut change = create(&manager(), "test-multi-override", 3, "Test", None);
    TimeLockManager::record_override_signal(&mut change, "node-1", NOW);
    TimeLockManager::record_override_signal(&mut change, "node-2", NOW + 1);
    assert_eq!(change.override_signals, vec![("node-1".to_string(), NOW), ("node-2".to_string(), NOW + 1)]);
}

#[test]
fn test_check_override_threshold_not_met() {
    let change = create(&manager(), "test-threshold", 3, "Test", None);
    // With 10 active nodes and a 75% share, 8 signals are needed; there are none.
    assert!(!manager().check_override_threshold(Some(&change), 10));
}

#[test]
fn test_check_override_threshold_met() {
    let mut change = create(&manager(), "test-threshold-met", 3, "Test", None);
    for i in 1..=3 {
        TimeLockManager::record_override_signal(&mut change, &format!("node-{}", i), NOW);
    }
    // With 4 active nodes and a 75% share, 3 signals are needed.
    assert!(manager().check_override_threshold(Some(&change), 4));
}

#[test]
fn test_check_override_threshold_not_found() {
    assert!(!manager().check_override_threshold(None, 10));
}

#[test]
fn test_list_pending() {
    let m = manager();
    let mut changes = vec![
        create(&m, "pending-1", 3, "Pending 1", None),
        create(&m, "pending-2", 4, "Pending 2", None),
        create(&m, "pending-3", 5, "Pending 3", None),
    ];
    TimeLockManager::activate_change(&mut changes[1], NOW);
    let pending = TimeLockManager::list_pending(&changes);
    assert_eq!(pending.len(), 2);
    assert!(pending.iter().any(|&i| changes[i].change_id == "pending-1"));
    assert!(pending.iter().any(|&i| changes[i].change_id == "pending-3"));
    assert!(!pending.iter().any(|&i| changes[i].change_id == "pending-2"));
}

#[test]
fn list_pending_orders_by_lock_end() {
    let m = manager();
    let changes = vec![
        create(&m, "tier5", 5, "Tier 5", None),
        create(&m, "tier3", 3, "Tier 3", None),
        create(&m, "tier4", 4, "Tier 4", None),
    ];
    assert_eq!(TimeLockManager::list_pending(&changes), vec![1, 2, 0]);
}

#[test]
fn test_list_pending_empty() {
    assert!(TimeLockManager::list_pending(&[]).is_empty());
}

#[test]
fn test_get_change() {
    let m = manager();
    let changes = vec![create(&m, "other", 3, "Other", None), create(&m, "test-get", 3, "Test description", Some(456))];
    let change = &changes[TimeLockManager::get_change(&changes, "test-get").unwrap()];
    assert_eq!(change.change_id, "test-get");
    assert_eq!(change.description, "Test description");
    assert_eq!(change.pr_number, Some(456));
}

#[test]
fn test_get_change_not_found() {
    let changes = vec![create(&manager(), "test-get", 3, "Test", None)];
    assert_eq!(TimeLockManager::get_change(&changes, "non-existent"), None);
}

#[test]
fn test_time_lock_status_equality() {
    assert_eq!(TimeLockStatus::Pending, TimeLockStatus::Pending);
    assert_ne!(TimeLockStatus::Pending, TimeLockStatus::Ready);
    assert_ne!(TimeLockStatus::Activated, TimeLockStatus::Cancelled);
}

#[test]
fn override_threshold_count_rounds_the_share_up() {
    assert_eq!(override_threshold_count(10, 75), 8);
    assert_eq!(override_threshold_count(4, 75), 3);
    assert_eq!(override_threshold_count(0, 75), 0);
    assert_eq!(override_threshold_count(1, 75), 1);
    assert_eq!(override_threshold_count(7, 100), 7);
    assert_eq!(override_threshold_count(7, 0), 0);
    let mut change = create(&manager(), "seven", 3, "Test", None);
    for i in 1..=7 {
        TimeLockManager::record_override_signal(&mut change, &format!("node-{}", i), NOW + i);
    }
    assert!(!manager().check_override_threshold(Some(&change), 10));
}
