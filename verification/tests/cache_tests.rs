use pyreportal::cache::{cache_file_name, OfflineScanCache, PendingScan};

fn record(tag: &str, created_at: i64) -> PendingScan {
    PendingScan::new(
        tag.to_string(),
        "terminal-1".to_string(),
        created_at / 1000,
        Some(7),
        Some(9),
        Some(3),
        created_at,
    )
}

#[test]
fn enqueue_then_list_reports_one_fresh_record() {
    let mut cache = OfflineScanCache::new();
    cache.cache_scan(record("04AA", 1000));
    let list = cache.get_cached_scans();
    assert_eq!(list.len(), 1);
    assert_eq!(list[0].tag_id, "04AA");
    assert_eq!(list[0].attempts, 0);
    assert_eq!(list[0].created_at, 1000);
}

#[test]
fn list_is_oldest_first_regardless_of_insertion_order() {
    let mut cache = OfflineScanCache::new();
    cache.cache_scan(record("C", 3000));
    cache.cache_scan(record("A", 1000));
    cache.cache_scan(record("B", 2000));
    let list = cache.get_cached_scans();
    let tags: Vec<&str> = list.iter().map(|r| r.tag_id.as_str()).collect();
    assert_eq!(tags, vec!["A", "B", "C"]);
}

#[test]
fn same_identity_replaces_instead_of_duplicating() {
    let mut cache = OfflineScanCache::new();
    cache.cache_scan(record("04AA", 1000));
    let mut second = record("04AA", 1000);
    second.room_id = Some(42);
    cache.cache_scan(second);
    let list = cache.get_cached_scans();
    assert_eq!(list.len(), 1);
    assert_eq!(list[0].room_id, Some(42));
}

#[test]
fn same_tag_different_creation_time_is_a_second_record() {
    let mut cache = OfflineScanCache::new();
    cache.cache_scan(record("04AA", 1000));
    cache.cache_scan(record("04AA", 1001));
    assert_eq!(cache.len(), 2);
}

#[test]
fn remove_matches_the_exact_identity() {
    let mut cache = OfflineScanCache::new();
    cache.cache_scan(record("04AA", 1000));
    cache.cache_scan(record("04BB", 2000));
    assert!(cache.remove_cached_scan(&record("04AA", 1000)));
    assert!(!cache.remove_cached_scan(&record("04AA", 1000)));
    assert!(!cache.remove_cached_scan(&record("04BB", 2001)));
    let list = cache.get_cached_scans();
    assert_eq!(list.len(), 1);
    assert_eq!(list[0].tag_id, "04BB");
}

#[test]
fn update_rewrites_attempts() {
    let mut cache = OfflineScanCache::new();
    cache.cache_scan(record("04AA", 1000));
    let mut changed = record("04AA", 1000);
    changed.attempts = 2;
    cache.update_cached_scan(&changed);
    assert_eq!(cache.get_cached_scans()[0].attempts, 2);
}

#[test]
fn mark_attempt_counts_up_to_the_cap() {
    let mut cache = OfflineScanCache::new();
    cache.cache_scan(record("04AA", 1000));
    let tag = "04AA".to_string();
    assert!(cache.mark_attempt(&tag, 1000));
    assert!(cache.mark_attempt(&tag, 1000));
    assert!(cache.mark_attempt(&tag, 1000));
    assert_eq!(cache.get_cached_scans()[0].attempts, 3);
    assert!(!cache.mark_attempt(&tag, 1000));
    assert_eq!(cache.get_cached_scans()[0].attempts, 3);
    assert!(!cache.mark_attempt(&"04BB".to_string(), 1000));
}

#[test]
fn cache_file_names_are_deterministic_in_the_identity() {
    assert_eq!(cache_file_name("04AA", 1699999999123), "scan_04AA_1699999999123.json");
    assert_eq!(cache_file_name("X", 0), "scan_X_0.json");
    assert_eq!(cache_file_name("X", -45), "scan_X_-45.json");
}
