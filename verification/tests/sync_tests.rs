use pyreportal::cache::{OfflineScanCache, PendingScan};
use pyreportal::sync::{process_cached_scans, CacheSyncWorker, SendOutcome};

fn record(tag: &str, created_at: i64) -> PendingScan {
    PendingScan::new(
        tag.to_string(),
        "terminal-1".to_string(),
        created_at / 1000,
        None,
        None,
        None,
        created_at,
    )
}

#[test]
fn second_concurrent_trigger_is_a_no_op() {
    let mut cache = OfflineScanCache::new();
    cache.cache_scan(record("04AA", 1000));
    let mut worker = CacheSyncWorker::new();
    // The first trigger is mid-drain.
    assert!(worker.try_begin_drain());
    // A second trigger during the active pass does nothing.
    let outcomes = vec![SendOutcome::Delivered];
    let ran = process_cached_scans(&mut cache, &mut worker, true, true, &outcomes);
    assert!(!ran);
    assert_eq!(cache.len(), 1);
    // Once the first pass is over, a trigger drains.
    worker.finish_drain();
    let ran = process_cached_scans(&mut cache, &mut worker, true, true, &outcomes);
    assert!(ran);
    assert_eq!(cache.len(), 0);
}

#[test]
fn drain_skips_without_network_or_credential() {
    let mut cache = OfflineScanCache::new();
    cache.cache_scan(record("04AA", 1000));
    let mut worker = CacheSyncWorker::new();
    let outcomes = vec![SendOutcome::Delivered];
    assert!(!process_cached_scans(&mut cache, &mut worker, false, true, &outcomes));
    assert!(!process_cached_scans(&mut cache, &mut worker, true, false, &outcomes));
    assert_eq!(cache.get_cached_scans()[0].attempts, 0);
}

#[test]
fn one_failed_send_counts_one_attempt() {
    let mut cache = OfflineScanCache::new();
    cache.cache_scan(record("04AA", 1000));
    let mut worker = CacheSyncWorker::new();
    let outcomes = vec![SendOutcome::ServerError(500)];
    assert!(process_cached_scans(&mut cache, &mut worker, true, true, &outcomes));
    let list = cache.get_cached_scans();
    assert_eq!(list.len(), 1);
    assert_eq!(list[0].attempts, 1);
}

#[test]
fn capped_records_persist_and_are_skipped() {
    let mut cache = OfflineScanCache::new();
    cache.cache_scan(record("04AA", 1000));
    let mut worker = CacheSyncWorker::new();
    let fail = vec![SendOutcome::ServerError(500)];
    for _ in 0..3 {
        process_cached_scans(&mut cache, &mut worker, true, true, &fail);
    }
    assert_eq!(cache.get_cached_scans()[0].attempts, 3);
    // At the cap the record is skipped: no outcome is consumed and the
    // record stays.
    let none: Vec<SendOutcome> = Vec::new();
    assert!(process_cached_scans(&mut cache, &mut worker, true, true, &none));
    let list = cache.get_cached_scans();
    assert_eq!(list.len(), 1);
    assert_eq!(list[0].attempts, 3);
}

#[test]
fn delivery_removes_the_record_at_any_attempt_count() {
    let mut cache = OfflineScanCache::new();
    cache.cache_scan(record("04AA", 1000));
    let mut worker = CacheSyncWorker::new();
    let fail = vec![SendOutcome::ServerError(500)];
    process_cached_scans(&mut cache, &mut worker, true, true, &fail);
    process_cached_scans(&mut cache, &mut worker, true, true, &fail);
    assert_eq!(cache.get_cached_scans()[0].attempts, 2);
    let deliver = vec![SendOutcome::Delivered];
    process_cached_scans(&mut cache, &mut worker, true, true, &deliver);
    assert_eq!(cache.len(), 0);
}

#[test]
fn auth_failure_aborts_the_whole_pass() {
    let mut cache = OfflineScanCache::new();
    cache.cache_scan(record("A", 1000));
    cache.cache_scan(record("B", 2000));
    cache.cache_scan(record("C", 3000));
    let mut worker = CacheSyncWorker::new();
    let outcomes = vec![SendOutcome::AuthExpired, SendOutcome::Delivered, SendOutcome::Delivered];
    assert!(process_cached_scans(&mut cache, &mut worker, true, true, &outcomes));
    let list = cache.get_cached_scans();
    // The first record has its attempt counted; the later ones were
    // never touched.
    assert_eq!(list.len(), 3);
    assert_eq!(list[0].attempts, 1);
    assert_eq!(list[1].attempts, 0);
    assert_eq!(list[2].attempts, 0);
}

#[test]
fn network_error_aborts_and_server_error_continues() {
    let mut cache = OfflineScanCache::new();
    cache.cache_scan(record("A", 1000));
    cache.cache_scan(record("B", 2000));
    let mut worker = CacheSyncWorker::new();
    let outcomes = vec![SendOutcome::NetworkError, SendOutcome::Delivered];
    process_cached_scans(&mut cache, &mut worker, true, true, &outcomes);
    let list = cache.get_cached_scans();
    assert_eq!(list.len(), 2);
    assert_eq!(list[0].attempts, 1);
    assert_eq!(list[1].attempts, 0);

    let outcomes = vec![SendOutcome::ServerError(503), SendOutcome::Delivered];
    process_cached_scans(&mut cache, &mut worker, true, true, &outcomes);
    let list = cache.get_cached_scans();
    // The first record failed again and stayed; the second delivered.
    assert_eq!(list.len(), 1);
    assert_eq!(list[0].tag_id, "A");
    assert_eq!(list[0].attempts, 2);
}

#[test]
fn drain_works_oldest_first() {
    let mut cache = OfflineScanCache::new();
    cache.cache_scan(record("NEW", 5000));
    cache.cache_scan(record("OLD", 1000));
    let mut worker = CacheSyncWorker::new();
    // Only the first (oldest) send succeeds; the pass then aborts.
    let outcomes = vec![SendOutcome::Delivered, SendOutcome::NetworkError];
    process_cached_scans(&mut cache, &mut worker, true, true, &outcomes);
    let list = cache.get_cached_scans();
    assert_eq!(list.len(), 1);
    assert_eq!(list[0].tag_id, "NEW");
}
