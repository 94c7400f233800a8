use pyreportal::cache::OfflineScanCache;
use pyreportal::config::AppConfig;
use pyreportal::interface::RfidTag;
use pyreportal::submit::{
    build_scan_request, send_tag_to_server, SendResponse, SubmitError, UserInfo,
};

fn tag() -> RfidTag {
    RfidTag { id: "04:AA:BB".to_string(), timestamp: 1700000000 }
}

fn config() -> AppConfig {
    AppConfig::default()
}

#[test]
fn requests_carry_the_tag_and_the_terminal() {
    let request = build_scan_request(&tag(), &config(), Some(4), Some(8), Some(15));
    assert_eq!(request.tag_id, "04:AA:BB");
    assert_eq!(request.terminal_id, "pyreportal-dev");
    assert_eq!(request.timestamp, 1700000000);
    assert_eq!(request.room_id, Some(4));
    assert_eq!(request.activity_id, Some(8));
    assert_eq!(request.staff_id, Some(15));
}

#[test]
fn no_network_caches_the_scan_and_reports_softly() {
    let mut cache = OfflineScanCache::new();
    let r = send_tag_to_server(
        &tag(), Some(1), None, &config(), Some(2), false, true, None, 5000, &mut cache,
    );
    assert!(matches!(r, Err(SubmitError::NetworkUnavailableCached)));
    let list = cache.get_cached_scans();
    assert_eq!(list.len(), 1);
    assert_eq!(list[0].tag_id, "04:AA:BB");
    assert_eq!(list[0].attempts, 0);
    assert_eq!(list[0].created_at, 5000);
    assert_eq!(list[0].staff_id, Some(2));
}

#[test]
fn missing_credential_caches_the_scan() {
    let mut cache = OfflineScanCache::new();
    let r = send_tag_to_server(
        &tag(), None, None, &config(), None, true, false, None, 5000, &mut cache,
    );
    assert!(matches!(r, Err(SubmitError::AuthRequiredCached)));
    assert_eq!(cache.len(), 1);
}

#[test]
fn delivery_returns_the_user_and_caches_nothing() {
    let mut cache = OfflineScanCache::new();
    let user = UserInfo { id: 7, name: "Jane Smith".to_string(), is_checked_in: false };
    let r = send_tag_to_server(
        &tag(),
        None,
        None,
        &config(),
        None,
        true,
        true,
        Some(SendResponse::Success(Some(user))),
        5000,
        &mut cache,
    );
    let user = r.expect("delivered").expect("known tag");
    assert_eq!(user.id, 7);
    assert_eq!(user.name, "Jane Smith");
    assert!(!user.is_checked_in);
    assert_eq!(cache.len(), 0);
}

#[test]
fn expired_credential_caches_and_other_statuses_do_not() {
    let mut cache = OfflineScanCache::new();
    let r = send_tag_to_server(
        &tag(), None, None, &config(), None, true, true,
        Some(SendResponse::Unauthorized), 5000, &mut cache,
    );
    assert!(matches!(r, Err(SubmitError::AuthExpiredCached)));
    assert_eq!(cache.len(), 1);

    let r = send_tag_to_server(
        &tag(), None, None, &config(), None, true, true,
        Some(SendResponse::Forbidden), 6000, &mut cache,
    );
    assert!(matches!(r, Err(SubmitError::NotAuthorized)));
    assert_eq!(cache.len(), 1);

    let r = send_tag_to_server(
        &tag(), None, None, &config(), None, true, true,
        Some(SendResponse::ServerFailure(500)), 7000, &mut cache,
    );
    assert!(matches!(r, Err(SubmitError::ServerError(500))));
    assert_eq!(cache.len(), 1);
}

#[test]
fn unknown_tag_is_a_successful_nobody() {
    let mut cache = OfflineScanCache::new();
    let r = send_tag_to_server(
        &tag(), None, None, &config(), None, true, true,
        Some(SendResponse::NotFound), 5000, &mut cache,
    );
    assert!(matches!(r, Ok(None)));
    assert_eq!(cache.len(), 0);
}

#[test]
fn network_failure_mid_send_still_caches() {
    let mut cache = OfflineScanCache::new();
    let r = send_tag_to_server(
        &tag(), None, None, &config(), None, true, true,
        Some(SendResponse::NetworkFailure), 5000, &mut cache,
    );
    assert!(matches!(r, Err(SubmitError::NetworkUnavailableCached)));
    assert_eq!(cache.len(), 1);
}
