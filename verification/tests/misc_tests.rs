use pyreportal::auth::{AuthInfo, AuthStore};
use pyreportal::config::AppConfig;
use pyreportal::interface::RfidError;
use pyreportal::logs::{
    is_safe_log_name, log_file_name, log_tag_scan, select_log_files, should_delete_log, LogEntry,
};
use pyreportal::pn5180::{
    inventory_command, parse_inventory_response, register_frame, rx_byte_count,
    value_from_le_bytes,
};
use pyreportal::session::{clear_last_session, LastSessionConfig, SessionSettings};
use pyreportal::student_cache::{
    cache_stats, date_key_of, get_cache_filename, is_cache_valid, is_stale_cache_file, touch_sync,
    CacheMetadata, CachedStudent, StudentCacheData,
};
use pyreportal::text::{format_i64, format_u64};

#[test]
fn auth_store_round_trips_the_login() {
    let mut store = AuthStore::new();
    assert!(store.get_auth_token().is_none());
    assert!(store.get_user_id().is_none());
    assert!(!store.is_authenticated());
    store.set_auth_info(AuthInfo {
        access_token: "token-alpha".to_string(),
        refresh_token: "refresh-alpha".to_string(),
        user_id: 31,
        username: "jsmith".to_string(),
    });
    assert_eq!(store.get_auth_token().as_deref(), Some("token-alpha"));
    assert_eq!(store.get_user_id(), Some(31));
    assert!(store.is_authenticated());
    store.clear_auth_info();
    assert!(!store.is_authenticated());
    store.set_user_auth(
        "token-beta".to_string(),
        "refresh-beta".to_string(),
        8,
        "kim".to_string(),
    );
    assert_eq!(store.get_user_id(), Some(8));
    store.clear_user_auth();
    assert!(store.get_auth_token().is_none());
}

#[test]
fn config_defaults_and_overrides_merge_as_documented() {
    let d = AppConfig::default();
    assert_eq!(d.api_url, "http://localhost:8000/api");
    assert_eq!(d.device_id, "pyreportal-dev");
    assert_eq!(d.reset_pin, 25);

    let from_file = AppConfig {
        api_url: "https://kiosk.example/api".to_string(),
        device_id: "door-3".to_string(),
        spi_bus: 1,
        spi_slave_select: 1,
        reset_pin: 22,
    };
    let r = AppConfig::resolve(
        Some(from_file),
        Some("ignored".to_string()),
        None,
        None,
        None,
        None,
    );
    assert_eq!(r.api_url, "https://kiosk.example/api");
    assert_eq!(r.reset_pin, 22);

    let r = AppConfig::resolve(
        None,
        Some("https://env.example/api".to_string()),
        None,
        Some(1),
        None,
        Some(22),
    );
    assert_eq!(r.api_url, "https://env.example/api");
    assert_eq!(r.device_id, "pyreportal-dev");
    assert_eq!(r.spi_bus, 1);
    assert_eq!(r.spi_slave_select, 0);
    assert_eq!(r.reset_pin, 22);
}

#[test]
fn rfid_errors_describe_themselves() {
    assert_eq!(
        RfidError::Hardware("SPI gone".to_string()).describe(),
        "Hardware error: SPI gone"
    );
    assert_eq!(RfidError::Communication("noise".to_string()).describe(), "Communication error: noise");
    assert_eq!(
        RfidError::Configuration("bad bus".to_string()).describe(),
        "Configuration error: bad bus"
    );
    assert_eq!(RfidError::Other("odd".to_string()).describe(), "Error: odd");
}

#[test]
fn decimal_formatting_matches_expected_digits() {
    assert_eq!(format_u64(0), "0");
    assert_eq!(format_u64(7), "7");
    assert_eq!(format_u64(1234567890), "1234567890");
    assert_eq!(format_u64(u64::MAX), "18446744073709551615");
    assert_eq!(format_i64(-1), "-1");
    assert_eq!(format_i64(i64::MIN), "-9223372036854775808");
    assert_eq!(format_i64(i64::MAX), "9223372036854775807");
}

#[test]
fn scan_log_lines_are_csv_with_unknown_fallback() {
    let line = log_tag_scan("2024-01-15 08:30:00", "04:AA", Some("Jane Smith"), "checked_in");
    assert_eq!(line, "2024-01-15 08:30:00, 04:AA, Jane Smith, checked_in");
    let line = log_tag_scan("2024-01-15 08:30:00", "04:AA", None, "checked_out");
    assert_eq!(line, "2024-01-15 08:30:00, 04:AA, Unknown, checked_out");
}

#[test]
fn log_names_and_safety_rules() {
    assert_eq!(log_file_name("2024-01-15"), "pyre-portal-2024-01-15.log");
    assert!(is_safe_log_name("pyre-portal-2024-01-15.log"));
    assert!(!is_safe_log_name("notes.txt"));
    assert!(!is_safe_log_name("../etc/passwd.log"));
    assert!(!is_safe_log_name("logs/other.log"));
}

#[test]
fn old_logs_are_deleted_strictly_before_the_cutoff() {
    let cutoff = "pyre-portal-2024-01-08.log";
    assert!(should_delete_log("pyre-portal-2024-01-07.log", cutoff));
    assert!(should_delete_log("pyre-portal-2023-12-31.log", cutoff));
    assert!(!should_delete_log("pyre-portal-2024-01-08.log", cutoff));
    assert!(!should_delete_log("pyre-portal-2024-01-09.log", cutoff));
    assert!(!should_delete_log("pyre-portal-2024-01-01.txt", cutoff));
}

#[test]
fn log_listing_keeps_only_logs_newest_first() {
    let names = vec![
        "pyre-portal-2024-01-14.log".to_string(),
        "notes.txt".to_string(),
        "pyre-portal-2024-01-16.log".to_string(),
        "pyre-portal-2024-01-15.log".to_string(),
    ];
    let sorted = select_log_files(&names);
    assert_eq!(
        sorted,
        vec![
            "pyre-portal-2024-01-16.log".to_string(),
            "pyre-portal-2024-01-15.log".to_string(),
            "pyre-portal-2024-01-14.log".to_string(),
        ]
    );
}

#[test]
fn log_entries_carry_their_fields() {
    let entry = LogEntry {
        timestamp: "2024-01-15T08:30:00Z".to_string(),
        level: "info".to_string(),
        source: "kiosk".to_string(),
        message: "scan".to_string(),
        data: None,
        session_id: "s1".to_string(),
        user_id: Some("31".to_string()),
    };
    assert_eq!(entry.level, "info");
    assert!(entry.data.is_none());
}

fn sample_cache(date_created: &str, version: i32) -> StudentCacheData {
    let student = |status: &str| CachedStudent {
        id: 1,
        name: "Jane".to_string(),
        status: status.to_string(),
        last_seen: "2024-01-15T08:00:00Z".to_string(),
        room: None,
        activity: None,
        cached_at: "2024-01-15T08:00:00Z".to_string(),
    };
    StudentCacheData {
        students: vec![
            ("04:AA".to_string(), student("checked_in")),
            ("04:BB".to_string(), student("checked_out")),
            ("04:CC".to_string(), student("checked_in")),
        ],
        metadata: CacheMetadata {
            last_sync: "2024-01-15T08:00:00Z".to_string(),
            version,
            date_created: date_created.to_string(),
        },
    }
}

// 1705276800 is 2024-01-15 00:00:00 UTC.
const JAN_15_2024: i64 = 1705276800;

#[test]
fn date_keys_come_from_the_calendar() {
    assert_eq!(date_key_of(JAN_15_2024), "2024-01-15");
    assert_eq!(date_key_of(JAN_15_2024 + 86399), "2024-01-15");
    assert_eq!(date_key_of(JAN_15_2024 + 86400), "2024-01-16");
    assert_eq!(date_key_of(0), "1970-01-01");
}

#[test]
fn cache_file_is_named_after_the_day() {
    assert_eq!(get_cache_filename(JAN_15_2024), "student_cache_2024-01-15.json");
    assert_eq!(get_cache_filename(0), "student_cache_1970-01-01.json");
}

#[test]
fn cache_validity_needs_today_and_version_one() {
    assert!(is_cache_valid(&sample_cache("2024-01-15", 1), JAN_15_2024));
    assert!(!is_cache_valid(&sample_cache("2024-01-14", 1), JAN_15_2024));
    assert!(!is_cache_valid(&sample_cache("2024-01-15", 2), JAN_15_2024));
}

#[test]
fn stale_cache_files_are_past_day_caches_only() {
    assert!(is_stale_cache_file("student_cache_2024-01-14.json", JAN_15_2024));
    assert!(!is_stale_cache_file("student_cache_2024-01-15.json", JAN_15_2024));
    assert!(!is_stale_cache_file("session-settings.json", JAN_15_2024));
    assert!(!is_stale_cache_file("student_cache_2024-01-14.txt", JAN_15_2024));
}

#[test]
fn cache_stats_count_by_status() {
    let data = sample_cache("2024-01-15", 1);
    assert_eq!(cache_stats(&data), (3, 2, 1));
}

#[test]
fn touch_sync_only_stamps_the_sync_time() {
    let mut data = sample_cache("2024-01-15", 1);
    touch_sync(&mut data, "2024-01-15T09:00:00Z".to_string());
    assert_eq!(data.metadata.last_sync, "2024-01-15T09:00:00Z");
    assert_eq!(data.metadata.date_created, "2024-01-15");
    assert_eq!(data.metadata.version, 1);
    assert_eq!(data.students.len(), 3);
}

#[test]
fn clearing_the_last_session_keeps_auto_save() {
    let mut settings = SessionSettings {
        use_last_session: true,
        auto_save_enabled: true,
        last_session: Some(LastSessionConfig {
            activity_id: 5,
            room_id: 2,
            supervisor_ids: vec![31],
            saved_at: "2024-01-15T08:00:00Z".to_string(),
            activity_name: "Morning".to_string(),
            room_name: "Hall".to_string(),
            supervisor_names: vec!["Jane Smith".to_string()],
        }),
    };
    clear_last_session(&mut settings);
    assert!(settings.last_session.is_none());
    assert!(!settings.use_last_session);
    assert!(settings.auto_save_enabled);
}

#[test]
fn register_frames_are_little_endian() {
    let frame = register_frame(0x03, 0xA1B2C3D4);
    assert_eq!(frame, vec![0x03, 0xD4, 0xC3, 0xB2, 0xA1]);
    assert_eq!(value_from_le_bytes(0xD4, 0xC3, 0xB2, 0xA1), 0xA1B2C3D4);
    assert_eq!(rx_byte_count(0xFFFF_FE0A), 0x0A);
    assert_eq!(inventory_command(), vec![0x26, 0x01, 0x00]);
}

#[test]
fn inventory_answers_parse_reversed_uids() {
    let mut data = vec![0x00, 0x11];
    data.extend_from_slice(&[0x01, 0x02, 0x03, 0x04, 0x05, 0x06, 0x07, 0xE0]);
    assert_eq!(
        parse_inventory_response(&data),
        Ok("E0:07:06:05:04:03:02:01".to_string())
    );
    let short = vec![0x00, 0x11, 0x01];
    assert_eq!(
        parse_inventory_response(&short),
        Err("Invalid response length: 3".to_string())
    );
}
