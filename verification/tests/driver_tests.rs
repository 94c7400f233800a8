use pyreportal::driver::{
    mock_cycle, mock_dev_tag, mock_scan_decision, resolve_poll_window, scan_result_of,
    scanner_status, select_card_with_retry, PollAttempt, RfidReader, ScanFailure, ScriptedAnswer,
    ScriptedReader, SelectOutcome,
};
use pyreportal::text::format_uid;

#[test]
fn format_uid_writes_colon_separated_uppercase_hex() {
    assert_eq!(format_uid(&[0x04, 0xD6, 0x94, 0x82]), "04:D6:94:82");
    assert_eq!(format_uid(&[0x00]), "00");
    assert_eq!(format_uid(&[]), "");
    assert_eq!(format_uid(&[0xFF, 0x0A]), "FF:0A");
}

#[test]
fn transient_frame_error_then_success_yields_the_uid() {
    let outcomes = vec![
        SelectOutcome::Transient,
        SelectOutcome::Uid(vec![0x04, 0xAA]),
        SelectOutcome::Failed,
        SelectOutcome::Failed,
        SelectOutcome::Failed,
        SelectOutcome::Failed,
    ];
    assert_eq!(select_card_with_retry(&outcomes), Ok("04:AA".to_string()));
}

#[test]
fn first_select_success_needs_no_retry() {
    let outcomes = vec![
        SelectOutcome::Uid(vec![0x01, 0x02, 0x03]),
        SelectOutcome::Failed,
        SelectOutcome::Failed,
        SelectOutcome::Failed,
        SelectOutcome::Failed,
        SelectOutcome::Failed,
    ];
    assert_eq!(select_card_with_retry(&outcomes), Ok("01:02:03".to_string()));
}

#[test]
fn non_transient_select_failure_is_not_retried() {
    let outcomes = vec![
        SelectOutcome::Failed,
        SelectOutcome::Uid(vec![0x04]),
        SelectOutcome::Uid(vec![0x04]),
        SelectOutcome::Uid(vec![0x04]),
        SelectOutcome::Uid(vec![0x04]),
        SelectOutcome::Uid(vec![0x04]),
    ];
    assert_eq!(select_card_with_retry(&outcomes), Err(ScanFailure::SelectFailed));
}

#[test]
fn exhausted_retries_fail_the_scan() {
    let outcomes = vec![
        SelectOutcome::Transient,
        SelectOutcome::Transient,
        SelectOutcome::Failed,
        SelectOutcome::Transient,
        SelectOutcome::Failed,
        SelectOutcome::Transient,
    ];
    assert_eq!(select_card_with_retry(&outcomes), Err(ScanFailure::RetriesExhausted));
}

#[test]
fn late_retry_success_still_wins() {
    let outcomes = vec![
        SelectOutcome::Transient,
        SelectOutcome::Failed,
        SelectOutcome::Failed,
        SelectOutcome::Failed,
        SelectOutcome::Failed,
        SelectOutcome::Uid(vec![0xBE, 0xEF]),
    ];
    assert_eq!(select_card_with_retry(&outcomes), Ok("BE:EF".to_string()));
}

#[test]
fn poll_window_reports_the_first_selection() {
    let attempts = vec![
        PollAttempt::NoCard,
        PollAttempt::SelectFailed,
        PollAttempt::Selected(vec![0x04, 0x11]),
        PollAttempt::Selected(vec![0x99]),
    ];
    assert_eq!(resolve_poll_window(&attempts), Some("04:11".to_string()));
    let empty_window = vec![PollAttempt::NoCard, PollAttempt::SelectFailed];
    assert_eq!(resolve_poll_window(&empty_window), None);
}

#[test]
fn scan_results_are_always_structured() {
    let ok = scan_result_of(Ok("04:AA".to_string()));
    assert!(ok.success);
    assert_eq!(ok.tag_id.as_deref(), Some("04:AA"));
    assert!(ok.error.is_none());
    let err = scan_result_of(Err("Scan timeout - no card detected".to_string()));
    assert!(!err.success);
    assert!(err.tag_id.is_none());
    assert_eq!(err.error.as_deref(), Some("Scan timeout - no card detected"));
}

#[test]
fn scanner_status_names_the_first_missing_piece() {
    let ok = scanner_status(true, true, "Test".to_string());
    assert!(ok.is_available);
    assert!(ok.last_error.is_none());
    let no_spi = scanner_status(false, true, "Test".to_string());
    assert!(!no_spi.is_available);
    assert_eq!(no_spi.last_error.as_deref(), Some("SPI device /dev/spidev0.0 not found"));
    let no_gpio = scanner_status(true, false, "Test".to_string());
    assert!(!no_gpio.is_available);
    assert_eq!(no_gpio.last_error.as_deref(), Some("GPIO access failed"));
}

#[test]
fn scripted_reader_answers_in_order_and_then_sees_nothing() {
    let mut reader = ScriptedReader::new(vec![
        ScriptedAnswer::Tag("04:AA".to_string()),
        ScriptedAnswer::Empty,
        ScriptedAnswer::Failure("wedged".to_string()),
    ]);
    assert_eq!(reader.scan(), Ok(Some("04:AA".to_string())));
    assert_eq!(reader.scan(), Ok(None));
    assert_eq!(reader.scan(), Err("wedged".to_string()));
    assert_eq!(reader.scan(), Ok(None));
    assert_eq!(reader.reader_type(), "Scripted");
    assert_eq!(reader.reset(), Ok(()));
}

#[test]
fn mock_decision_repeats_the_tag_during_cooldown() {
    let r = mock_scan_decision(true, Some("04:11:22:33:44:55:66"), 1, 0, 0);
    assert_eq!(r, Ok("04:11:22:33:44:55:66".to_string()));
    // One draw in ten simulates the card having been removed.
    let r = mock_scan_decision(true, Some("04:11:22:33:44:55:66"), 10, 1, 2);
    assert_eq!(r, Ok("04:12:34:56:78:9A:BC".to_string()));
}

#[test]
fn mock_decision_simulates_timeouts_and_picks_tags() {
    let r = mock_scan_decision(false, None, 0, 20, 0);
    assert_eq!(r, Err("Scan timeout - no card detected".to_string()));
    let r = mock_scan_decision(false, None, 0, 1, 5);
    assert_eq!(r, Ok("04:D6:94:82:97:6A:80".to_string()));
    let r = mock_scan_decision(false, None, 0, 1, 9);
    assert_eq!(r, Ok("04:11:22:33:44:55:66".to_string()));
}

#[test]
fn mock_cycle_schedules_every_third_and_tenth() {
    assert_eq!(mock_cycle(3), (true, 1, false));
    assert_eq!(mock_cycle(4), (false, 1, false));
    assert_eq!(mock_cycle(30), (true, 1, true));
    assert_eq!(mock_cycle(9), (true, 0, false));
    assert_eq!(mock_dev_tag(0), "1234567890");
    assert_eq!(mock_dev_tag(1), "0987654321");
    assert_eq!(mock_dev_tag(2), "5556667777");
}
