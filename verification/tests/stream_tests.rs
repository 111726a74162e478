use copytrader::stream::{
    build_filter_config, build_subscribe_plan, parse_target_addresses, should_retry_subscribe,
    ConnectionWatch, PingRequest, UpdateKind, MAX_SUBSCRIBE_RETRIES, STALE_AFTER_MS,
    SUBSCRIBE_RETRY_DELAY_MS,
};

#[test]
fn single_target_passes_through() {
    let r = parse_target_addresses(&"Leader1".to_string(), false);
    assert_eq!(r, vec!["Leader1".to_string()]);
    let none = parse_target_addresses(&"".to_string(), false);
    assert!(none.is_empty());
}

#[test]
fn multi_targets_split_trim_and_drop_empties() {
    let r = parse_target_addresses(&" A1 ,B2,, C3 ,".to_string(), true);
    assert_eq!(r, vec!["A1".to_string(), "B2".to_string(), "C3".to_string()]);
}

#[test]
fn subscribe_plan_watches_and_excludes() {
    let ids = vec!["ProgA".to_string(), "ProgB".to_string()];
    let plan = build_subscribe_plan(&ids);
    assert_eq!(plan.vote, None);
    assert_eq!(plan.failed, Some(false));
    assert_eq!(plan.account_watch, ids);
    assert_eq!(
        plan.account_exclude,
        vec![
            "JUP6LkbZbjS1jKKwapdHNy74zcZ3tLUZoi5QNyVTaV4".to_string(),
            "6m2CDdhRgxpH4WjvdzxAYbGxwdGUz5MziiL5jek2kBWz".to_string(),
        ]
    );
    assert!(plan.account_required.is_empty());
    assert!(plan.commitment_processed);
}

#[test]
fn every_message_feeds_watchdog_and_pings_get_pongs() {
    let mut w = ConnectionWatch::new(0);
    let reply = w.process_stream_message(UpdateKind::Ping, 1_000);
    assert_eq!(reply, Some(PingRequest { id: 1 }));
    assert_eq!(w.last_message_at, 1_000);
    let quiet = w.process_stream_message(UpdateKind::Pong, 2_000);
    assert_eq!(quiet, None);
    let txn = w.process_stream_message(UpdateKind::Transaction, 3_000);
    assert_eq!(txn, None);
    assert_eq!(w.last_message_at, 3_000);
}

#[test]
fn watchdog_flags_stale_connections() {
    let w = ConnectionWatch::new(1_000);
    assert!(!w.check_connection_health(1_000 + STALE_AFTER_MS));
    assert!(w.check_connection_health(1_001 + STALE_AFTER_MS));
    // a clock reading earlier than the last message is not stale
    assert!(!w.check_connection_health(0));
}

#[test]
fn subscribe_retries_until_limit() {
    assert_eq!(should_retry_subscribe(0), Some(SUBSCRIBE_RETRY_DELAY_MS));
    assert_eq!(should_retry_subscribe(1), Some(SUBSCRIBE_RETRY_DELAY_MS));
    assert_eq!(should_retry_subscribe(2), Some(SUBSCRIBE_RETRY_DELAY_MS));
    assert_eq!(should_retry_subscribe(MAX_SUBSCRIBE_RETRIES), None);
}

#[test]
fn filter_config_watches_base_program_and_leaders() {
    let f = build_filter_config(&"A, B".to_string(), true, Some("PUMP".to_string()));
    assert_eq!(f.program_ids, vec!["PUMP".to_string(), "A".to_string(), "B".to_string()]);
    assert_eq!(
        f.copy_trading_target_addresses,
        vec!["A".to_string(), "B".to_string()]
    );
    assert!(f.is_multi_copy_trading);
    assert!(f.instruction_discriminators.is_empty());

    let single = build_filter_config(&"L".to_string(), false, None);
    assert_eq!(single.program_ids, vec!["L".to_string()]);
    assert_eq!(single.copy_trading_target_addresses, vec!["L".to_string()]);
}
