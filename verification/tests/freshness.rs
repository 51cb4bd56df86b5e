use helios_light_client::api::{
    check_freshness, effective_threshold, root_handler, status_handler, status_response,
    threshold_or_default, GateDecision, QueryAction, QueryEvent, StatusError, WaitOutcome,
};
use helios_light_client::state::{
    secs_to_nanos, AppState, Config, StatusResponse, Timestamp, TrustedHeader, NANOS_PER_SEC,
};

const SEC: u128 = NANOS_PER_SEC;

fn config() -> Config {
    Config {
        freshness_threshold: 10,
        keep_warm_interval: 300,
        halt_duration_on_fork: 3600,
        api_timeout: 5,
    }
}

fn trusted() -> TrustedHeader {
    TrustedHeader { height: 150, hash: [0xab; 32], time: Timestamp { secs: 1_700_000_000, nanos: 1 } }
}

fn idle_state(last_sync: u128) -> AppState {
    AppState {
        config: config(),
        light_block: Some(trusted()),
        last_sync,
        syncing: false,
        last_sync_success: true,
    }
}

#[test]
fn root_names_the_service() {
    let root = root_handler();
    assert_eq!(root.name, "helios-light-client");
    assert_eq!(root.version, "0.1.0");
}

#[test]
fn override_replaces_the_default_only_when_it_is_a_number() {
    let config = config();
    assert_eq!(effective_threshold(None, &config), 10);
    assert_eq!(effective_threshold(Some("0"), &config), 0);
    assert_eq!(effective_threshold(Some("25"), &config), 25);
    assert_eq!(effective_threshold(Some("+3"), &config), 3);
    assert_eq!(effective_threshold(Some("18446744073709551615"), &config), u64::MAX);
    assert_eq!(effective_threshold(Some("18446744073709551616"), &config), 10);
    assert_eq!(effective_threshold(Some(""), &config), 10);
    assert_eq!(effective_threshold(Some("soon"), &config), 10);
    assert_eq!(effective_threshold(Some("-1"), &config), 10);
    assert_eq!(effective_threshold(Some("1.5"), &config), 10);
    assert_eq!(effective_threshold(Some(" 5"), &config), 10);
    assert_eq!(threshold_or_default(Some(7), 10), 7);
    assert_eq!(threshold_or_default(None, 10), 10);
}

#[test]
fn elapsed_time_is_measured_from_the_last_publication() {
    let state = idle_state(5 * SEC);
    assert_eq!(state.elapsed(5 * SEC), 0);
    assert_eq!(state.elapsed(7 * SEC + 3), 2 * SEC + 3);
    assert_eq!(state.elapsed(SEC), 0);
    assert_eq!(secs_to_nanos(0), 0);
    assert_eq!(secs_to_nanos(3), 3_000_000_000);
    assert_eq!(secs_to_nanos(u64::MAX), u64::MAX as u128 * 1_000_000_000);
}

#[test]
fn state_is_stale_only_past_the_threshold() {
    let state = idle_state(0);
    assert!(!state.is_stale(10 * SEC, 10));
    assert!(state.is_stale(10 * SEC + 1, 10));
    assert!(!state.is_stale(0, 0));
    assert!(state.is_stale(1, 0));
    assert!(!state.is_stale(u128::MAX, u64::MAX) || u128::MAX > u64::MAX as u128 * SEC);
}

#[test]
fn fresh_state_is_answered_at_once() {
    let mut state = idle_state(0);
    assert_eq!(check_freshness(&mut state, 10 * SEC, 10), GateDecision::Fresh);
    assert!(!state.syncing);
}

#[test]
fn stale_state_triggers_one_sync_and_later_queries_wait_for_it() {
    let mut state = idle_state(0);
    assert_eq!(check_freshness(&mut state, 11 * SEC, 10), GateDecision::TriggerSync);
    assert!(state.syncing);
    for n in 0..20u128 {
        assert_eq!(check_freshness(&mut state, 11 * SEC + n, 10), GateDecision::AwaitSync);
        assert!(state.syncing);
    }
    assert_eq!(state.light_block, Some(trusted()));
    assert_eq!(state.last_sync, 0);
}

#[test]
fn fresh_query_during_a_sync_does_not_wait() {
    let mut state = idle_state(0);
    state.syncing = true;
    assert_eq!(check_freshness(&mut state, 3 * SEC, 10), GateDecision::Fresh);
    assert!(state.syncing);
}

#[test]
fn zero_override_always_asks_for_a_sync() {
    let mut state = idle_state(4 * SEC);
    let arrived = QueryEvent::Arrived { freshness: Some("0"), now: 4 * SEC + 1 };
    assert_eq!(status_handler(&mut state, arrived), QueryAction::TriggerAndWait { timeout: 5 });
    assert!(state.syncing);
    let again = QueryEvent::Arrived { freshness: Some("0"), now: 4 * SEC + 2 };
    assert_eq!(status_handler(&mut state, again), QueryAction::Wait { timeout: 5 });
}

#[test]
fn zero_override_at_the_very_instant_of_publication_is_fresh() {
    let mut state = idle_state(4 * SEC);
    let arrived = QueryEvent::Arrived { freshness: Some("0"), now: 4 * SEC };
    let expected = StatusResponse {
        block_height: 150,
        block_hash: [0xab; 32],
        block_timestamp: Timestamp { secs: 1_700_000_000, nanos: 1 },
    };
    assert_eq!(status_handler(&mut state, arrived), QueryAction::Respond { result: Ok(expected) });
    assert!(!state.syncing);
}

#[test]
fn unparseable_override_falls_back_to_the_configured_threshold() {
    let mut state = idle_state(0);
    let arrived = QueryEvent::Arrived { freshness: Some("now"), now: 10 * SEC };
    assert!(matches!(status_handler(&mut state, arrived), QueryAction::Respond { result: Ok(_) }));
    let arrived = QueryEvent::Arrived { freshness: Some("now"), now: 10 * SEC + 1 };
    assert_eq!(status_handler(&mut state, arrived), QueryAction::TriggerAndWait { timeout: 5 });
}

#[test]
fn query_before_the_first_success_is_unavailable() {
    let mut state = AppState::new(config(), 0);
    let arrived = QueryEvent::Arrived { freshness: None, now: SEC };
    assert_eq!(
        status_handler(&mut state, arrived),
        QueryAction::Respond { result: Err(StatusError::ServiceUnavailable) }
    );
    let stale = QueryEvent::Arrived { freshness: None, now: 11 * SEC };
    assert_eq!(status_handler(&mut state, stale), QueryAction::Wait { timeout: 5 });
    let waited = QueryEvent::Waited { outcome: WaitOutcome::Completed };
    assert_eq!(
        status_handler(&mut state, waited),
        QueryAction::Respond { result: Err(StatusError::ServiceUnavailable) }
    );
}

#[test]
fn answer_depends_on_how_the_wait_ended() {
    let state = idle_state(0);
    let expected = StatusResponse {
        block_height: 150,
        block_hash: [0xab; 32],
        block_timestamp: Timestamp { secs: 1_700_000_000, nanos: 1 },
    };
    assert_eq!(status_response(&state, None), Ok(expected));
    assert_eq!(status_response(&state, Some(WaitOutcome::Completed)), Ok(expected));
    assert_eq!(status_response(&state, Some(WaitOutcome::TimedOut)), Err(StatusError::GatewayTimeout));
    assert_eq!(status_response(&state, Some(WaitOutcome::Closed)), Err(StatusError::InternalError));

    let empty = AppState::new(config(), 0);
    assert_eq!(status_response(&empty, None), Err(StatusError::ServiceUnavailable));
    assert_eq!(status_response(&empty, Some(WaitOutcome::Completed)), Err(StatusError::ServiceUnavailable));
    assert_eq!(status_response(&empty, Some(WaitOutcome::TimedOut)), Err(StatusError::GatewayTimeout));
    assert_eq!(status_response(&empty, Some(WaitOutcome::Closed)), Err(StatusError::InternalError));
}

#[test]
fn error_classes_map_to_their_status_codes() {
    assert_eq!(StatusError::GatewayTimeout.status_code(), 504);
    assert_eq!(StatusError::InternalError.status_code(), 500);
    assert_eq!(StatusError::ServiceUnavailable.status_code(), 503);
}
