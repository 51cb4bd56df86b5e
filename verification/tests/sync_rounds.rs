use helios_light_client::api::{
    status_handler, QueryAction, QueryEvent, StatusError, WaitOutcome,
};
use helios_light_client::detect::{ForkDetector, Reports, WitnessOutcome};
use helios_light_client::state::{
    AppState, Config, StatusResponse, Timestamp, TrustedHeader, NANOS_PER_SEC,
};
use helios_light_client::sync::{Coordinator, Phase, SyncAction, SyncEvent};

const SEC: u128 = NANOS_PER_SEC;

fn config() -> Config {
    Config {
        freshness_threshold: 10,
        keep_warm_interval: 300,
        halt_duration_on_fork: 3600,
        api_timeout: 5,
    }
}

fn header(height: u64) -> TrustedHeader {
    TrustedHeader {
        height,
        hash: [height as u8; 32],
        time: Timestamp { secs: 1_700_000_000 + height as i64, nanos: 7 },
    }
}

fn response(height: u64) -> StatusResponse {
    StatusResponse {
        block_height: height,
        block_hash: [height as u8; 32],
        block_timestamp: Timestamp { secs: 1_700_000_000 + height as i64, nanos: 7 },
    }
}

/// Runs one detection round over the given outcomes and returns the verdict
/// with the reports that were asked for.
fn detect(witnesses: usize, trace_usable: bool, outcomes: &[WitnessOutcome]) -> (bool, Vec<(usize, Reports)>) {
    let mut detector = ForkDetector::new(witnesses, trace_usable);
    let mut reports = Vec::new();
    while let Some(witness) = detector.next_witness() {
        let asked = detector.record(outcomes[witness]);
        reports.push((witness, asked));
    }
    (detector.fork_detected(), reports)
}

#[test]
fn starts_idle_with_nothing_trusted_and_a_sync_in_flight() {
    let state = AppState::new(config(), 42);
    assert_eq!(state.light_block, None);
    assert_eq!(state.last_sync, 42);
    assert!(state.syncing);
    assert!(!state.last_sync_success);
    assert_eq!(state.config, config());
    let coordinator = Coordinator::new();
    assert_eq!(coordinator.phase(), Phase::Idle);
    assert_eq!(coordinator.backoff_secs(), 1);
}

#[test]
fn primary_advances_without_witnesses_and_status_reports_new_height() {
    let mut state = AppState::new(config(), 0);
    let mut coordinator = Coordinator::new();

    assert_eq!(coordinator.step(&mut state, SyncEvent::Wake, SEC), SyncAction::VerifyPrimary);
    assert_eq!(coordinator.phase(), Phase::Syncing);
    assert!(state.syncing);

    let (fork_detected, reports) = detect(0, true, &[]);
    assert!(!fork_detected);
    assert!(reports.is_empty());

    let verified = SyncEvent::Verified { header: header(150), fork_detected };
    assert_eq!(coordinator.step(&mut state, verified, 2 * SEC), SyncAction::Finish);
    assert_eq!(coordinator.phase(), Phase::Published);
    assert_eq!(state.light_block, Some(header(150)));
    assert_eq!(state.last_sync, 2 * SEC);
    assert!(state.last_sync_success);
    assert!(state.syncing);

    assert_eq!(coordinator.step(&mut state, SyncEvent::Settled, 2 * SEC), SyncAction::NotifyWaiters);
    assert_eq!(coordinator.phase(), Phase::Idle);
    assert!(!state.syncing);

    let action = status_handler(&mut state, QueryEvent::Arrived { freshness: None, now: 3 * SEC });
    assert_eq!(action, QueryAction::Respond { result: Ok(response(150)) });
}

#[test]
fn agreeing_witness_lets_the_header_through_and_no_evidence_is_reported() {
    let mut state = AppState::new(config(), 0);
    let mut coordinator = Coordinator::new();
    assert_eq!(coordinator.step(&mut state, SyncEvent::Wake, 0), SyncAction::VerifyPrimary);

    let (fork_detected, reports) = detect(1, true, &[WitnessOutcome::Agreed]);
    assert!(!fork_detected);
    assert_eq!(reports, vec![(0, Reports { to_witness: false, to_primary: false })]);

    let verified = SyncEvent::Verified { header: header(150), fork_detected };
    assert_eq!(coordinator.step(&mut state, verified, SEC), SyncAction::Finish);
    assert_eq!(coordinator.step(&mut state, SyncEvent::Settled, SEC), SyncAction::NotifyWaiters);

    let action = status_handler(&mut state, QueryEvent::Arrived { freshness: None, now: SEC });
    assert_eq!(action, QueryAction::Respond { result: Ok(response(150)) });
}

#[test]
fn conflicting_witness_halts_and_a_waiting_query_times_out() {
    let mut state = AppState::new(config(), 0);
    let mut coordinator = Coordinator::new();
    assert_eq!(coordinator.step(&mut state, SyncEvent::Wake, 0), SyncAction::VerifyPrimary);

    // A query arrives while the witnesses are being examined.
    let arrived = QueryEvent::Arrived { freshness: None, now: 11 * SEC };
    assert_eq!(status_handler(&mut state, arrived), QueryAction::Wait { timeout: 5 });

    let (fork_detected, reports) =
        detect(1, true, &[WitnessOutcome::Diverged { against_witness: true }]);
    assert!(fork_detected);
    assert_eq!(reports, vec![(0, Reports { to_witness: true, to_primary: true })]);

    let verified = SyncEvent::Verified { header: header(150), fork_detected };
    let halt: u128 = 3600 * SEC;
    assert_eq!(
        coordinator.step(&mut state, verified, 12 * SEC),
        SyncAction::Sleep { nanos: halt }
    );
    assert_eq!(coordinator.phase(), Phase::Halted { until: 12 * SEC + halt });
    assert_eq!(state.light_block, None);
    assert!(state.syncing);
    assert_eq!(coordinator.backoff_secs(), 1);

    // The query's wait runs out long before the halt does.
    let waited = QueryEvent::Waited { outcome: WaitOutcome::TimedOut };
    assert_eq!(
        status_handler(&mut state, waited),
        QueryAction::Respond { result: Err(StatusError::GatewayTimeout) }
    );
    assert_eq!(state.light_block, None);

    // Nothing moves before the halt is over.
    assert_eq!(coordinator.step(&mut state, SyncEvent::Wake, 100 * SEC), SyncAction::Nothing);
    assert_eq!(
        coordinator.step(&mut state, SyncEvent::Settled, 12 * SEC + halt - 1),
        SyncAction::Sleep { nanos: 1 }
    );
    assert_eq!(coordinator.phase(), Phase::Halted { until: 12 * SEC + halt });
    assert!(state.syncing);

    assert_eq!(
        coordinator.step(&mut state, SyncEvent::Settled, 12 * SEC + halt),
        SyncAction::NotifyWaiters
    );
    assert_eq!(coordinator.phase(), Phase::Idle);
    assert!(!state.syncing);
    assert_eq!(state.light_block, None);
}

#[test]
fn fork_keeps_the_header_published_before() {
    let mut state = AppState::new(config(), 0);
    let mut coordinator = Coordinator::new();
    coordinator.step(&mut state, SyncEvent::Wake, 0);
    coordinator.step(&mut state, SyncEvent::Verified { header: header(120), fork_detected: false }, SEC);
    coordinator.step(&mut state, SyncEvent::Settled, SEC);
    let before = state;

    coordinator.step(&mut state, SyncEvent::Wake, 2 * SEC);
    let forked = SyncEvent::Verified { header: header(150), fork_detected: true };
    coordinator.step(&mut state, forked, 3 * SEC);
    assert_eq!(state.light_block, Some(header(120)));
    assert_eq!(state.last_sync, before.last_sync);
    assert_eq!(state.last_sync_success, before.last_sync_success);
}

#[test]
fn unreachable_primary_backs_off_one_two_four_seconds_and_success_resets() {
    let mut state = AppState::new(config(), 0);
    let mut coordinator = Coordinator::new();
    let mut now: u128 = 0;
    for expected in [1u128, 2, 4] {
        assert_eq!(coordinator.step(&mut state, SyncEvent::Wake, now), SyncAction::VerifyPrimary);
        assert_eq!(
            coordinator.step(&mut state, SyncEvent::VerifyFailed, now),
            SyncAction::Sleep { nanos: expected * SEC }
        );
        assert_eq!(coordinator.phase(), Phase::BackingOff { until: now + expected * SEC });
        assert!(!state.last_sync_success);
        assert!(state.syncing);
        now += expected * SEC;
        assert_eq!(coordinator.step(&mut state, SyncEvent::Settled, now), SyncAction::NotifyWaiters);
        assert!(!state.syncing);
        assert_eq!(state.light_block, None);
    }
    assert_eq!(coordinator.backoff_secs(), 8);

    assert_eq!(coordinator.step(&mut state, SyncEvent::Wake, now), SyncAction::VerifyPrimary);
    let verified = SyncEvent::Verified { header: header(150), fork_detected: false };
    assert_eq!(coordinator.step(&mut state, verified, now), SyncAction::Finish);
    assert_eq!(coordinator.backoff_secs(), 1);
    assert_eq!(coordinator.step(&mut state, SyncEvent::Settled, now), SyncAction::NotifyWaiters);

    assert_eq!(coordinator.step(&mut state, SyncEvent::Wake, now), SyncAction::VerifyPrimary);
    assert_eq!(
        coordinator.step(&mut state, SyncEvent::VerifyFailed, now),
        SyncAction::Sleep { nanos: SEC }
    );
    assert_eq!(state.light_block, Some(header(150)));
    assert!(!state.last_sync_success);
}

#[test]
fn backoff_doubles_up_to_thirty_seconds_and_stays_there() {
    let mut state = AppState::new(config(), 0);
    let mut coordinator = Coordinator::new();
    let mut now: u128 = 0;
    let mut sleeps = Vec::new();
    for _ in 0..8 {
        coordinator.step(&mut state, SyncEvent::Wake, now);
        match coordinator.step(&mut state, SyncEvent::VerifyFailed, now) {
            SyncAction::Sleep { nanos } => {
                sleeps.push(nanos / SEC);
                now += nanos;
            }
            other => panic!("expected a sleep, got {:?}", other),
        }
        assert_eq!(coordinator.step(&mut state, SyncEvent::Settled, now), SyncAction::NotifyWaiters);
    }
    assert_eq!(sleeps, vec![1, 2, 4, 8, 16, 30, 30, 30]);
    assert_eq!(coordinator.backoff_secs(), 30);
}

#[test]
fn backoff_is_checked_against_the_clock() {
    let mut state = AppState::new(config(), 0);
    let mut coordinator = Coordinator::new();
    coordinator.step(&mut state, SyncEvent::Wake, 5);
    coordinator.step(&mut state, SyncEvent::VerifyFailed, 6);
    assert_eq!(
        coordinator.step(&mut state, SyncEvent::Settled, 7),
        SyncAction::Sleep { nanos: SEC - 1 }
    );
    assert_eq!(coordinator.phase(), Phase::BackingOff { until: SEC + 6 });
    assert!(state.syncing);
    assert_eq!(coordinator.step(&mut state, SyncEvent::Settled, SEC + 6), SyncAction::NotifyWaiters);
}

#[test]
fn deadline_holds_at_the_end_of_the_clock() {
    let mut state = AppState::new(config(), 0);
    let mut coordinator = Coordinator::new();
    coordinator.step(&mut state, SyncEvent::Wake, 0);
    assert_eq!(
        coordinator.step(&mut state, SyncEvent::VerifyFailed, u128::MAX - 5),
        SyncAction::Sleep { nanos: SEC }
    );
    assert_eq!(coordinator.phase(), Phase::BackingOff { until: u128::MAX });
    assert_eq!(helios_light_client::sync::deadline_after(10, 2), 10 + 2 * SEC);
    assert_eq!(helios_light_client::sync::deadline_after(u128::MAX, 0), u128::MAX);
    assert_eq!(helios_light_client::sync::grow_backoff(1), 2);
    assert_eq!(helios_light_client::sync::grow_backoff(14), 28);
    assert_eq!(helios_light_client::sync::grow_backoff(15), 30);
    assert_eq!(helios_light_client::sync::grow_backoff(16), 30);
    assert_eq!(helios_light_client::sync::grow_backoff(u64::MAX), 30);
}

#[test]
fn events_out_of_turn_change_nothing() {
    let mut state = AppState::new(config(), 0);
    let mut coordinator = Coordinator::new();
    let verified = SyncEvent::Verified { header: header(9), fork_detected: false };
    for event in [SyncEvent::VerifyFailed, verified, SyncEvent::Settled] {
        let before = state;
        assert_eq!(coordinator.step(&mut state, event, 1), SyncAction::Nothing);
        assert_eq!(coordinator.phase(), Phase::Idle);
        assert_eq!(state.light_block, before.light_block);
        assert_eq!(state.syncing, before.syncing);
    }
    coordinator.step(&mut state, SyncEvent::Wake, 1);
    for event in [SyncEvent::Wake, SyncEvent::Settled] {
        assert_eq!(coordinator.step(&mut state, event, 2), SyncAction::Nothing);
        assert_eq!(coordinator.phase(), Phase::Syncing);
        assert!(state.syncing);
    }
    coordinator.step(&mut state, verified, 3);
    for event in [SyncEvent::Wake, SyncEvent::VerifyFailed, verified] {
        assert_eq!(coordinator.step(&mut state, event, 4), SyncAction::Nothing);
        assert_eq!(coordinator.phase(), Phase::Published);
        assert_eq!(state.last_sync, 3);
    }
}

#[test]
fn wakes_during_an_attempt_start_no_second_one() {
    let mut state = AppState::new(config(), 0);
    let mut coordinator = Coordinator::new();
    assert_eq!(coordinator.step(&mut state, SyncEvent::Wake, 0), SyncAction::VerifyPrimary);
    for now in 1..10u128 {
        assert_eq!(coordinator.step(&mut state, SyncEvent::Wake, now), SyncAction::Nothing);
    }
    assert_eq!(coordinator.phase(), Phase::Syncing);
}

#[test]
fn one_divergent_witness_is_enough_and_the_rest_are_still_examined() {
    let outcomes = [
        WitnessOutcome::Agreed,
        WitnessOutcome::Diverged { against_witness: false },
        WitnessOutcome::Failed,
        WitnessOutcome::Agreed,
    ];
    let (fork_detected, reports) = detect(4, true, &outcomes);
    assert!(fork_detected);
    assert_eq!(
        reports,
        vec![
            (0, Reports { to_witness: false, to_primary: false }),
            (1, Reports { to_witness: true, to_primary: false }),
            (2, Reports { to_witness: false, to_primary: false }),
            (3, Reports { to_witness: false, to_primary: false }),
        ]
    );
}

#[test]
fn failing_witnesses_are_no_fork() {
    let outcomes = [WitnessOutcome::Failed, WitnessOutcome::Failed, WitnessOutcome::Agreed];
    let (fork_detected, reports) = detect(3, true, &outcomes);
    assert!(!fork_detected);
    assert_eq!(reports.len(), 3);
    assert!(reports.iter().all(|(_, asked)| !asked.to_witness && !asked.to_primary));
}

#[test]
fn unusable_trace_examines_no_witness() {
    let mut detector = ForkDetector::new(3, false);
    assert_eq!(detector.next_witness(), None);
    let asked = detector.record(WitnessOutcome::Diverged { against_witness: true });
    assert_eq!(asked, Reports { to_witness: false, to_primary: false });
    assert!(!detector.fork_detected());
}

#[test]
fn detector_stops_after_the_last_witness() {
    let mut detector = ForkDetector::new(2, true);
    assert_eq!(detector.next_witness(), Some(0));
    detector.record(WitnessOutcome::Agreed);
    assert_eq!(detector.next_witness(), Some(1));
    detector.record(WitnessOutcome::Failed);
    assert_eq!(detector.next_witness(), None);
    let late = detector.record(WitnessOutcome::Diverged { against_witness: true });
    assert_eq!(late, Reports { to_witness: false, to_primary: false });
    assert!(!detector.fork_detected());
}
