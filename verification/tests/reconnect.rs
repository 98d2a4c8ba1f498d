use bootty_app::reattach::{
    ClientExitOutcome, ReattachPoll, ReattachState, RemoteReattach, FIRST_DELAY_MS,
    MAX_DELAY_MS, STABLE_AFTER_MS,
};

#[test]
fn reconnect_backoff_grows_during_an_outage_and_resets_after_a_connection_lasts() {
    let now = 1_000_000u64;
    let first = RemoteReattach::after_failure(None, None, now);
    let second = RemoteReattach::after_failure(Some(first), Some(1000), now);
    let third = RemoteReattach::after_failure(Some(second), Some(1000), now);

    assert_eq!((first.attempts, second.attempts, third.attempts), (1, 2, 3));
    assert!(RemoteReattach::delay(1) < RemoteReattach::delay(2));
    assert!(RemoteReattach::delay(2) < RemoteReattach::delay(3));
    assert_eq!(RemoteReattach::delay(99), MAX_DELAY_MS);

    let after_a_long_session =
        RemoteReattach::after_failure(Some(third), Some(STABLE_AFTER_MS + 1000), now);
    assert_eq!(after_a_long_session.attempts, 1);
}

#[test]
fn backoff_starts_at_the_first_delay_and_doubles() {
    assert_eq!(RemoteReattach::delay(1), FIRST_DELAY_MS);
    assert_eq!(RemoteReattach::delay(2), 1000);
    assert_eq!(RemoteReattach::delay(3), 2000);
    assert_eq!(RemoteReattach::delay(7), 30000);
    let r = RemoteReattach::after_failure(None, None, 10);
    assert_eq!(r.retry_at, 10 + FIRST_DELAY_MS);
    assert!(!r.due(10 + FIRST_DELAY_MS - 1));
    assert!(r.due(10 + FIRST_DELAY_MS));
}

#[test]
fn reattach_state_schedules_and_fires_a_retry() {
    let mut state = ReattachState::new();
    assert_eq!(state.poll(0), ReattachPoll::Idle);
    assert_eq!(state.on_client_exit(100, false), ClientExitOutcome::ClosePane);
    assert_eq!(
        state.on_client_exit(100, true),
        ClientExitOutcome::Reconnect { attempt: 1 }
    );
    assert_eq!(state.on_client_exit(150, true), ClientExitOutcome::AlreadyWaiting);
    assert_eq!(state.poll(200), ReattachPoll::WaitFor(100 + FIRST_DELAY_MS - 200));
    assert_eq!(state.poll(100 + FIRST_DELAY_MS), ReattachPoll::StartNow);
    assert_eq!(state.poll(100 + FIRST_DELAY_MS + 1), ReattachPoll::Starting);
    assert_eq!(state.attach_started, Some(100 + FIRST_DELAY_MS));
    // The new client dies at once: the same outage, so the next wait is longer.
    assert_eq!(
        state.on_client_exit(100 + FIRST_DELAY_MS + 10, true),
        ClientExitOutcome::Reconnect { attempt: 2 }
    );
    assert_eq!(state.poll(100 + FIRST_DELAY_MS + 2000), ReattachPoll::StartNow);
    let started = state.attach_started.unwrap();
    // This client lives long enough to count as connected: the pending retry is cleared.
    state.on_client_alive(started + STABLE_AFTER_MS);
    assert_eq!(state.reattach, None);
}
