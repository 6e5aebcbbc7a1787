use feed_sync::backoff::BackoffPolicy;
use feed_sync::supervisor::{SupervisorDecision, SyncSupervisor};

#[test]
fn backoff_doubles_up_to_cap() {
    let p = BackoffPolicy { base_delay_ms: 500, max_doublings: 3 };
    assert_eq!(p.delay_ms(1), 500);
    assert_eq!(p.delay_ms(2), 1000);
    assert_eq!(p.delay_ms(3), 2000);
    assert_eq!(p.delay_ms(4), 4000);
    assert_eq!(p.delay_ms(5), 4000);
    assert_eq!(p.delay_ms(u32::MAX), 4000);
}

#[test]
fn backoff_saturates() {
    let p = BackoffPolicy { base_delay_ms: u64::MAX / 2 + 1, max_doublings: 10 };
    assert_eq!(p.delay_ms(1), u64::MAX / 2 + 1);
    assert_eq!(p.delay_ms(2), u64::MAX);
    assert_eq!(p.delay_ms(11), u64::MAX);
    let z = BackoffPolicy { base_delay_ms: 0, max_doublings: 100 };
    assert_eq!(z.delay_ms(50), 0);
}

#[test]
fn supervisor_backs_off_on_consecutive_failures() {
    let mut s = SyncSupervisor::new(BackoffPolicy { base_delay_ms: 1000, max_doublings: 5 }, 60_000);
    assert_eq!(s.on_session_end(true, 10), SupervisorDecision::Reconnect { delay_ms: 1000 });
    assert_eq!(s.on_session_end(true, 10), SupervisorDecision::Reconnect { delay_ms: 2000 });
    assert_eq!(s.on_session_end(true, 10), SupervisorDecision::Reconnect { delay_ms: 4000 });
    // A sustained session resets the count.
    assert_eq!(s.on_session_end(true, 60_000), SupervisorDecision::Reconnect { delay_ms: 1000 });
    assert_eq!(s.on_session_end(false, 5), SupervisorDecision::Stop);
    assert_eq!(s.on_session_end(true, 5), SupervisorDecision::Reconnect { delay_ms: 1000 });
}

#[test]
fn supervisor_snapshot_retries_back_off() {
    let mut s = SyncSupervisor::new(BackoffPolicy { base_delay_ms: 100, max_doublings: 1 }, 1);
    assert_eq!(s.on_snapshot_failed(), 100);
    assert_eq!(s.on_snapshot_failed(), 200);
    assert_eq!(s.on_snapshot_failed(), 200);
    s.on_snapshot_installed();
    assert_eq!(s.on_snapshot_failed(), 100);
}
