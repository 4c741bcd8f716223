use game_engine::control::{
    admission_decision, capacity_from, should_recheck, waits_for_drain, AdmissionDecision, RestartMode,
    MIN_RECHECK_INTERVAL_SECS, REDLINE_FLOOR_BYTES,
};

#[test]
fn capacity_is_read_again_only_when_stale() {
    assert!(should_recheck(None));
    assert!(!should_recheck(Some(0)));
    assert!(!should_recheck(Some(MIN_RECHECK_INTERVAL_SECS - 1)));
    assert!(should_recheck(Some(MIN_RECHECK_INTERVAL_SECS)));
}

#[test]
fn capacity_leaves_the_headroom_free() {
    let gib: u64 = 1024 * 1024 * 1024;
    // 4 GiB available, share of 1 GiB reserved, 256 MiB per game: 12 games
    assert_eq!(capacity_from(4 * gib, gib, gib / 4), 12);
    // the floor applies when the share is smaller
    assert_eq!(capacity_from(REDLINE_FLOOR_BYTES + 10, 1, 5), 2);
    // nothing above the headroom: no games
    assert_eq!(capacity_from(REDLINE_FLOOR_BYTES / 2, 0, 1), 0);
    // a zero estimate counts as one byte
    assert_eq!(capacity_from(REDLINE_FLOOR_BYTES + 7, 0, 0), 7);
}

#[test]
fn admission_admits_below_capacity_only() {
    assert_eq!(admission_decision(0, 1), AdmissionDecision::Admit);
    assert_eq!(
        admission_decision(3, 3),
        AdmissionDecision::Reject { current: 3, capacity: 3 }
    );
    assert_eq!(
        admission_decision(0, 0),
        AdmissionDecision::Reject { current: 0, capacity: 0 }
    );
}

#[test]
fn only_a_graceful_restart_waits() {
    assert!(waits_for_drain(RestartMode::Graceful));
    assert!(!waits_for_drain(RestartMode::Force));
}
