use kratos_memory::retry::{after_busy, Retry, FIRST_PAUSE_MS, MAX_ATTEMPTS};

#[test]
fn pauses_double_until_the_last_attempt() {
    assert_eq!(after_busy(1), Retry::After(25));
    assert_eq!(after_busy(2), Retry::After(50));
    assert_eq!(after_busy(3), Retry::After(100));
    assert_eq!(after_busy(4), Retry::After(200));
    assert_eq!(after_busy(5), Retry::After(400));
    assert_eq!(after_busy(6), Retry::GiveUp);
}

#[test]
fn no_attempt_follows_the_last() {
    assert_eq!(FIRST_PAUSE_MS, 25);
    assert_eq!(MAX_ATTEMPTS, 6);
    for attempt in [0, MAX_ATTEMPTS, MAX_ATTEMPTS + 1, 1_000, u32::MAX] {
        assert_eq!(after_busy(attempt), Retry::GiveUp);
    }
}

#[test]
fn a_busy_store_is_tried_six_times() {
    let mut attempt = 1;
    let mut paused = 0;
    while let Retry::After(pause) = after_busy(attempt) {
        paused += pause;
        attempt += 1;
    }
    assert_eq!(attempt, 6);
    assert_eq!(paused, 775);
}
