use suggestion_engine::debounce::{DebounceConfig, DebounceScheduler};

fn cfg() -> DebounceConfig {
    DebounceConfig { quiet_ms: 400, periodic_ms: 1200 }
}

#[test]
fn burst_coalesces_into_one_request_after_quiet_window() {
    let mut s = DebounceScheduler::new(cfg(), 0);

    // activity signals spaced less than 400 ms apart
    let burst = [1000u64, 1300, 1600, 1950];
    let mut fired = 0;
    for (k, &t) in burst.iter().enumerate() {
        s.note_activity(t);
        // a poll between this signal and the next stays quiet
        if k + 1 < burst.len() {
            let mid = (t + burst[k + 1]) / 2;
            if s.poll(mid) {
                fired += 1;
            }
        }
    }
    // still inside the quiet window of the final signal
    assert!(!s.poll(1950 + 399));
    // the full quiet window elapsed: exactly one request fires
    assert!(s.poll(1950 + 400));
    fired += 1;
    assert_eq!(fired, 1);
    // and nothing fires again before the periodic fallback
    assert!(!s.poll(1950 + 400 + 1599));
    assert!(s.poll(1950 + 400 + 1600));
}

#[test]
fn periodic_fallback_fires_without_typing() {
    let mut s = DebounceScheduler::new(cfg(), 0);
    assert!(!s.poll(1599));
    assert!(s.poll(1600));
}

#[test]
fn activity_restarts_the_quiet_window() {
    let mut s = DebounceScheduler::new(cfg(), 0);
    s.note_activity(100);
    assert!(!s.poll(499));
    s.note_activity(499);
    assert!(!s.poll(898));
    assert!(s.poll(899));
}
