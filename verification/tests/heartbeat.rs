use bless_network::heartbeat::HeartbeatMonitor;

#[test]
fn loop_ends_with_the_third_failure() {
    let mut monitor = HeartbeatMonitor::new(3);
    assert!(!monitor.record(false));
    assert_eq!(monitor.failures(), 1);
    assert!(!monitor.record(false));
    assert_eq!(monitor.failures(), 2);
    assert!(monitor.record(false));
}

#[test]
fn success_clears_the_count() {
    let mut monitor = HeartbeatMonitor::new(3);
    assert!(!monitor.record(false));
    assert!(!monitor.record(false));
    assert!(!monitor.record(true));
    assert_eq!(monitor.failures(), 0);
    assert!(!monitor.record(false));
    assert!(!monitor.record(false));
    assert_eq!(monitor.failures(), 2);
    assert!(monitor.record(false));
}

#[test]
fn count_is_fresh_after_giving_up() {
    let mut monitor = HeartbeatMonitor::new(2);
    assert!(!monitor.record(false));
    assert!(monitor.record(false));
    assert_eq!(monitor.failures(), 0);
    assert_eq!(monitor.threshold(), 2);
    assert!(!monitor.record(false));
    assert!(monitor.record(false));
}

#[test]
fn successes_alone_never_end_the_loop() {
    let mut monitor = HeartbeatMonitor::new(1);
    for _ in 0..10 {
        assert!(!monitor.record(true));
        assert_eq!(monitor.failures(), 0);
    }
}

#[test]
fn threshold_of_one_ends_with_the_first_failure() {
    let mut monitor = HeartbeatMonitor::new(1);
    assert!(monitor.record(false));
}

#[test]
fn threshold_of_zero_ends_with_the_first_failure() {
    let mut monitor = HeartbeatMonitor::new(0);
    assert!(!monitor.record(true));
    assert!(monitor.record(false));
}

#[test]
fn largest_threshold_counts_without_overflow() {
    let mut monitor = HeartbeatMonitor::new(u32::MAX);
    for expected in 1..=1000u32 {
        assert!(!monitor.record(false));
        assert_eq!(monitor.failures(), expected);
    }
}
