use idler_utils::idle::{idle_not_reset, trigger_point, IdleAction, IdleMonitor};

#[test]
fn trigger_is_ninety_four_percent() {
    assert_eq!(trigger_point(60), 56);
    assert_eq!(trigger_point(100), 94);
    assert_eq!(trigger_point(300), 282);
    assert_eq!(trigger_point(0), 0);
    assert_eq!(trigger_point(u64::MAX), 17339939429286978518);
}

#[test]
fn trigger_below_threshold_from_floor() {
    for v in [60u64, 61, 99, 100, 101, 1000, 86400, u64::MAX] {
        assert!(trigger_point(v) < v);
    }
}

#[test]
fn low_interval_is_raised_to_floor() {
    let mut m = IdleMonitor::new();
    assert!(m.refresh_threshold("30"));
    assert_eq!(m.threshold, 60);
    assert!(m.refresh_threshold("0"));
    assert_eq!(m.threshold, 60);
    assert!(!m.refresh_threshold("60"));
    assert_eq!(m.threshold, 60);
}

#[test]
fn garbled_interval_keeps_last_good() {
    let mut m = IdleMonitor::new();
    assert!(!m.refresh_threshold("300"));
    assert_eq!(m.threshold, 300);
    assert!(!m.refresh_threshold("five"));
    assert_eq!(m.threshold, 300);
    assert!(!m.refresh_threshold(""));
    assert_eq!(m.threshold, 300);
    assert!(!m.refresh_threshold("-5"));
    assert_eq!(m.threshold, 300);
}

#[test]
fn below_trigger_sleeps_for_trigger() {
    let mut m = IdleMonitor::new();
    m.refresh_threshold("60");
    assert_eq!(m.decide(Some(55)), IdleAction::Sleep(56));
    assert_eq!(m.decide(None), IdleAction::Sleep(56));
}

#[test]
fn at_or_past_trigger_corrects() {
    let mut m = IdleMonitor::new();
    m.refresh_threshold("60");
    assert_eq!(m.decide(Some(56)), IdleAction::Correct(56));
    assert_eq!(m.decide(Some(57)), IdleAction::Correct(57));
    assert_eq!(m.decide(Some(58)), IdleAction::Correct(58));
}

#[test]
fn reset_detection() {
    assert!(idle_not_reset(58, Some(58)));
    assert!(idle_not_reset(58, Some(70)));
    assert!(!idle_not_reset(58, Some(0)));
    assert!(!idle_not_reset(58, None));
}
