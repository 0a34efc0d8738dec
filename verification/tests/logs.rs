use std::collections::VecDeque;

use nmea2000::logs::{push_log, LOG_CAPACITY};

#[test]
fn log_keeps_newest_lines() {
    let mut logs = VecDeque::new();
    for i in 0..45 {
        push_log(&mut logs, format!("INFO line {i}"));
        assert!(logs.len() <= LOG_CAPACITY);
    }
    assert_eq!(logs.len(), 30);
    assert_eq!(logs.front().unwrap(), "INFO line 15");
    assert_eq!(logs.back().unwrap(), "INFO line 44");
}

#[test]
fn log_below_capacity_keeps_all() {
    let mut logs = VecDeque::new();
    push_log(&mut logs, "a".to_string());
    push_log(&mut logs, "b".to_string());
    assert_eq!(logs, VecDeque::from(vec!["a".to_string(), "b".to_string()]));
}

#[test]
fn log_over_capacity_drops_only_one() {
    let mut logs: VecDeque<String> = (0..40).map(|i| i.to_string()).collect();
    push_log(&mut logs, "new".to_string());
    assert_eq!(logs.len(), 40);
    assert_eq!(logs.front().unwrap(), "1");
}
