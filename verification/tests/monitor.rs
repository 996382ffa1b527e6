use firmware_tool::logger::{LogLevel, Logger};
use firmware_tool::monitor::{
    extract_write_time, looks_like_sector_write, LineAction, MonitorPolicy, OperationMonitor,
    WatchdogAction, MAX_ANOMALOUS_WRITES, NORMAL_WRITE_THRESHOLD_MS,
};

fn chars(s: &str) -> Vec<char> {
    s.chars().collect()
}

fn sector_line(sector: u32, ms: u32) -> String {
    format!("Info : sector {} took {} ms", sector, ms)
}

fn policy(max: u32) -> MonitorPolicy {
    MonitorPolicy { threshold_ms: 10, quick_is_anomalous: true, max_anomalous: max }
}

#[test]
fn default_policy_values() {
    let p = MonitorPolicy::default();
    assert_eq!(p.threshold_ms, NORMAL_WRITE_THRESHOLD_MS);
    assert_eq!(p.threshold_ms, 10);
    assert_eq!(p.max_anomalous, MAX_ANOMALOUS_WRITES);
    assert_eq!(p.max_anomalous, 35);
    assert!(p.quick_is_anomalous);
}

#[test]
fn threshold_sides() {
    let quick = policy(3);
    assert!(quick.is_anomalous(9));
    assert!(!quick.is_anomalous(10));
    assert!(!quick.is_anomalous(11));
    let slow = MonitorPolicy { threshold_ms: 10, quick_is_anomalous: false, max_anomalous: 3 };
    assert!(!slow.is_anomalous(9));
    assert!(!slow.is_anomalous(10));
    assert!(slow.is_anomalous(11));
}

#[test]
fn sector_lines_are_recognised_in_three_forms() {
    assert!(looks_like_sector_write(&chars("Info : sector 5 took 12 ms")));
    assert!(looks_like_sector_write(&chars("[ERROR] Info : sector 25 took 1 ms")));
    assert!(looks_like_sector_write(&chars("sector 7 took 3ms")));
    assert!(looks_like_sector_write(&chars("Info : sector 7 took long")));
    assert!(!looks_like_sector_write(&chars("sector 7 took long")));
    assert!(!looks_like_sector_write(&chars("Info : sector 7 needs 3 ms")));
    assert!(!looks_like_sector_write(&chars("Info : block 7 took 3 ms")));
    assert!(!looks_like_sector_write(&chars("")));
}

#[test]
fn write_time_is_the_first_word_after_took() {
    assert_eq!(extract_write_time(&chars("Info : sector 5 took 12 ms")), Some(12));
    assert_eq!(extract_write_time(&chars("sector 5 took    7   ms")), Some(7));
    assert_eq!(extract_write_time(&chars("sector 5 took +7 ms")), Some(7));
    assert_eq!(extract_write_time(&chars("sector 5 took 12ms")), None);
    assert_eq!(extract_write_time(&chars("sector 5 took")), None);
    assert_eq!(extract_write_time(&chars("sector 5 took   ")), None);
    assert_eq!(extract_write_time(&chars("sector 5")), None);
    assert_eq!(extract_write_time(&chars("took 4294967295 ms")), Some(4294967295));
    assert_eq!(extract_write_time(&chars("took 4294967296 ms")), None);
    assert_eq!(extract_write_time(&chars("took 5 took 9")), Some(5));
    assert_eq!(extract_write_time(&chars("took took 9")), None);
    assert_eq!(extract_write_time(&chars("took 5took 9")), Some(5));
}

#[test]
fn write_time_agrees_with_std_splitting() {
    for line in ["Info : sector 1 took 3 ms", "took\u{a0}8 ms", "x took 1 2", "took", "a took b took 4", "took -3"] {
        let expected = line
            .split("took")
            .nth(1)
            .and_then(|rest| rest.split_whitespace().next())
            .and_then(|word| word.parse::<u32>().ok());
        assert_eq!(extract_write_time(&chars(line)), expected);
    }
}

#[test]
fn normal_lines_are_counted_and_never_terminate() {
    let mut logger = Logger::new("t");
    let mut monitor = OperationMonitor::with_policy(policy(2));
    for i in 0..12 {
        assert_eq!(monitor.process_sector_writes(&sector_line(i, 10 + i), &mut logger), LineAction::Counted);
    }
    assert_eq!(monitor.total_sector_count(), 12);
    assert_eq!(monitor.anomalous_write_count(), 0);
    assert!(!monitor.was_terminated_early());
    assert!(logger.get_entries().is_empty());
}

#[test]
fn other_lines_are_ignored() {
    let mut logger = Logger::new("t");
    let mut monitor = OperationMonitor::new();
    assert_eq!(monitor.process_sector_writes("Info : Probing the flash memory", &mut logger), LineAction::Ignored);
    assert_eq!(monitor.process_sector_writes("", &mut logger), LineAction::Ignored);
    assert_eq!(monitor.total_sector_count(), 0);
}

#[test]
fn a_sector_line_with_unreadable_time_counts_as_seen_only() {
    let mut logger = Logger::new("t");
    let mut monitor = OperationMonitor::with_policy(policy(0));
    assert_eq!(monitor.process_sector_writes("Info : sector 1 took ages", &mut logger), LineAction::Counted);
    assert_eq!(monitor.total_sector_count(), 1);
    assert_eq!(monitor.anomalous_write_count(), 0);
    assert!(!monitor.was_terminated_early());
}

#[test]
fn crossing_the_limit_terminates_once() {
    let mut logger = Logger::new("t");
    let mut monitor = OperationMonitor::with_policy(policy(35));
    assert!(monitor.create_line_monitor());
    let mut actions = Vec::new();
    for i in 0..40u32 {
        let ms = if i % 10 == 9 { 20 } else { 1 };
        actions.push(monitor.process_sector_writes(&sector_line(i, ms), &mut logger));
    }
    // Lines 9, 19, 29 and 39 are normal: the 36th anomalous line is line 38.
    for (i, action) in actions.iter().enumerate() {
        let expected = if i < 38 {
            LineAction::Counted
        } else if i == 38 {
            LineAction::Terminate
        } else {
            LineAction::Ignored
        };
        assert_eq!(*action, expected);
    }
    assert!(monitor.was_terminated_early());
    assert!(!monitor.is_monitor_running());
    assert_eq!(monitor.anomalous_write_count(), 36);
    assert_eq!(monitor.total_sector_count(), 39);
    let entries = logger.get_entries();
    assert_eq!(entries.len(), 1);
    assert_eq!(entries[0].level, LogLevel::Error);
    assert_eq!(entries[0].message, "Operation terminated early - too many anomalous sector writes detected.");
}

#[test]
fn nothing_is_counted_after_termination() {
    let mut logger = Logger::new("t");
    let mut monitor = OperationMonitor::with_policy(policy(0));
    assert_eq!(monitor.process_sector_writes(&sector_line(1, 1), &mut logger), LineAction::Terminate);
    assert_eq!(monitor.process_sector_writes(&sector_line(1, 1), &mut logger), LineAction::Ignored);
    assert_eq!(monitor.process_sector_writes(&sector_line(2, 50), &mut logger), LineAction::Ignored);
    assert_eq!(monitor.total_sector_count(), 1);
    assert_eq!(monitor.anomalous_write_count(), 1);
    assert_eq!(logger.get_entries().len(), 1);
}

#[test]
fn the_limit_itself_is_tolerated() {
    let mut logger = Logger::new("t");
    let mut monitor = OperationMonitor::with_policy(policy(3));
    for i in 0..3 {
        assert_eq!(monitor.process_sector_writes(&sector_line(i, 1), &mut logger), LineAction::Counted);
    }
    assert!(!monitor.was_terminated_early());
    assert_eq!(monitor.process_sector_writes(&sector_line(3, 1), &mut logger), LineAction::Terminate);
}

#[test]
fn without_auto_terminate_nothing_terminates() {
    let mut logger = Logger::new("t");
    let mut monitor = OperationMonitor::with_policy(policy(2));
    monitor.set_auto_terminate(false);
    monitor.create_line_monitor();
    for i in 0..100 {
        assert_eq!(monitor.process_sector_writes(&sector_line(i, 1), &mut logger), LineAction::Counted);
        assert_eq!(monitor.watchdog_check(&mut logger), WatchdogAction::Continue);
    }
    assert_eq!(monitor.anomalous_write_count(), 100);
    assert!(!monitor.was_terminated_early());
    assert!(logger.get_entries().is_empty());
}

#[test]
fn slow_writes_can_be_the_anomaly() {
    let mut logger = Logger::new("t");
    let mut monitor = OperationMonitor::with_policy(MonitorPolicy {
        threshold_ms: 100,
        quick_is_anomalous: false,
        max_anomalous: 1,
    });
    assert_eq!(monitor.process_sector_writes(&sector_line(0, 5), &mut logger), LineAction::Counted);
    assert_eq!(monitor.process_sector_writes(&sector_line(1, 500), &mut logger), LineAction::Counted);
    assert_eq!(monitor.process_sector_writes(&sector_line(2, 100), &mut logger), LineAction::Counted);
    assert_eq!(monitor.process_sector_writes(&sector_line(3, 101), &mut logger), LineAction::Terminate);
}

#[test]
fn handle_sector_write_counts_any_line() {
    let mut logger = Logger::new("t");
    let mut monitor = OperationMonitor::with_policy(policy(5));
    assert_eq!(monitor.handle_sector_write("took 3", &mut logger), LineAction::Counted);
    assert_eq!(monitor.total_sector_count(), 1);
    assert_eq!(monitor.anomalous_write_count(), 1);
    assert_eq!(monitor.handle_sector_write("nothing here", &mut logger), LineAction::Counted);
    assert_eq!(monitor.total_sector_count(), 2);
    assert_eq!(monitor.anomalous_write_count(), 1);
}

#[test]
fn the_watchdog_starts_once() {
    let mut monitor = OperationMonitor::new();
    assert!(!monitor.is_monitor_running());
    assert!(monitor.create_line_monitor());
    assert!(monitor.is_monitor_running());
    assert!(!monitor.create_line_monitor());
    monitor.stop_monitor_thread();
    assert!(!monitor.is_monitor_running());
    assert!(monitor.create_line_monitor());
}

#[test]
fn a_stopped_watchdog_ends() {
    let mut logger = Logger::new("t");
    let mut monitor = OperationMonitor::new();
    assert_eq!(monitor.watchdog_check(&mut logger), WatchdogAction::Stop);
    monitor.create_line_monitor();
    assert_eq!(monitor.watchdog_check(&mut logger), WatchdogAction::Continue);
    monitor.stop_monitor_thread();
    assert_eq!(monitor.watchdog_check(&mut logger), WatchdogAction::Stop);
}

#[test]
fn the_watchdog_needs_two_checks_in_a_row() {
    let mut logger = Logger::new("t");
    let mut monitor = OperationMonitor::with_policy(policy(1));
    monitor.set_auto_terminate(false);
    monitor.create_line_monitor();
    monitor.process_sector_writes(&sector_line(0, 1), &mut logger);
    monitor.process_sector_writes(&sector_line(1, 1), &mut logger);
    assert_eq!(monitor.watchdog_check(&mut logger), WatchdogAction::Continue);
    monitor.set_auto_terminate(true);
    assert_eq!(monitor.watchdog_check(&mut logger), WatchdogAction::Continue);
    monitor.set_auto_terminate(false);
    assert_eq!(monitor.watchdog_check(&mut logger), WatchdogAction::Continue);
    monitor.set_auto_terminate(true);
    assert_eq!(monitor.watchdog_check(&mut logger), WatchdogAction::Continue);
    assert!(!monitor.was_terminated_early());
    assert_eq!(monitor.watchdog_check(&mut logger), WatchdogAction::Terminate);
    assert!(monitor.was_terminated_early());
    assert!(!monitor.is_monitor_running());
    assert_eq!(monitor.watchdog_check(&mut logger), WatchdogAction::Stop);
    let entries = logger.get_entries();
    assert_eq!(entries.len(), 1);
    assert_eq!(entries[0].message, "Operation terminated early due to connection issues.");
}

#[test]
fn reset_clears_counters_and_flags() {
    let mut logger = Logger::new("t");
    let mut monitor = OperationMonitor::with_policy(policy(0));
    monitor.create_line_monitor();
    monitor.process_sector_writes(&sector_line(0, 1), &mut logger);
    assert!(monitor.was_terminated_early());
    monitor.reset_counters();
    assert!(!monitor.was_terminated_early());
    assert!(!monitor.is_monitor_running());
    assert_eq!(monitor.total_sector_count(), 0);
    assert_eq!(monitor.anomalous_write_count(), 0);
    assert_eq!(monitor.process_sector_writes(&sector_line(0, 50), &mut logger), LineAction::Counted);
}

#[test]
fn lines_and_watchdog_terminate_only_once() {
    let mut logger = Logger::new("t");
    let mut monitor = OperationMonitor::with_policy(policy(1));
    monitor.create_line_monitor();
    monitor.set_auto_terminate(false);
    monitor.process_sector_writes(&sector_line(0, 1), &mut logger);
    monitor.process_sector_writes(&sector_line(1, 1), &mut logger);
    monitor.set_auto_terminate(true);
    // The watchdog sees the limit exceeded once; the next line acts first.
    assert_eq!(monitor.watchdog_check(&mut logger), WatchdogAction::Continue);
    assert_eq!(monitor.process_sector_writes(&sector_line(2, 50), &mut logger), LineAction::Terminate);
    assert_eq!(monitor.watchdog_check(&mut logger), WatchdogAction::Stop);
    assert_eq!(monitor.process_sector_writes(&sector_line(3, 1), &mut logger), LineAction::Ignored);
    assert_eq!(logger.get_entries().len(), 1);
    assert_eq!(monitor.total_sector_count(), 3);
}
