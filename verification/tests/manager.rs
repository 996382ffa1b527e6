use firmware_tool::dna::{ArtifactObservation, PollAction};
use firmware_tool::logger::{LogLevel, Logger};
use firmware_tool::manager::FlashingManager;
use firmware_tool::monitor::{LineAction, MonitorPolicy, OperationMonitor, WatchdogAction};
use firmware_tool::process::{CommandOptions, ExitOutcome};
use firmware_tool::types::{CompletionStatus, DnaInfo, FlashingOption};

const EARLY: &str = "Operation terminated early due to connection issues";

fn manager_with_limit(max: u32) -> FlashingManager {
    let mut manager = FlashingManager::new_with_logger(Logger::new("t"));
    manager.set_monitor(OperationMonitor::with_policy(MonitorPolicy {
        threshold_ms: 10,
        quick_is_anomalous: true,
        max_anomalous: max,
    }));
    manager
}

fn both() -> CommandOptions {
    CommandOptions { update_duration: true, cleanup_temp_files: true }
}

#[test]
fn a_new_manager_is_at_rest() {
    let mut logger = Logger::new("t");
    logger.set_time(7);
    let manager = FlashingManager::new_with_logger(logger);
    assert_eq!(manager.get_status(), CompletionStatus::NotCompleted);
    assert!(!manager.check_if_completed());
    assert_eq!(manager.get_duration(), None);
    assert_eq!(manager.get_current_option(), None);
    assert_eq!(manager.get_last_status_change_time(), Some(7));
    assert!(!manager.is_monitoring());
    assert_eq!(manager.logger().name(), "t");
}

#[test]
fn a_flash_with_normal_writes_completes() {
    let mut manager = manager_with_limit(35);
    let launch = manager.execute_flash("fw.bin", &FlashingOption::CH347_35T, Ok(()), 100).unwrap();
    assert_eq!(launch.command.program, "./OpenOCD/openocd-347.exe");
    assert_eq!(launch.command.args, vec!["-f", "./OpenOCD/flash/xc7a35T.cfg", "-c", "program FIRMWARE.bin; exit"]);
    assert!(launch.start_watchdog);
    assert_eq!(manager.get_status(), CompletionStatus::InProgress("Starting flash operation...".to_string()));
    assert_eq!(manager.get_current_option(), Some(&FlashingOption::CH347_35T));
    assert!(manager.flash_started(Ok(()), 101));
    assert_eq!(manager.get_duration(), Some(1));
    for i in 0..12u64 {
        let line = format!("Info : sector {} took {} ms", i, 10 + i);
        assert_eq!(manager.process_output(&line, 110 + i), LineAction::Counted);
        assert_eq!(manager.watchdog_tick(110 + i), WatchdogAction::Continue);
    }
    assert!(!manager.check_if_completed());
    assert!(manager.process_exited(&ExitOutcome::Exited(Some(0)), &both(), 2600));
    assert_eq!(manager.get_status(), CompletionStatus::Completed);
    assert!(manager.check_if_completed());
    assert_eq!(manager.get_duration(), Some(2500));
    assert!(manager.get_duration().unwrap() > 0);
    assert!(!manager.was_terminated_early());
    let entries = manager.logger().get_entries();
    let last = &entries[entries.len() - 1];
    assert_eq!(last.message, "Command completed successfully");
    assert_eq!(last.timestamp, 2600);
    assert_eq!(entries[entries.len() - 2].message, "Operation took 2.500s");
}

#[test]
fn a_flash_with_too_many_quick_writes_fails() {
    let mut manager = manager_with_limit(35);
    manager.execute_flash("fw.bin", &FlashingOption::CH347_35T, Ok(()), 0).unwrap();
    assert!(manager.flash_started(Ok(()), 1));
    let mut kills = 0;
    for i in 0..40u64 {
        let ms = if i < 36 { 1 } else { 25 };
        let line = format!("Info : sector {} took {} ms", i, ms);
        let action = manager.process_output(&line, 10 + i);
        if action == LineAction::Terminate {
            kills += 1;
            assert_eq!(i, 35);
        }
    }
    assert_eq!(kills, 1);
    assert!(manager.was_terminated_early());
    assert_eq!(manager.get_status(), CompletionStatus::Failed(EARLY.to_string()));
    assert!(manager.check_if_completed());
    assert_eq!(manager.watchdog_tick(60), WatchdogAction::Stop);
    // The killed process reports no exit code: the failure stays a failure.
    manager.process_exited(&ExitOutcome::Exited(None), &both(), 70);
    assert_eq!(manager.get_status(), CompletionStatus::Failed("Command failed with exit code: None".to_string()));
}

#[test]
fn early_termination_overrides_a_clean_exit() {
    let mut manager = manager_with_limit(0);
    manager.execute_flash("fw.bin", &FlashingOption::RS232_75T, Ok(()), 0).unwrap();
    assert_eq!(manager.process_output("Info : sector 0 took 1 ms", 5), LineAction::Terminate);
    manager.process_exited(&ExitOutcome::Exited(Some(0)), &both(), 9);
    assert_eq!(manager.get_status(), CompletionStatus::Failed(EARLY.to_string()));
    assert!(manager.check_if_completed());
}

#[test]
fn error_lines_reach_the_monitor_until_termination() {
    let mut manager = manager_with_limit(1);
    manager.execute_flash("fw.bin", &FlashingOption::CH347_35T, Ok(()), 0).unwrap();
    assert_eq!(manager.process_error_output("Info : sector 0 took 1 ms", 1), LineAction::Counted);
    assert_eq!(manager.process_error_output("Error: something else", 2), LineAction::Ignored);
    assert_eq!(manager.process_error_output("Info : sector 1 took 1 ms", 3), LineAction::Terminate);
    assert_eq!(manager.process_error_output("Info : sector 2 took 1 ms", 4), LineAction::Ignored);
    let entries = manager.logger().get_entries();
    let errors: Vec<&str> = entries.iter().filter(|e| e.level == LogLevel::Error).map(|e| e.message.as_str()).collect();
    assert_eq!(
        errors,
        vec![
            "Info : sector 0 took 1 ms",
            "Error: something else",
            "Info : sector 1 took 1 ms",
            "Operation terminated early - too many anomalous sector writes detected.",
            "Info : sector 2 took 1 ms",
        ]
    );
}

#[test]
fn a_failed_copy_fails_the_flash() {
    let mut manager = manager_with_limit(35);
    assert!(manager.execute_flash("fw.bin", &FlashingOption::CH347_35T, Err("denied".to_string()), 3).is_none());
    assert_eq!(manager.get_status(), CompletionStatus::Failed("Failed to prepare firmware file: denied".to_string()));
    assert!(manager.check_if_completed());
}

#[test]
fn a_failed_start_fails_the_flash() {
    let mut manager = manager_with_limit(35);
    manager.execute_flash("fw.bin", &FlashingOption::CH347_35T, Ok(()), 3).unwrap();
    assert!(!manager.flash_started(Err("no binary".to_string()), 4));
    assert_eq!(
        manager.get_status(),
        CompletionStatus::Failed("Failed to execute firmware flash: Failed to start process: no binary".to_string())
    );
}

#[test]
fn a_new_operation_forgets_the_old_one() {
    let mut manager = manager_with_limit(0);
    manager.execute_flash("fw.bin", &FlashingOption::CH347_35T, Ok(()), 0).unwrap();
    manager.process_output("Info : sector 0 took 1 ms", 5);
    assert!(manager.was_terminated_early());
    manager.execute_flash("fw.bin", &FlashingOption::CH347_75T, Ok(()), 50).unwrap();
    assert!(!manager.was_terminated_early());
    assert_eq!(manager.get_status(), CompletionStatus::InProgress("Starting flash operation...".to_string()));
    assert_eq!(manager.get_current_option(), Some(&FlashingOption::CH347_75T));
    assert_eq!(manager.get_last_status_change_time(), Some(50));
}

#[test]
fn a_dna_read_that_finds_the_artifact() {
    let mut manager = FlashingManager::new_with_logger(Logger::new("t"));
    let launch = manager.execute_dna_read(&FlashingOption::DnaCH347, 0).unwrap();
    assert!(launch.start_poller);
    assert_eq!(launch.command.args, vec!["-f", "./OpenOCD/DNA/init_347.cfg", "-c", "exit"]);
    assert_eq!(manager.get_status(), CompletionStatus::InProgress("Initializing DNA read operation...".to_string()));
    assert_eq!(manager.begin_dna_processing(1), PollAction::Wait(50));
    assert_eq!(manager.get_status(), CompletionStatus::InProgress("Waiting for device response...".to_string()));
    assert!(manager.dna_started(Ok(()), 2));
    // Lines of a DNA read are logged but not monitored.
    assert_eq!(manager.process_output("Info : sector 0 took 1 ms", 3), LineAction::Ignored);
    assert_eq!(manager.poll_dna(&ArtifactObservation::Missing, 51), PollAction::Wait(200));
    manager.process_exited(&ExitOutcome::Exited(Some(0)), &launch.options, 60);
    assert_eq!(manager.get_status(), CompletionStatus::Completed);
    let text = "Info : ftdi: x\nDNA = 0011 (0xAB12)\n".to_string();
    let obs = ArtifactObservation::Found { size: text.len() as u64, contents: text };
    assert_eq!(manager.poll_dna(&obs, 251), PollAction::Finished);
    assert_eq!(
        manager.get_status(),
        CompletionStatus::DnaReadCompleted(DnaInfo {
            dna_value: "0xAB12".to_string(),
            dna_raw_value: "0011".to_string(),
            device_type: "FTDI".to_string(),
        })
    );
    assert!(manager.check_if_completed());
}

#[test]
fn a_dna_read_without_artifact_fails_after_five_attempts() {
    let mut manager = FlashingManager::new_with_logger(Logger::new("t"));
    manager.execute_dna_read(&FlashingOption::DnaRS232_35T, 0).unwrap();
    assert_eq!(manager.begin_dna_processing(0), PollAction::Wait(50));
    let mut now = 50;
    for _ in 0..4 {
        assert_eq!(manager.poll_dna(&ArtifactObservation::Missing, now), PollAction::Wait(200));
        now += 200;
    }
    assert_eq!(manager.poll_dna(&ArtifactObservation::Missing, now), PollAction::Finished);
    assert_eq!(manager.get_status(), CompletionStatus::Failed("DNA output file not found after 5 attempts".to_string()));
}

#[test]
fn a_flash_option_cannot_read_dna() {
    let mut manager = FlashingManager::new_with_logger(Logger::new("t"));
    assert!(manager.execute_dna_read(&FlashingOption::CH347_100T, 0).is_none());
    assert_eq!(manager.get_status(), CompletionStatus::Failed("Invalid option for DNA read".to_string()));
}

#[test]
fn a_failed_dna_start_stops_the_poller() {
    let mut manager = FlashingManager::new_with_logger(Logger::new("t"));
    manager.execute_dna_read(&FlashingOption::DnaCH347, 0).unwrap();
    assert!(!manager.dna_started(Err("missing".to_string()), 1));
    assert_eq!(manager.get_status(), CompletionStatus::Failed("Failed to execute DNA read command".to_string()));
    assert_eq!(manager.begin_dna_processing(2), PollAction::Finished);
    assert_eq!(manager.poll_dna(&ArtifactObservation::Missing, 3), PollAction::Finished);
}

#[test]
fn stop_requests_reach_the_components() {
    let mut manager = manager_with_limit(35);
    manager.execute_flash("fw.bin", &FlashingOption::CH347_35T, Ok(()), 0).unwrap();
    assert_eq!(manager.watchdog_tick(1), WatchdogAction::Continue);
    manager.stop_monitor_thread();
    assert_eq!(manager.watchdog_tick(2), WatchdogAction::Stop);
    manager.execute_dna_read(&FlashingOption::DnaCH347, 3).unwrap();
    manager.stop_dna_thread();
    assert_eq!(manager.begin_dna_processing(4), PollAction::Finished);
}

#[test]
fn status_changes_are_tracked() {
    let mut manager = manager_with_limit(35);
    manager.execute_flash("fw.bin", &FlashingOption::CH347_35T, Ok(()), 10).unwrap();
    assert_eq!(manager.get_last_status_change_time(), Some(10));
    assert_eq!(manager.track_status(20), CompletionStatus::InProgress("Starting flash operation...".to_string()));
    assert_eq!(manager.get_last_status_change_time(), Some(20));
    manager.track_status(30);
    assert_eq!(manager.get_last_status_change_time(), Some(20));
    manager.process_exited(&ExitOutcome::Exited(Some(0)), &both(), 40);
    assert_eq!(manager.track_status(45), CompletionStatus::Completed);
    assert_eq!(manager.get_last_status_change_time(), Some(45));
    manager.track_status(50);
    assert_eq!(manager.get_last_status_change_time(), Some(45));
}
