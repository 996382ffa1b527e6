use firmware_tool::logger::{LogEntry, LogLevel, Logger};
use firmware_tool::manager::FlashingManager;
use firmware_tool::outcome::{
    assess_flash_result, extract_sector_time, format_duration_line, FlashAssessment,
};
use firmware_tool::process::{CommandOptions, ExitOutcome};
use firmware_tool::progress::{
    classify_message, determine_current_stage, extract_sector_from_log, get_device_type,
    get_user_friendly_status, latest_stage, ProgressTracker, StageMark,
};
use firmware_tool::types::{CompletionStatus, DnaInfo, FlashingOption};

fn entry(message: &str) -> LogEntry {
    LogEntry { timestamp: 0, message: message.to_string(), level: LogLevel::Output }
}

fn entries(messages: &[&str]) -> Vec<LogEntry> {
    messages.iter().map(|m| entry(m)).collect()
}

fn flashing(lines: &[&str]) -> FlashingManager {
    let mut manager = FlashingManager::new_with_logger(Logger::new("t"));
    manager.execute_flash("fw.bin", &FlashingOption::CH347_35T, Ok(()), 0);
    for line in lines {
        manager.process_output(line, 1);
    }
    manager
}

#[test]
fn sector_numbers() {
    assert_eq!(extract_sector_from_log("Info : sector 25 took 1 ms"), Some(25));
    assert_eq!(extract_sector_from_log("sector   7  took 3"), Some(7));
    assert_eq!(extract_sector_from_log("sector 7"), Some(7));
    assert_eq!(extract_sector_from_log("sector seven took 3"), None);
    assert_eq!(extract_sector_from_log("no such thing"), None);
    assert_eq!(extract_sector_from_log("sector 4294967296 took 1"), None);
}

#[test]
fn sector_numbers_agree_with_std_splitting() {
    for message in ["Info : sector 3 took 9 ms", "sector 1 sector 2 took 3", "sector took", "a sector +4 took", "sector 5took6", "took 1 sector 2"] {
        let expected = message
            .split("sector")
            .nth(1)
            .and_then(|s| s.split("took").next())
            .and_then(|s| s.trim().parse::<u32>().ok());
        assert_eq!(extract_sector_from_log(message), expected);
    }
}

#[test]
fn messages_give_stages_away() {
    assert_eq!(classify_message("Info : sector 2 took 30 ms"), Some(StageMark::Sector(2)));
    assert_eq!(classify_message("Info : sector x took 30 ms"), None);
    assert_eq!(classify_message("Writing the image to the flash memory ..."), Some(StageMark::WritingImage));
    assert_eq!(classify_message("Probing the flash memory"), Some(StageMark::ProbingFlash));
    assert_eq!(classify_message("Resetting and halting the FPGA"), Some(StageMark::ResettingFpga));
    assert_eq!(classify_message("Loading the bitstream"), Some(StageMark::LoadingBitstream));
    assert_eq!(classify_message("Initializing the JTAG interface"), Some(StageMark::InitializingJtag));
    assert_eq!(classify_message("Open On-Chip Debugger"), None);
}

#[test]
fn the_latest_telling_entry_decides() {
    let log = entries(&["Initializing the JTAG interface", "Probing the flash memory", "noise"]);
    assert_eq!(latest_stage(&log), Some(StageMark::ProbingFlash));
    let log = entries(&["Info : sector 1 took 20 ms", "Info : sector ? took 20 ms"]);
    assert_eq!(latest_stage(&log), Some(StageMark::Sector(1)));
    assert_eq!(latest_stage(&entries(&["noise"])), None);
    assert_eq!(latest_stage(&[]), None);
}

#[test]
fn the_stage_of_a_fresh_operation() {
    let manager = flashing(&[]);
    let mut tracker = ProgressTracker::new();
    // The announcement of the operation gives no stage away.
    assert_eq!(determine_current_stage(&manager, &mut tracker, 5), ("Starting operation...".to_string(), None, false));
}

#[test]
fn the_stage_follows_the_log() {
    let mut tracker = ProgressTracker::new();
    let manager = flashing(&["Initializing the JTAG interface"]);
    assert_eq!(determine_current_stage(&manager, &mut tracker, 5), ("Initializing JTAG interface...".to_string(), None, false));
    let manager = flashing(&["Initializing the JTAG interface", "Loading the bitstream"]);
    assert_eq!(determine_current_stage(&manager, &mut tracker, 5), ("Loading bitstream...".to_string(), None, false));
    let manager = flashing(&["Resetting and halting the FPGA"]);
    assert_eq!(determine_current_stage(&manager, &mut tracker, 5), ("Resetting and halting FPGA...".to_string(), None, false));
    let manager = flashing(&["Probing the flash memory"]);
    assert_eq!(determine_current_stage(&manager, &mut tracker, 5), ("Probing flash memory...".to_string(), None, false));
    let manager = flashing(&["Writing the image to the flash memory"]);
    assert_eq!(determine_current_stage(&manager, &mut tracker, 5), ("Writing image to flash memory...".to_string(), None, true));
}

#[test]
fn a_sector_that_stays_means_verifying() {
    let mut tracker = ProgressTracker::new();
    let manager = flashing(&["Writing the image to the flash memory", "Info : sector 12 took 30 ms"]);
    assert_eq!(determine_current_stage(&manager, &mut tracker, 100), ("Writing sector 12...".to_string(), Some(12), true));
    assert_eq!(determine_current_stage(&manager, &mut tracker, 1100), ("Writing sector 12...".to_string(), Some(12), true));
    assert_eq!(determine_current_stage(&manager, &mut tracker, 1101), ("Testing and verifying...".to_string(), Some(12), true));
    tracker.reset();
    assert_eq!(determine_current_stage(&manager, &mut tracker, 1101), ("Writing sector 12...".to_string(), Some(12), true));
}

#[test]
fn the_tracker_remembers_the_first_sight() {
    let mut tracker = ProgressTracker::new();
    assert_eq!(tracker.observe(3, 10), 10);
    assert_eq!(tracker.observe(3, 50), 10);
    assert_eq!(tracker.observe(4, 50), 50);
    tracker.reset();
    assert_eq!(tracker.observe(3, 70), 70);
}

#[test]
fn device_types() {
    assert_eq!(get_device_type(&FlashingOption::DnaCH347), "CH347");
    assert_eq!(get_device_type(&FlashingOption::RS232_35T), "Artix-7 35T (RS232)");
    assert_eq!(get_device_type(&FlashingOption::DnaRS232_35T), "Artix-7 35T (RS232)");
    assert_eq!(get_device_type(&FlashingOption::RS232_75T), "Artix-7 75T (RS232)");
    assert_eq!(get_device_type(&FlashingOption::DnaRS232_75T), "Artix-7 75T (RS232)");
    assert_eq!(get_device_type(&FlashingOption::CH347_35T), "Artix-7 35T (CH347)");
    assert_eq!(get_device_type(&FlashingOption::CH347_75T), "Artix-7 75T (CH347)");
    assert_eq!(get_device_type(&FlashingOption::CH347_100T), "Artix-7 100T (CH347)");
}

#[test]
fn the_status_line_depends_on_the_operation() {
    let mut tracker = ProgressTracker::new();
    let manager = flashing(&["Probing the flash memory"]);
    assert_eq!(get_user_friendly_status(&manager, &mut tracker, 1), "Probing flash memory...");
    let mut manager = FlashingManager::new_with_logger(Logger::new("t"));
    assert_eq!(get_user_friendly_status(&manager, &mut tracker, 1), "Starting operation...");
    manager.execute_dna_read(&FlashingOption::DnaCH347, 0);
    assert_eq!(get_user_friendly_status(&manager, &mut tracker, 1), "Retrieving device DNA...");
    manager.dna_started(Err("x".to_string()), 2);
    assert_eq!(get_user_friendly_status(&manager, &mut tracker, 3), "DNA read failed: Failed to execute DNA read command");
}

#[test]
fn sector_times() {
    assert_eq!(extract_sector_time("[ERROR] Info : sector 25 took 1 ms"), Some(1));
    assert_eq!(extract_sector_time("Info : sector 25 took 18446744073709551615 ms"), Some(u64::MAX));
    assert_eq!(extract_sector_time("Info : sector 25 took 18446744073709551616 ms"), None);
    assert_eq!(extract_sector_time("sector 25 took 1 ms"), None);
    assert_eq!(extract_sector_time("Info : sector 25 took"), None);
    assert_eq!(extract_sector_time("Info : took 4 sector"), Some(4));
}

#[test]
fn a_completed_flash_is_judged_by_its_sector_writes() {
    let done = CompletionStatus::Completed;
    let quick = "Info : sector 1 took 49 ms";
    let slow = "Info : sector 1 took 50 ms";
    assert_eq!(assess_flash_result(&done, &[]), FlashAssessment::ResultUnknown);
    assert_eq!(assess_flash_result(&done, &entries(&["noise"])), FlashAssessment::ResultUnknown);
    assert_eq!(
        assess_flash_result(&done, &entries(&[quick, quick, slow])),
        FlashAssessment::ConnectionIssue { quick_writes: 2, total_sectors: 3 }
    );
    assert_eq!(assess_flash_result(&done, &entries(&[slow, slow, slow, quick])), FlashAssessment::Success);
    assert_eq!(assess_flash_result(&done, &entries(&[slow, quick])), FlashAssessment::UnverifiedSuccess);
    assert_eq!(
        assess_flash_result(&done, &entries(&[slow, quick, "Firmware flash completed successfully"])),
        FlashAssessment::Success
    );
    assert_eq!(assess_flash_result(&done, &entries(&["Firmware flash completed successfully!"])), FlashAssessment::Success);
    assert_eq!(
        assess_flash_result(&done, &entries(&[quick, "Firmware flash completed successfully"])),
        FlashAssessment::ConnectionIssue { quick_writes: 1, total_sectors: 1 }
    );
}

#[test]
fn other_statuses_are_passed_on() {
    let log = entries(&["Info : sector 1 took 1 ms"]);
    assert_eq!(assess_flash_result(&CompletionStatus::NotCompleted, &log), FlashAssessment::StatusUnknown);
    assert_eq!(assess_flash_result(&CompletionStatus::InProgress("x".to_string()), &log), FlashAssessment::InProgress("x".to_string()));
    assert_eq!(assess_flash_result(&CompletionStatus::Failed("y".to_string()), &log), FlashAssessment::Failed("y".to_string()));
    let info = DnaInfo { dna_value: "0x1".to_string(), dna_raw_value: "1".to_string(), device_type: "FTDI".to_string() };
    assert_eq!(assess_flash_result(&CompletionStatus::DnaReadCompleted(info), &log), FlashAssessment::UnexpectedState);
}

#[test]
fn the_assessment_reads_the_log_of_a_run() {
    let mut manager = flashing(&["Info : sector 0 took 120 ms", "Info : sector 1 took 130 ms", "Info : sector 2 took 2 ms"]);
    manager.process_exited(&ExitOutcome::Exited(Some(0)), &CommandOptions { update_duration: true, cleanup_temp_files: true }, 9000);
    let verdict = assess_flash_result(&manager.get_status(), &manager.logger().get_entries());
    assert_eq!(verdict, FlashAssessment::UnverifiedSuccess);
}

#[test]
fn durations_in_minutes_and_seconds() {
    assert_eq!(format_duration_line(0), "Operation took: 0:00");
    assert_eq!(format_duration_line(59), "Operation took: 0:59");
    assert_eq!(format_duration_line(125), "Operation took: 2:05");
    assert_eq!(format_duration_line(3600), "Operation took: 60:00");
}
