use firmware_tool::cleanup::{
    cleanup_temp_files, perform_startup_cleanup, terminate_lingering_processes, terminate_process,
    KillOutcome,
};
use firmware_tool::dna::{DnaReader, RemovalOutcome};
use firmware_tool::file_checker::{
    file_kind, group_files, perform_file_check, required_file_list, CheckStatus, FileCheckResult,
    FileChecker, FileKind, REQUIRED_FILE_COUNT, SUCCESS_TRANSITION_DELAY,
};
use firmware_tool::firmware_discovery::{
    comes_before, is_firmware_file, name_of, FirmwareManager,
};
use firmware_tool::flow::{
    countdown,
    get_window_size_type, handle_file_check_state, should_scan_firmware, should_show_log,
    should_show_result, AppState, WindowSizeType,
};
use firmware_tool::logger::Logger;
use firmware_tool::manager::FlashingManager;
use firmware_tool::process::{CommandOptions, ExitOutcome};
use firmware_tool::types::FlashingOption;

fn chars(s: &str) -> Vec<char> {
    s.chars().collect()
}

fn strings(items: &[&str]) -> Vec<String> {
    items.iter().map(|s| s.to_string()).collect()
}

fn debug_logger() -> Logger {
    let mut logger = Logger::new("t");
    logger.set_debug_mode(true);
    logger
}

fn messages(logger: &Logger) -> Vec<String> {
    logger.get_entries().into_iter().map(|e| e.message).collect()
}

#[test]
fn the_required_files() {
    let files = required_file_list();
    assert_eq!(files.len(), REQUIRED_FILE_COUNT);
    assert_eq!(files.len(), 23);
    assert_eq!(files[0], "OpenOCD/openocd-347.exe");
    assert_eq!(files[9], "OpenOCD/libftdi1-config");
    assert_eq!(files[22], "OpenOCD/DNA/init_232_100t.cfg");
}

#[test]
fn missing_files_are_listed_in_order() {
    let mut present = vec![true; 23];
    assert_eq!(perform_file_check(&present), FileCheckResult { missing_files: vec![], error_count: 0 });
    present[1] = false;
    present[13] = false;
    let result = perform_file_check(&present);
    assert_eq!(result.error_count, 2);
    assert_eq!(result.missing_files, vec!["OpenOCD/openocd.exe", "OpenOCD/flash/xc7a35T.cfg"]);
    // Files that were not looked at count as missing.
    let result = perform_file_check(&[true; 21]);
    assert_eq!(result.missing_files, vec!["OpenOCD/DNA/init_232_75t.cfg", "OpenOCD/DNA/init_232_100t.cfg"]);
    assert_eq!(perform_file_check(&[]).error_count, 23);
}

#[test]
fn the_checker_reports_its_progress() {
    let mut checker = FileChecker::new();
    assert_eq!(checker.get_status(), CheckStatus::NotStarted);
    checker.note_checking(2);
    assert_eq!(checker.get_status(), CheckStatus::Checking("OpenOCD/cygwin1.dll".to_string()));
    checker.note_checking(23);
    assert_eq!(checker.get_status(), CheckStatus::Checking("OpenOCD/cygwin1.dll".to_string()));
    checker.finish_check(&[true; 23]);
    assert_eq!(checker.get_status(), CheckStatus::Complete(FileCheckResult { missing_files: vec![], error_count: 0 }));
    *checker.get_status_mut() = CheckStatus::ReadyToTransition;
    assert_eq!(checker.get_status(), CheckStatus::ReadyToTransition);
}

#[test]
fn a_successful_check_gives_way_after_the_delay() {
    let mut checker = FileChecker::new();
    assert_eq!(handle_file_check_state(&mut checker, 0), AppState::FileCheck);
    assert_eq!(checker.get_status(), CheckStatus::NotStarted);
    checker.finish_check(&[true; 23]);
    assert_eq!(handle_file_check_state(&mut checker, 500), AppState::FileCheck);
    assert_eq!(checker.get_status(), CheckStatus::Success(500));
    assert_eq!(handle_file_check_state(&mut checker, 1500), AppState::FileCheck);
    assert_eq!(checker.get_status(), CheckStatus::Success(500));
    assert_eq!(handle_file_check_state(&mut checker, 1501), AppState::OperationSelection);
    assert_eq!(checker.get_status(), CheckStatus::ReadyToTransition);
    assert_eq!(handle_file_check_state(&mut checker, 1502), AppState::OperationSelection);
    assert_eq!(SUCCESS_TRANSITION_DELAY, 1);
}

#[test]
fn a_failed_check_stays() {
    let mut checker = FileChecker::new();
    checker.finish_check(&[false; 23]);
    let before = checker.get_status();
    assert_eq!(handle_file_check_state(&mut checker, 99_999), AppState::FileCheck);
    assert_eq!(checker.get_status(), before);
}

#[test]
fn window_sizes() {
    let fine = CheckStatus::Complete(FileCheckResult { missing_files: vec![], error_count: 0 });
    let bad = CheckStatus::Complete(FileCheckResult { missing_files: strings(&["x"]), error_count: 1 });
    assert_eq!(get_window_size_type(&AppState::FileCheck, &CheckStatus::NotStarted, None), WindowSizeType::FileCheck);
    assert_eq!(get_window_size_type(&AppState::FileCheck, &fine, None), WindowSizeType::FileCheck);
    assert_eq!(get_window_size_type(&AppState::FileCheck, &bad, None), WindowSizeType::MissingFiles);
    assert_eq!(get_window_size_type(&AppState::OperationSelection, &bad, None), WindowSizeType::OperationSelection);
    assert_eq!(get_window_size_type(&AppState::FirmwareSelection, &bad, None), WindowSizeType::FileSelection);
    assert_eq!(get_window_size_type(&AppState::FlashingOptions, &fine, Some(&FlashingOption::DnaCH347)), WindowSizeType::ReadOptionSelection);
    assert_eq!(get_window_size_type(&AppState::FlashingOptions, &fine, Some(&FlashingOption::CH347_35T)), WindowSizeType::FlashOptionSelection);
    assert_eq!(get_window_size_type(&AppState::FlashingOptions, &fine, None), WindowSizeType::FlashOptionSelection);
    assert_eq!(get_window_size_type(&AppState::Flashing, &fine, None), WindowSizeType::OperationResult);
    assert_eq!(get_window_size_type(&AppState::Result, &fine, None), WindowSizeType::OperationResult);
    assert!(should_show_log(&AppState::Flashing));
    assert!(should_show_log(&AppState::Result));
    assert!(!should_show_log(&AppState::FileCheck));
}

#[test]
fn a_result_is_shown_once_the_status_has_settled() {
    let mut manager = FlashingManager::new_with_logger(Logger::new("t"));
    manager.execute_flash("fw.bin", &FlashingOption::CH347_35T, Ok(()), 1000);
    assert!(!should_show_result(&manager, None, 5000));
    manager.process_exited(&ExitOutcome::Exited(Some(0)), &CommandOptions { update_duration: true, cleanup_temp_files: true }, 2000);
    manager.track_status(2000);
    assert!(!should_show_result(&manager, None, 2249));
    assert!(should_show_result(&manager, None, 2250));
    assert!(!should_show_result(&manager, Some(2200), 2300));
    assert!(should_show_result(&manager, Some(2200), 2301));
}

#[test]
fn scans_are_paced() {
    assert!(should_scan_firmware(0, false, 0));
    assert!(!should_scan_firmware(0, true, 0));
    assert!(!should_scan_firmware(1, false, 99));
    assert!(should_scan_firmware(1, false, 100));
    assert!(!should_scan_firmware(2, false, 2999));
    assert!(should_scan_firmware(2, false, 3000));
    assert!(!should_scan_firmware(2, true, 3000));
}

#[test]
fn kinds_of_files() {
    assert_eq!(file_kind("OpenOCD/openocd.exe"), FileKind::Executable);
    assert_eq!(file_kind("OpenOCD/cygwin1.dll"), FileKind::Library);
    assert_eq!(file_kind("a.bit"), FileKind::Bitstream);
    assert_eq!(file_kind("a.cfg"), FileKind::Config);
    assert_eq!(file_kind("OpenOCD/libftdi1-config"), FileKind::Other);
    assert_eq!(file_kind("exe"), FileKind::Other);
    assert_eq!(file_kind(".exe"), FileKind::Executable);
}

#[test]
fn files_are_grouped_in_order() {
    let groups = group_files(&strings(&["b.exe", "x.cfg", "a.exe", "lib.dll", "plain", "s.bit", "y.cfg"]));
    assert_eq!(groups.executables, vec!["b.exe", "a.exe"]);
    assert_eq!(groups.libraries, vec!["lib.dll"]);
    assert_eq!(groups.bitstreams, vec!["s.bit"]);
    assert_eq!(groups.configs, vec!["x.cfg", "y.cfg"]);
    assert_eq!(groups.others, vec!["plain"]);
}

#[test]
fn file_names() {
    assert_eq!(name_of("a/b/c.bin"), chars("c.bin"));
    assert_eq!(name_of("a\\b\\c.bin"), chars("c.bin"));
    assert_eq!(name_of("c.bin"), chars("c.bin"));
    assert_eq!(name_of("a/"), chars(""));
    assert_eq!(name_of(""), chars(""));
    assert!(is_firmware_file("./fw/image.bin"));
    assert!(!is_firmware_file("./fw/image.bit"));
    assert!(!is_firmware_file("./fw/.bin"));
    assert!(!is_firmware_file("./fw.bin/image"));
}

#[test]
fn dictionary_order() {
    assert!(comes_before(&chars("a"), &chars("b")));
    assert!(comes_before(&chars("a"), &chars("ab")));
    assert!(comes_before(&chars(""), &chars("a")));
    assert!(!comes_before(&chars("a"), &chars("a")));
    assert!(!comes_before(&chars("b"), &chars("ab")));
    assert!(comes_before(&chars("B"), &chars("a")));
    for (a, b) in [("x", "y"), ("abc", "abd"), ("abc", "ab"), ("", ""), ("é", "z")] {
        assert_eq!(comes_before(&chars(a), &chars(b)), a < b);
    }
}

#[test]
fn images_are_kept_once_per_name_in_name_order() {
    let found = strings(&["./b.bin", "fw/a.bin", "bin/b.bin", "./c.bin", "x/a.bin"]);
    assert_eq!(FirmwareManager::deduplicate_firmware_files(&found), vec!["fw/a.bin", "./b.bin", "./c.bin"]);
    assert_eq!(FirmwareManager::deduplicate_firmware_files(&vec![]), Vec::<String>::new());
    let mut expected = found.clone();
    expected.sort_by(|a, b| a.rsplit('/').next().unwrap().cmp(b.rsplit('/').next().unwrap()));
    expected.dedup_by(|a, b| a.rsplit('/').next().unwrap() == b.rsplit('/').next().unwrap());
    assert_eq!(FirmwareManager::deduplicate_firmware_files(&found), expected);
}

#[test]
fn a_single_image_is_chosen_by_itself() {
    let mut manager = FirmwareManager::new();
    assert_eq!(manager.get_scan_count(), 0);
    assert_eq!(manager.get_selected_firmware(), None);
    manager.scan_firmware_files(&strings(&["./only.bin", "bin/only.bin"]));
    assert_eq!(manager.get_scan_count(), 1);
    assert_eq!(manager.get_firmware_files(), &strings(&["./only.bin"]));
    assert_eq!(manager.get_selected_firmware(), Some(&"./only.bin".to_string()));
}

#[test]
fn a_choice_stays_while_it_names_an_image() {
    let mut manager = FirmwareManager::new();
    manager.scan_firmware_files(&strings(&["a.bin", "b.bin", "c.bin"]));
    assert_eq!(manager.get_selected_firmware(), None);
    assert_eq!(manager.select_firmware(3), None);
    assert_eq!(manager.get_selected_firmware(), None);
    assert_eq!(manager.select_firmware(2), Some("c.bin".to_string()));
    assert_eq!(manager.get_selected_firmware(), Some(&"c.bin".to_string()));
    manager.scan_firmware_files(&strings(&["a.bin", "b.bin", "d.bin"]));
    assert_eq!(manager.get_selected_firmware(), Some(&"d.bin".to_string()));
    manager.scan_firmware_files(&strings(&["a.bin", "b.bin"]));
    assert_eq!(manager.get_selected_firmware(), None);
    manager.scan_firmware_files(&vec![]);
    assert_eq!(manager.get_selected_firmware(), None);
    assert_eq!(manager.get_scan_count(), 4);
}

#[test]
fn the_cleanup_flag() {
    let mut manager = FirmwareManager::new();
    assert!(!manager.get_cleanup_enabled());
    manager.set_cleanup_enabled(true);
    assert!(manager.get_cleanup_enabled());
}

#[test]
fn search_directories() {
    let manager = FirmwareManager::new();
    assert_eq!(manager.create_search_dirs("/opt/tool", false), vec![".", "/opt/tool", "resources", "bin", "firmware", "fw"]);
    assert_eq!(
        manager.create_search_dirs("/opt/tool", true),
        vec![".", "/opt/tool", "resources", "bin", "firmware", "fw", "target/debug", "/opt/tool/../"]
    );
}

#[test]
fn the_startup_cleanup_names_processes_and_files() {
    let mut logger = debug_logger();
    let plan = perform_startup_cleanup(&mut logger);
    assert_eq!(plan.processes, vec!["openocd.exe", "openocd-347.exe"]);
    assert_eq!(plan.files, vec!["FIRMWARE.bin", "OpenOCD/openocd_output.log"]);
    assert_eq!(messages(&logger), vec!["Performing startup cleanup..."]);
    let mut quiet = Logger::new("t");
    perform_startup_cleanup(&mut quiet);
    assert!(quiet.get_entries().is_empty());
}

#[test]
fn cleanup_outcomes_are_only_logged() {
    let mut logger = debug_logger();
    terminate_lingering_processes("openocd.exe", &KillOutcome::Ran { success: true, stdout: "SUCCESS: terminated".to_string() }, &mut logger);
    terminate_lingering_processes("openocd.exe", &KillOutcome::Ran { success: false, stdout: "ERROR: not found".to_string() }, &mut logger);
    terminate_lingering_processes("openocd.exe", &KillOutcome::Failed("no taskkill".to_string()), &mut logger);
    cleanup_temp_files("FIRMWARE.bin", &Ok(()), &mut logger);
    cleanup_temp_files("FIRMWARE.bin", &Err("denied".to_string()), &mut logger);
    assert_eq!(
        messages(&logger),
        vec![
            "Terminated lingering openocd.exe processes",
            "No openocd.exe processes to terminate or error: no taskkill",
            "Removed temporary file: FIRMWARE.bin",
            "Failed to remove FIRMWARE.bin: denied",
        ]
    );
}

#[test]
fn a_kill_succeeds_by_status_or_by_output() {
    assert!(terminate_process(&KillOutcome::Ran { success: true, stdout: String::new() }));
    assert!(terminate_process(&KillOutcome::Ran { success: false, stdout: "SUCCESS: The process was terminated".to_string() }));
    assert!(!terminate_process(&KillOutcome::Ran { success: false, stdout: "ERROR: not found".to_string() }));
    assert!(!terminate_process(&KillOutcome::Failed("SUCCESS".to_string())));
}

#[test]
fn removing_a_stale_artifact_is_only_logged() {
    let mut logger = debug_logger();
    DnaReader::cleanup_dna_output_file(&RemovalOutcome::Removed, &mut logger);
    DnaReader::cleanup_dna_output_file(&RemovalOutcome::NotFound, &mut logger);
    DnaReader::cleanup_dna_output_file(&RemovalOutcome::Failed("in use".to_string()), &mut logger);
    assert_eq!(
        messages(&logger),
        vec![
            "Successfully removed previous DNA output file",
            "No previous DNA output file found (which is expected)",
            "Could not remove previous DNA output file: in use",
        ]
    );
}

#[test]
fn the_artifact_is_looked_for_in_three_places() {
    assert_eq!(
        DnaReader::get_possible_dna_file_paths("/work"),
        vec!["OpenOCD/openocd_output.log", "./OpenOCD/openocd_output.log", "/work/OpenOCD/openocd_output.log"]
    );
}

#[test]
fn the_countdown_of_a_successful_check() {
    assert_eq!(countdown(1000, 1000), Some("Continuing automatically in 1 second...".to_string()));
    assert_eq!(countdown(1000, 1999), Some("Continuing automatically in 1 second...".to_string()));
    assert_eq!(countdown(1000, 2000), Some("Continuing automatically in 0 seconds...".to_string()));
    assert_eq!(countdown(1000, 2999), Some("Continuing automatically in 0 seconds...".to_string()));
    assert_eq!(countdown(1000, 3000), None);
    assert_eq!(countdown(1000, 10), Some("Continuing automatically in 1 second...".to_string()));
}
