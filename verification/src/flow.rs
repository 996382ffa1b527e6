//! The screens of the application and the rules by which it moves between
//! them.

use vstd::prelude::*;
use crate::decimal::{decimal, push_decimal};
use crate::file_checker::{CheckStatus, CheckStatusView, FileChecker, SUCCESS_TRANSITION_DELAY};
use crate::manager::FlashingManager;
use crate::process::elapsed_since;
use crate::types::FlashingOption;

verus! {

/// Milliseconds after the start before the file check begins.
pub const INITIAL_CHECK_DELAY_MS: u64 = 100;

/// Milliseconds between the first two scans for firmware files.
pub const FIRST_FIRMWARE_SCAN_INTERVAL_MS: u64 = 100;

/// Milliseconds between later scans for firmware files.
pub const SUBSEQUENT_FIRMWARE_SCAN_INTERVAL_MS: u64 = 3000;

/// Milliseconds for which a scan is shown as under way.
pub const FIRMWARE_SCAN_INDICATOR_DURATION_MS: u64 = 500;

/// Milliseconds for which the progress of a DNA read stays on display.
pub const DNA_MIN_DISPLAY_TIME_MS: u64 = 100;

/// Milliseconds for which a final status must have stood before it is
/// trusted.
pub const STATUS_STABILITY_WAIT_MS: u64 = 250;

#[derive(Clone, Copy, Debug, PartialEq, Eq, Structural)]
pub enum AppState {
    FileCheck,
    OperationSelection,
    FirmwareSelection,
    FlashingOptions,
    Flashing,
    Result,
}

#[derive(Clone, Copy, Debug, PartialEq, Eq, Structural)]
pub enum WindowSizeType {
    FileCheck,
    MissingFiles,
    OperationSelection,
    FileSelection,
    FlashOptionSelection,
    ReadOptionSelection,
    OperationResult,
}

/// The window size that a screen asks for.
pub open spec fn window_size_for(
    state: AppState,
    check: CheckStatusView,
    option: Option<FlashingOption>,
) -> WindowSizeType {
    match state {
        AppState::FileCheck => if check matches CheckStatusView::Complete(result)
            && result.error_count > 0 {
            WindowSizeType::MissingFiles
        } else {
            WindowSizeType::FileCheck
        },
        AppState::OperationSelection => WindowSizeType::OperationSelection,
        AppState::FirmwareSelection => WindowSizeType::FileSelection,
        AppState::FlashingOptions => if option matches Some(o) && o.dna_read() {
            WindowSizeType::ReadOptionSelection
        } else {
            WindowSizeType::FlashOptionSelection
        },
        AppState::Flashing | AppState::Result => WindowSizeType::OperationResult,
    }
}

/// The file check after a look at the clock: a check that found every file
/// becomes a success, and a success that has been shown for longer than
/// the delay is ready to give way.
pub open spec fn check_advanced(check: CheckStatusView, now: u64) -> CheckStatusView {
    match check {
        CheckStatusView::Complete(result) => if result.error_count == 0 {
            CheckStatusView::Success(now)
        } else {
            check
        },
        CheckStatusView::Success(at) => if elapsed_since(at, now) > SUCCESS_TRANSITION_DELAY
            * 1000 {
            CheckStatusView::ReadyToTransition
        } else {
            check
        },
        _ => check,
    }
}

/// The result of an operation may be shown: the operation has ended, a DNA
/// read has been on display for long enough, and the status has stood for
/// long enough.
pub open spec fn result_ready(
    completed: bool,
    dna_read_started: Option<u64>,
    last_status_change: Option<u64>,
    now: u64,
) -> bool {
    &&& completed
    &&& dna_read_started matches Some(at) ==> elapsed_since(at, now) > DNA_MIN_DISPLAY_TIME_MS
    &&& last_status_change matches Some(at) ==> elapsed_since(at, now) >= STATUS_STABILITY_WAIT_MS
}

/// A scan for firmware files is due: none is shown as under way, and
/// either none was made yet or the interval has passed.
pub open spec fn scan_due(scan_count: usize, scanning: bool, since_last_scan: u64) -> bool {
    !scanning && (scan_count == 0 || since_last_scan >= (if scan_count <= 1 {
        FIRST_FIRMWARE_SCAN_INTERVAL_MS
    } else {
        SUBSEQUENT_FIRMWARE_SCAN_INTERVAL_MS
    }))
}

fn since(at: u64, now: u64) -> (elapsed: u64)
    ensures
        elapsed == elapsed_since(at, now),
{
    if now >= at {
        now - at
    } else {
        0
    }
}

pub fn get_window_size_type(
    state: &AppState,
    check: &CheckStatus,
    option: Option<&FlashingOption>,
) -> (size: WindowSizeType)
    ensures
        size == window_size_for(
            *state,
            check@,
            match option {
                Some(o) => Some(*o),
                None => None,
            },
        ),
{
    match state {
        AppState::FileCheck => {
            match check {
                CheckStatus::Complete(result) => {
                    if result.error_count > 0 {
                        return WindowSizeType::MissingFiles;
                    }
                },
                _ => {},
            }
            WindowSizeType::FileCheck
        },
        AppState::OperationSelection => WindowSizeType::OperationSelection,
        AppState::FirmwareSelection => WindowSizeType::FileSelection,
        AppState::FlashingOptions => {
            let dna = match option {
                Some(o) => o.is_dna_read(),
                None => false,
            };
            if dna {
                WindowSizeType::ReadOptionSelection
            } else {
                WindowSizeType::FlashOptionSelection
            }
        },
        AppState::Flashing | AppState::Result => WindowSizeType::OperationResult,
    }
}

/// Advances the file check at clock reading `now_ms` and tells the screen
/// to show: the operation selection once the check is ready to give way.
pub fn handle_file_check_state(checker: &mut FileChecker, now_ms: u64) -> (next: AppState)
    ensures
        final(checker).status@ == check_advanced(old(checker).status@, now_ms),
        next == (if final(checker).status@ is ReadyToTransition {
            AppState::OperationSelection
        } else {
            AppState::FileCheck
        }),
{
    let advance: Option<CheckStatus> = match &checker.status {
        CheckStatus::Complete(result) => {
            if result.error_count == 0 {
                Some(CheckStatus::Success(now_ms))
            } else {
                None
            }
        },
        CheckStatus::Success(at) => {
            if since(*at, now_ms) > SUCCESS_TRANSITION_DELAY * 1000 {
                Some(CheckStatus::ReadyToTransition)
            } else {
                None
            }
        },
        _ => None,
    };
    match advance {
        Some(status) => {
            checker.status = status;
        },
        None => {},
    }
    match &checker.status {
        CheckStatus::ReadyToTransition => AppState::OperationSelection,
        _ => AppState::FileCheck,
    }
}

/// Tests whether the result of the operation may be shown at `now_ms`.
pub fn should_show_result(
    manager: &FlashingManager,
    dna_read_started: Option<u64>,
    now_ms: u64,
) -> (ready: bool)
    ensures
        ready == result_ready(
            manager@.status().terminal(),
            dna_read_started,
            manager@.last_status_change,
            now_ms,
        ),
{
    if !manager.check_if_completed() {
        return false;
    }
    let shown_long_enough = match dna_read_started {
        Some(at) => since(at, now_ms) > DNA_MIN_DISPLAY_TIME_MS,
        None => true,
    };
    let stable = match manager.get_last_status_change_time() {
        Some(at) => since(at, now_ms) >= STATUS_STABILITY_WAIT_MS,
        None => true,
    };
    shown_long_enough && stable
}

/// Tests whether a scan for firmware files is due.
pub fn should_scan_firmware(scan_count: usize, scanning: bool, since_last_scan_ms: u64) -> (due:
    bool)
    ensures
        due == scan_due(scan_count, scanning, since_last_scan_ms),
{
    let interval = if scan_count <= 1 {
        FIRST_FIRMWARE_SCAN_INTERVAL_MS
    } else {
        SUBSEQUENT_FIRMWARE_SCAN_INTERVAL_MS
    };
    !scanning && (scan_count == 0 || since_last_scan_ms >= interval)
}

/// What a successful file check announces while it is on display: the
/// whole seconds that are left, or nothing once the delay has passed.
pub open spec fn countdown_text(since: u64, now: u64) -> Option<Seq<char>> {
    let elapsed = elapsed_since(since, now) / 1000;
    if elapsed <= SUCCESS_TRANSITION_DELAY {
        let remaining = (SUCCESS_TRANSITION_DELAY - elapsed) as nat;
        Some(
            "Continuing automatically in "@ + decimal(remaining) + (if remaining == 1 {
                " second..."@
            } else {
                " seconds..."@
            }),
        )
    } else {
        None
    }
}

/// Renders the countdown of a successful file check.
pub fn countdown(since_ms: u64, now_ms: u64) -> (text: Option<String>)
    ensures
        match text {
            Some(t) => countdown_text(since_ms, now_ms) == Some(t@),
            None => countdown_text(since_ms, now_ms) is None,
        },
{
    let elapsed = since(since_ms, now_ms) / 1000;
    if elapsed <= SUCCESS_TRANSITION_DELAY {
        let remaining = SUCCESS_TRANSITION_DELAY - elapsed;
        let mut text = String::from_str("Continuing automatically in ");
        push_decimal(&mut text, remaining);
        if remaining == 1 {
            text.append(" second...");
        } else {
            text.append(" seconds...");
        }
        Some(text)
    } else {
        None
    }
}

/// The log is shown while an operation runs and with its result.
pub fn should_show_log(state: &AppState) -> (show: bool)
    ensures
        show == (*state == AppState::Flashing || *state == AppState::Result),
{
    match state {
        AppState::Flashing | AppState::Result => true,
        _ => false,
    }
}

} // verus!
