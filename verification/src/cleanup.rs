//! What is cleared away at startup and when an operation is cut short:
//! the tool's processes and the files that an operation leaves behind.

use vstd::prelude::*;
use crate::logger::{Logger, LoggerView};
use crate::text::{contains, includes, to_chars};

verus! {

/// The names under which the tool's processes run.
pub open spec fn tool_processes() -> Seq<Seq<char>> {
    seq!["openocd.exe"@, "openocd-347.exe"@]
}

/// The files that an operation leaves behind.
pub open spec fn leftover_files() -> Seq<Seq<char>> {
    seq!["FIRMWARE.bin"@, "OpenOCD/openocd_output.log"@]
}

/// What the caller must clear away.
#[derive(Debug, PartialEq, Eq)]
pub struct CleanupPlan {
    /// Processes to kill by name.
    pub processes: Vec<&'static str>,
    /// Files to remove where they exist.
    pub files: Vec<&'static str>,
}

/// How the attempt to kill the processes of one name went.
#[derive(Debug, PartialEq, Eq)]
pub enum KillOutcome {
    /// The kill command ran, with this exit status and this output.
    Ran { success: bool, stdout: String },
    /// The kill command could not be run, for the given reason.
    Failed(String),
}

pub enum KillOutcomeView {
    Ran { success: bool, stdout: Seq<char> },
    Failed(Seq<char>),
}

impl View for KillOutcome {
    type V = KillOutcomeView;

    open spec fn view(&self) -> KillOutcomeView {
        match self {
            KillOutcome::Ran { success, stdout } => KillOutcomeView::Ran {
                success: *success,
                stdout: stdout@,
            },
            KillOutcome::Failed(reason) => KillOutcomeView::Failed(reason@),
        }
    }
}

/// The kill command reports that it ended a process.
pub open spec fn kill_succeeded(outcome: KillOutcomeView) -> bool {
    outcome matches KillOutcomeView::Ran { success, stdout } && (success || contains(
        stdout,
        "SUCCESS"@,
    ))
}

/// The log after an attempt to end lingering processes of one name.
pub open spec fn lingering_logged(
    log: LoggerView,
    process: Seq<char>,
    outcome: KillOutcomeView,
) -> LoggerView {
    match outcome {
        KillOutcomeView::Ran { success, stdout } => if contains(stdout, "ERROR"@) {
            log
        } else {
            log.debugged("Terminated lingering "@ + process + " processes"@)
        },
        KillOutcomeView::Failed(reason) => log.debugged(
            "No "@ + process + " processes to terminate or error: "@ + reason,
        ),
    }
}

/// The log after an attempt to remove a leftover file.
pub open spec fn removal_logged(
    log: LoggerView,
    file: Seq<char>,
    outcome: Result<(), Seq<char>>,
) -> LoggerView {
    match outcome {
        Ok(_) => log.debugged("Removed temporary file: "@ + file),
        Err(reason) => log.debugged("Failed to remove "@ + file + ": "@ + reason),
    }
}

/// Begins the startup cleanup and tells what is to be cleared away.
pub fn perform_startup_cleanup(logger: &mut Logger) -> (plan: CleanupPlan)
    ensures
        plan.processes@.map_values(|p: &str| p@) == tool_processes(),
        plan.files@.map_values(|f: &str| f@) == leftover_files(),
        final(logger)@ == old(logger)@.debugged("Performing startup cleanup..."@),
{
    logger.debug("Performing startup cleanup...");
    let mut processes: Vec<&'static str> = Vec::new();
    processes.push("openocd.exe");
    processes.push("openocd-347.exe");
    let mut files: Vec<&'static str> = Vec::new();
    files.push("FIRMWARE.bin");
    files.push("OpenOCD/openocd_output.log");
    assert(processes@.map_values(|p: &str| p@) =~= tool_processes());
    assert(files@.map_values(|f: &str| f@) =~= leftover_files());
    CleanupPlan { processes, files }
}

/// Takes the outcome of the attempt to end lingering processes of one
/// name; it is only logged.
pub fn terminate_lingering_processes(process: &str, outcome: &KillOutcome, logger: &mut Logger)
    ensures
        final(logger)@ == lingering_logged(old(logger)@, process@, outcome@),
{
    match outcome {
        KillOutcome::Ran { success: _, stdout } => {
            let chars = to_chars(stdout.as_str());
            let failed = includes(chars.as_slice(), "ERROR");
            if failed {
            } else {
                let mut text = String::from_str("Terminated lingering ");
                text.append(process);
                text.append(" processes");
                logger.debug(text.as_str());
            }
        },
        KillOutcome::Failed(reason) => {
            let mut text = String::from_str("No ");
            text.append(process);
            text.append(" processes to terminate or error: ");
            text.append(reason.as_str());
            logger.debug(text.as_str());
        },
    }
}

/// Takes the outcome of the attempt to remove a leftover file that
/// existed; it is only logged.
pub fn cleanup_temp_files(file: &str, outcome: &Result<(), String>, logger: &mut Logger)
    ensures
        final(logger)@ == removal_logged(
            old(logger)@,
            file@,
            match outcome {
                Ok(_) => Ok(()),
                Err(reason) => Err(reason@),
            },
        ),
{
    match outcome {
        Ok(_) => {
            let mut text = String::from_str("Removed temporary file: ");
            text.append(file);
            logger.debug(text.as_str());
        },
        Err(reason) => {
            let mut text = String::from_str("Failed to remove ");
            text.append(file);
            text.append(": ");
            text.append(reason.as_str());
            logger.debug(text.as_str());
        },
    }
}

/// Tests whether the kill command reports that it ended a process, so
/// that no further name needs to be tried.
pub fn terminate_process(outcome: &KillOutcome) -> (ended: bool)
    ensures
        ended == kill_succeeded(outcome@),
{
    match outcome {
        KillOutcome::Ran { success, stdout } => {
            if *success {
                true
            } else {
                let chars = to_chars(stdout.as_str());
                includes(chars.as_slice(), "SUCCESS")
            }
        },
        KillOutcome::Failed(_) => false,
    }
}

} // verus!
