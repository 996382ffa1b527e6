//! The life of one external process, as the status cell records it.

use vstd::prelude::*;
use crate::decimal::{decimal, decimal_padded, push_decimal, push_decimal_padded};
use crate::logger::{LogLevel, Logger, LoggerView};
use crate::text::{contains, includes, to_chars};
use crate::types::{CompletionStatus, StatusView};

verus! {

/// Process creation flag that keeps a console window from opening.
pub const CREATE_NO_WINDOW: u32 = 0x08000000;

/// Where the firmware image is staged for the tool.
pub const TEMP_FIRMWARE_FILE: &'static str = "FIRMWARE.bin";

/// Where the tool writes what it read from the device.
pub const DNA_OUTPUT_FILE: &'static str = "OpenOCD/openocd_output.log";

/// The directory that the tool's paths are relative to.
pub const SCRIPT_DIR: &'static str = ".";

/// What to do around the end of a process.
#[derive(Clone, Copy, Debug, PartialEq, Eq, Structural)]
pub struct CommandOptions {
    /// Log how long the operation took.
    pub update_duration: bool,
    /// Remove the staged firmware image afterwards.
    pub cleanup_temp_files: bool,
}

/// A process to start: its output is piped, never inherited.
#[derive(Debug, PartialEq, Eq)]
pub struct CommandSpec {
    pub program: String,
    pub args: Vec<String>,
    pub creation_flags: u32,
}

pub struct CommandSpecView {
    pub program: Seq<char>,
    pub args: Seq<Seq<char>>,
    pub creation_flags: u32,
}

impl View for CommandSpec {
    type V = CommandSpecView;

    open spec fn view(&self) -> CommandSpecView {
        CommandSpecView {
            program: self.program@,
            args: self.args@.map_values(|a: String| a@),
            creation_flags: self.creation_flags,
        }
    }
}

/// How a process ended.
#[derive(Debug, PartialEq, Eq)]
pub enum ExitOutcome {
    /// It exited with this code; a process killed by a signal has none.
    Exited(Option<i32>),
    /// Waiting for it failed, for the given reason.
    WaitFailed(String),
}

pub enum ExitOutcomeView {
    Exited(Option<i32>),
    WaitFailed(Seq<char>),
}

impl View for ExitOutcome {
    type V = ExitOutcomeView;

    open spec fn view(&self) -> ExitOutcomeView {
        match self {
            ExitOutcome::Exited(code) => ExitOutcomeView::Exited(*code),
            ExitOutcome::WaitFailed(reason) => ExitOutcomeView::WaitFailed(reason@),
        }
    }
}

/// A signed number in decimal.
pub open spec fn signed_decimal(n: int) -> Seq<char> {
    if n < 0 {
        seq!['-'] + decimal((-n) as nat)
    } else {
        decimal(n as nat)
    }
}

/// An exit code as the failure message shows it.
pub open spec fn exit_code_text(code: Option<i32>) -> Seq<char> {
    match code {
        Some(n) => "Some("@ + signed_decimal(n as int) + ")"@,
        None => "None"@,
    }
}

/// The elapsed time as the log shows it: seconds and milliseconds from one
/// second on, milliseconds below.
pub open spec fn duration_text(elapsed_ms: u64) -> Seq<char> {
    if elapsed_ms >= 1000 {
        "Operation took "@ + decimal((elapsed_ms / 1000) as nat) + "."@ + decimal_padded(
            (elapsed_ms % 1000) as nat,
            3,
        ) + "s"@
    } else {
        "Operation took "@ + decimal(elapsed_ms as nat) + "ms"@
    }
}

/// The message of a failed spawn.
pub open spec fn spawn_failure_text(reason: Seq<char>) -> Seq<char> {
    "Failed to start process: "@ + reason
}

/// The status that the end of a process leaves.
pub open spec fn exit_status(outcome: ExitOutcomeView) -> StatusView {
    match outcome {
        ExitOutcomeView::Exited(code) => if code == Some(0i32) {
            StatusView::Completed
        } else {
            StatusView::Failed("Command failed with exit code: "@ + exit_code_text(code))
        },
        ExitOutcomeView::WaitFailed(reason) => StatusView::Failed(
            "Failed to wait for process: "@ + reason,
        ),
    }
}

/// The time between `start` and `now`, zero where the clock went back.
pub open spec fn elapsed_since(start: u64, now: u64) -> u64 {
    if now >= start {
        (now - start) as u64
    } else {
        0
    }
}

/// The log after the end of a process: the duration where it is asked for
/// and a start time is known, then the result.
pub open spec fn exit_logged(
    log: LoggerView,
    start_time: Option<u64>,
    outcome: ExitOutcomeView,
    now_ms: u64,
    options: CommandOptions,
) -> LoggerView {
    let timed = if options.update_duration && start_time is Some && outcome is Exited {
        log.logged(LogLevel::Info, duration_text(elapsed_since(start_time->0, now_ms)))
    } else {
        log
    };
    match exit_status(outcome) {
        StatusView::Failed(reason) => timed.logged(LogLevel::Error, reason),
        _ => timed.logged(LogLevel::Success, "Command completed successfully"@),
    }
}

/// A line of the tool's error stream goes to the line monitor only if it
/// names a sector and a duration and the operation has not been terminated.
pub open spec fn forwards_stderr(line: Seq<char>, terminated: bool) -> bool {
    contains(line, "sector"@) && contains(line, "took"@) && !terminated
}

pub struct ExecutorView {
    pub status: StatusView,
    /// Clock reading, in milliseconds, at the last reset.
    pub start_time: Option<u64>,
}

pub struct ProcessExecutor {
    completion_status: CompletionStatus,
    start_time: Option<u64>,
}

impl View for ProcessExecutor {
    type V = ExecutorView;

    closed spec fn view(&self) -> ExecutorView {
        ExecutorView { status: self.completion_status@, start_time: self.start_time }
    }
}

/// Renders an elapsed time for the log.
pub fn format_duration(elapsed_ms: u64) -> (text: String)
    ensures
        text@ == duration_text(elapsed_ms),
{
    let mut text = String::from_str("Operation took ");
    if elapsed_ms >= 1000 {
        push_decimal(&mut text, elapsed_ms / 1000);
        text.append(".");
        push_decimal_padded(&mut text, elapsed_ms % 1000, 3);
        text.append("s");
    } else {
        push_decimal(&mut text, elapsed_ms);
        text.append("ms");
    }
    text
}

/// Renders an exit code for the failure message.
pub fn format_exit_code(code: Option<i32>) -> (text: String)
    ensures
        text@ == exit_code_text(code),
{
    match code {
        None => String::from_str("None"),
        Some(n) => {
            let mut text = String::from_str("Some(");
            if n < 0 {
                text.push('-');
                let magnitude: u64 = (-(n as i64)) as u64;
                push_decimal(&mut text, magnitude);
            } else {
                push_decimal(&mut text, n as u64);
            }
            text.append(")");
            assert(text@ =~= exit_code_text(code));
            text
        },
    }
}

impl ProcessExecutor {
    pub fn new() -> (executor: ProcessExecutor)
        ensures
            executor@ == (ExecutorView { status: StatusView::NotCompleted, start_time: None }),
    {
        ProcessExecutor { completion_status: CompletionStatus::NotCompleted, start_time: None }
    }

    /// Begins a new operation at clock reading `now_ms`.
    pub fn reset(&mut self, now_ms: u64)
        ensures
            final(self)@ == (ExecutorView {
                status: StatusView::NotCompleted,
                start_time: Some(now_ms),
            }),
    {
        self.completion_status = CompletionStatus::NotCompleted;
        self.start_time = Some(now_ms);
    }

    pub fn get_completion_status(&self) -> (status: CompletionStatus)
        ensures
            status@ == self@.status,
    {
        self.completion_status.clone()
    }

    /// Tests whether the recorded status is final.
    pub fn has_ended(&self) -> (b: bool)
        ensures
            b == self@.status.terminal(),
    {
        self.completion_status.is_terminal()
    }

    /// Tests whether the recorded status is a failure.
    pub fn has_failed(&self) -> (b: bool)
        ensures
            b == (self@.status is Failed),
    {
        match &self.completion_status {
            CompletionStatus::Failed(_) => true,
            _ => false,
        }
    }

    /// Overwrites the status, whatever it was.
    pub fn set_completion_status(&mut self, status: CompletionStatus)
        ensures
            final(self)@ == (ExecutorView { status: status@, ..old(self)@ }),
    {
        self.completion_status = status;
    }

    /// Reports a stage of the running operation. A status that is already
    /// final stays: only a reset begins a new operation.
    pub fn note_progress(&mut self, message: &str)
        ensures
            final(self)@ == (if old(self)@.status.terminal() {
                old(self)@
            } else {
                ExecutorView { status: StatusView::InProgress(message@), ..old(self)@ }
            }),
    {
        if !self.completion_status.is_terminal() {
            self.completion_status = CompletionStatus::InProgress(message.to_owned());
        }
    }

    pub fn get_start_time(&self) -> (start: Option<u64>)
        ensures
            start == self@.start_time,
    {
        self.start_time
    }

    /// The time since the last reset, if there was one.
    pub fn elapsed(&self, now_ms: u64) -> (elapsed: Option<u64>)
        ensures
            elapsed == (match self@.start_time {
                Some(start) => Some(elapsed_since(start, now_ms)),
                None => None,
            }),
    {
        match self.start_time {
            Some(start) => Some(
                if now_ms >= start {
                    now_ms - start
                } else {
                    0
                },
            ),
            None => None,
        }
    }

    /// Describes the process to start: the program with its arguments, and
    /// the flag that hides its window.
    pub fn prepare_command(exe_path: &str, args: &[&str]) -> (command: CommandSpec)
        ensures
            command@ == (CommandSpecView {
                program: exe_path@,
                args: args@.map_values(|a: &str| a@),
                creation_flags: CREATE_NO_WINDOW,
            }),
    {
        let mut owned: Vec<String> = Vec::new();
        let mut i: usize = 0;
        while i < args.len()
            invariant
                i <= args.len(),
                owned@.len() == i,
                forall|j: int| 0 <= j < i ==> (#[trigger] owned@[j])@ == args@[j]@,
            decreases args.len() - i,
        {
            owned.push(args[i].to_owned());
            i += 1;
        }
        assert(owned@.map_values(|a: String| a@) =~= args@.map_values(|a: &str| a@));
        CommandSpec {
            program: exe_path.to_owned(),
            args: owned,
            creation_flags: CREATE_NO_WINDOW,
        }
    }

    /// Records that the process could not be started: the status becomes
    /// `Failed` and the message is returned for the caller.
    pub fn spawn_failed(&mut self, reason: &str, logger: &mut Logger) -> (message: String)
        ensures
            message@ == spawn_failure_text(reason@),
            final(self)@ == (ExecutorView { status: StatusView::Failed(message@), ..old(self)@ }),
            final(logger)@ == old(logger)@.logged(LogLevel::Error, message@),
    {
        let mut message = String::from_str("Failed to start process: ");
        message.append(reason);
        logger.error(message.as_str());
        self.completion_status = CompletionStatus::Failed(message.clone());
        message
    }

    /// Takes the outcome of starting the process. On failure the status
    /// becomes `Failed` at once and the error is returned; on success the
    /// status is left to the events that follow.
    pub fn execute_command(
        &mut self,
        spawned: Result<(), String>,
        logger: &mut Logger,
    ) -> (result: Result<(), String>)
        ensures
            match spawned {
                Ok(_) => result is Ok && final(self)@ == old(self)@ && final(logger)@ == old(
                    logger,
                )@,
                Err(reason) => {
                    &&& result matches Err(message)
                    &&& message@ == spawn_failure_text(reason@)
                    &&& final(self)@ == (ExecutorView {
                        status: StatusView::Failed(message@),
                        ..old(self)@
                    })
                    &&& final(logger)@ == old(logger)@.logged(LogLevel::Error, message@)
                },
            },
    {
        match spawned {
            Ok(_) => Ok(()),
            Err(reason) => Err(self.spawn_failed(reason.as_str(), logger)),
        }
    }

    /// Records the end of the process. Returns whether the staged firmware
    /// image is to be removed.
    pub fn process_exited(
        &mut self,
        outcome: &ExitOutcome,
        now_ms: u64,
        options: &CommandOptions,
        logger: &mut Logger,
    ) -> (cleanup: bool)
        ensures
            cleanup == options.cleanup_temp_files,
            final(self)@ == (ExecutorView { status: exit_status(outcome@), ..old(self)@ }),
            final(logger)@ == exit_logged(
                old(logger)@,
                old(self)@.start_time,
                outcome@,
                now_ms,
                *options,
            ),
    {
        match outcome {
            ExitOutcome::Exited(code) => {
                if options.update_duration {
                    if let Some(elapsed) = self.elapsed(now_ms) {
                        let text = format_duration(elapsed);
                        logger.info(text.as_str());
                    }
                }
                let succeeded = match code {
                    Some(n) => *n == 0,
                    None => false,
                };
                if succeeded {
                    logger.success("Command completed successfully");
                    self.completion_status = CompletionStatus::Completed;
                } else {
                    let mut message = String::from_str("Command failed with exit code: ");
                    let shown = format_exit_code(*code);
                    message.append(shown.as_str());
                    logger.error(message.as_str());
                    self.completion_status = CompletionStatus::Failed(message);
                }
            },
            ExitOutcome::WaitFailed(reason) => {
                let mut message = String::from_str("Failed to wait for process: ");
                message.append(reason.as_str());
                logger.error(message.as_str());
                self.completion_status = CompletionStatus::Failed(message);
            },
        }
        options.cleanup_temp_files
    }

    /// Takes a line of the tool's output stream: it is logged, and always
    /// goes on to the line monitor.
    pub fn stdout_line(&self, line: &str, logger: &mut Logger) -> (forward: bool)
        ensures
            forward,
            final(logger)@ == old(logger)@.logged(LogLevel::Output, line@),
    {
        logger.output(line);
        true
    }

    /// Takes a line of the tool's error stream: it is logged, and goes on to
    /// the line monitor only where `forwards_stderr` says so.
    pub fn stderr_line(&self, line: &str, terminated: bool, logger: &mut Logger) -> (forward:
        bool)
        ensures
            forward == forwards_stderr(line@, terminated),
            final(logger)@ == old(logger)@.logged(LogLevel::Error, line@),
    {
        logger.error(line);
        let chars = to_chars(line);
        includes(chars.as_slice(), "sector") && includes(chars.as_slice(), "took") && !terminated
    }

    /// Reports that the staged firmware image could not be removed. The
    /// status does not change: as a warning after a failed start, as a
    /// diagnostic message after an exit.
    pub fn cleanup_failed(&self, reason: &str, after_failed_start: bool, logger: &mut Logger)
        ensures
            final(logger)@ == (if after_failed_start {
                old(logger)@.logged(
                    LogLevel::Warning,
                    "Failed to clean up temporary firmware file: "@ + reason@,
                )
            } else {
                old(logger)@.debugged("Failed to clean up temporary firmware file: "@ + reason@)
            }),
    {
        let mut message = String::from_str("Failed to clean up temporary firmware file: ");
        message.append(reason);
        if after_failed_start {
            logger.warning(message.as_str());
        } else {
            logger.debug(message.as_str());
        }
    }
}

} // verus!
