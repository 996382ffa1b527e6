//! Flashing a firmware image: staging, the command line, and the start of
//! the monitored process.

use vstd::prelude::*;
use crate::logger::{LogLevel, Logger, LoggerView};
use crate::monitor::{MonitorView, OperationMonitor};
use crate::process::{
    elapsed_since, spawn_failure_text, CommandOptions, CommandSpec, CommandSpecView, ExecutorView,
    ProcessExecutor, CREATE_NO_WINDOW,
};
use crate::types::{CompletionStatus, FlashingOption, StatusView};

verus! {

/// The directive that programs the staged image and leaves the tool.
pub open spec fn program_directive() -> Seq<char> {
    "program FIRMWARE.bin; exit"@
}

/// The process that flashes the staged image under `option`.
pub open spec fn flash_command(option: FlashingOption) -> CommandSpecView {
    CommandSpecView {
        program: "./"@ + option.executable(),
        args: seq!["-f"@, "./"@ + option.config(), "-c"@, program_directive()],
        creation_flags: CREATE_NO_WINDOW,
    }
}

/// The command line as the log shows it.
pub open spec fn flash_command_text(option: FlashingOption) -> Seq<char> {
    "./"@ + option.executable() + " -f ./"@ + option.config() + " -c \""@ + program_directive()
        + "\""@
}

/// The failure reported when the image could not be staged.
pub open spec fn staging_failure_text(reason: Seq<char>) -> Seq<char> {
    "Failed to prepare firmware file: "@ + reason
}

/// The failure reported when the tool could not be started.
pub open spec fn flash_failure_text(reason: Seq<char>) -> Seq<char> {
    "Failed to execute firmware flash: "@ + spawn_failure_text(reason)
}

/// The log after a flash operation has been announced.
pub open spec fn flash_announced(
    log: LoggerView,
    firmware_path: Seq<char>,
    option: FlashingOption,
    command_text: Seq<char>,
) -> LoggerView {
    log.logged(
        LogLevel::Info,
        "Starting firmware flash operation with option: "@ + option.display_name(),
    ).logged(LogLevel::Info, "Firmware file: "@ + firmware_path).logged(
        LogLevel::Command,
        "Executing: "@ + command_text,
    )
}

/// What the caller must start for a flash operation.
#[derive(Debug, PartialEq, Eq)]
pub struct FlashLaunch {
    pub command: CommandSpec,
    pub options: CommandOptions,
    /// A watchdog must be started; false while an earlier one is running.
    pub start_watchdog: bool,
}

pub struct FirmwareFlasher {}

impl FirmwareFlasher {
    pub fn new() -> FirmwareFlasher {
        FirmwareFlasher {  }
    }

    /// The program, the command line for the log, and the arguments.
    pub fn prepare_flash_command(&self, option: &FlashingOption) -> (r: (
        String,
        String,
        Vec<String>,
    ))
        ensures
            r.0@ == flash_command(*option).program,
            r.1@ == flash_command_text(*option),
            r.2@.map_values(|a: String| a@) == flash_command(*option).args,
    {
        let (exe, config) = option.get_command_args();
        let mut exe_path = String::from_str("./");
        exe_path.append(exe);
        let mut config_path = String::from_str("./");
        config_path.append(config);
        let program_arg = String::from_str("program FIRMWARE.bin; exit");
        let mut text = exe_path.clone();
        text.append(" -f ");
        text.append(config_path.as_str());
        text.append(" -c \"");
        text.append(program_arg.as_str());
        text.append("\"");
        proof {
            reveal_strlit(" -f ");
            reveal_strlit(" -f ./");
            reveal_strlit("./");
            assert(" -f "@ + "./"@ =~= " -f ./"@);
            assert(text@ =~= flash_command_text(*option));
        }
        let mut args: Vec<String> = Vec::new();
        args.push(String::from_str("-f"));
        args.push(config_path);
        args.push(String::from_str("-c"));
        args.push(program_arg);
        assert(args@.map_values(|a: String| a@) =~= flash_command(*option).args);
        (exe_path, text, args)
    }

    /// Announces the operation in the log.
    pub fn log_flash_operation(
        &self,
        firmware_path: &str,
        option: &FlashingOption,
        command_str: &str,
        logger: &mut Logger,
    )
        ensures
            final(logger)@ == flash_announced(old(logger)@, firmware_path@, *option, command_str@),
    {
        let mut first = String::from_str("Starting firmware flash operation with option: ");
        first.append(option.get_display_name());
        logger.info(first.as_str());
        let mut second = String::from_str("Firmware file: ");
        second.append(firmware_path);
        logger.info(second.as_str());
        let mut third = String::from_str("Executing: ");
        third.append(command_str);
        logger.command(third.as_str());
    }

    /// Begins a flash operation once the image has been copied to its
    /// staging path, with the outcome of that copy. A failed copy fails the
    /// operation and nothing is to be started. Otherwise the operation is
    /// announced, the line monitor is armed, and the result names the
    /// process to start.
    pub fn execute(
        &self,
        firmware_path: &str,
        option: &FlashingOption,
        staged: Result<(), String>,
        monitor: &mut OperationMonitor,
        executor: &mut ProcessExecutor,
        logger: &mut Logger,
    ) -> (r: Result<FlashLaunch, String>)
        ensures
            match staged {
                Err(reason) => {
                    &&& r matches Err(message)
                    &&& message@ == staging_failure_text(reason@)
                    &&& final(monitor)@ == old(monitor)@
                    &&& final(executor)@ == (ExecutorView {
                        status: StatusView::Failed(message@),
                        ..old(executor)@
                    })
                    &&& final(logger)@ == old(logger)@.logged(LogLevel::Error, message@)
                },
                Ok(_) => {
                    &&& r matches Ok(launch)
                    &&& launch.command@ == flash_command(*option)
                    &&& launch.options == (CommandOptions {
                        update_duration: true,
                        cleanup_temp_files: true,
                    })
                    &&& launch.start_watchdog == !old(monitor)@.running
                    &&& final(monitor)@ == (if old(monitor)@.running {
                        old(monitor)@
                    } else {
                        MonitorView { running: true, consecutive: 0, ..old(monitor)@ }
                    })
                    &&& final(executor)@ == old(executor)@
                    &&& final(logger)@ == flash_announced(
                        old(logger)@,
                        firmware_path@,
                        *option,
                        flash_command_text(*option),
                    )
                },
            },
    {
        match staged {
            Err(reason) => {
                let mut message = String::from_str("Failed to prepare firmware file: ");
                message.append(reason.as_str());
                logger.error(message.as_str());
                executor.set_completion_status(CompletionStatus::Failed(message.clone()));
                Err(message)
            },
            Ok(_) => {
                let (exe_path, command_str, args) = self.prepare_flash_command(option);
                self.log_flash_operation(firmware_path, option, command_str.as_str(), logger);
                let start_watchdog = monitor.create_line_monitor();
                let command = CommandSpec {
                    program: exe_path,
                    args,
                    creation_flags: CREATE_NO_WINDOW,
                };
                Ok(
                    FlashLaunch {
                        command,
                        options: CommandOptions { update_duration: true, cleanup_temp_files: true },
                        start_watchdog,
                    },
                )
            },
        }
    }

    /// Takes the outcome of starting the tool: the time the operation has
    /// taken so far, or the failure.
    pub fn run_flash_operation(
        &self,
        spawned: Result<(), String>,
        now_ms: u64,
        executor: &mut ProcessExecutor,
        logger: &mut Logger,
    ) -> (r: Result<Option<u64>, String>)
        ensures
            match spawned {
                Ok(_) => {
                    &&& r == Ok::<Option<u64>, String>(
                        match old(executor)@.start_time {
                            Some(start) => Some(elapsed_since(start, now_ms)),
                            None => None,
                        },
                    )
                    &&& final(executor)@ == old(executor)@
                    &&& final(logger)@ == old(logger)@
                },
                Err(reason) => {
                    &&& r matches Err(message)
                    &&& message@ == flash_failure_text(reason@)
                    &&& final(executor)@ == (ExecutorView {
                        status: StatusView::Failed(spawn_failure_text(reason@)),
                        ..old(executor)@
                    })
                    &&& final(logger)@ == old(logger)@.logged(
                        LogLevel::Error,
                        spawn_failure_text(reason@),
                    ).logged(LogLevel::Error, message@)
                },
            },
    {
        match executor.execute_command(spawned, logger) {
            Ok(_) => Ok(self.update_duration(executor, now_ms)),
            Err(e) => {
                let mut message = String::from_str("Failed to execute firmware flash: ");
                message.append(e.as_str());
                logger.error(message.as_str());
                Err(message)
            },
        }
    }

    /// The time since the operation began, if it has begun.
    pub fn update_duration(&self, executor: &ProcessExecutor, now_ms: u64) -> (duration: Option<
        u64,
    >)
        ensures
            duration == (match executor@.start_time {
                Some(start) => Some(elapsed_since(start, now_ms)),
                None => None,
            }),
    {
        executor.elapsed(now_ms)
    }
}

} // verus!
