//! The one place from which an operation is begun, fed with what happens,
//! and asked how it stands.

use vstd::prelude::*;
use crate::dna::{
    dna_command, poll_logged, poll_verdict, polled_reader, polled_status, ArtifactObservation,
    DnaLaunch, DnaReader, DnaReaderView, PollAction, DNA_READ_WAIT_MS, DNA_RETRY_WAIT_MS,
};
use crate::firmware::{
    flash_announced, flash_command, flash_command_text, flash_failure_text, staging_failure_text,
    FirmwareFlasher, FlashLaunch,
};
use crate::logger::{LogLevel, Logger, LoggerView};
use crate::monitor::{
    is_sector_line, sector_action, termination_logged, LineAction, MonitorView, OperationMonitor,
    WatchdogAction,
};
use crate::process::{
    elapsed_since, exit_logged, exit_status, forwards_stderr, spawn_failure_text, CommandOptions,
    ExecutorView, ExitOutcome, ProcessExecutor,
};
use crate::types::{CompletionStatus, FlashingOption, StatusView};

verus! {

/// The status shown for an operation that was cut short while the process
/// itself reported no failure.
pub open spec fn early_termination_text() -> Seq<char> {
    "Operation terminated early due to connection issues"@
}

/// The status that the outside sees: an operation that was cut short has
/// failed, whatever the process reported; a failure already recorded keeps
/// its reason.
pub open spec fn reconciled(raw: StatusView, terminated: bool) -> StatusView {
    if terminated {
        match raw {
            StatusView::Failed(reason) => StatusView::Failed(reason),
            _ => StatusView::Failed(early_termination_text()),
        }
    } else {
        raw
    }
}

/// An operation that was cut short always shows as failed, whatever the
/// process reported; one that was not shows what the process reported.
pub proof fn lemma_early_termination_fails(raw: StatusView)
    ensures
        reconciled(raw, true) is Failed,
        reconciled(raw, false) == raw,
{
}

pub struct ManagerView {
    /// Clock reading when the current operation began.
    pub start_time: Option<u64>,
    /// How long the current operation has taken, in milliseconds.
    pub duration: Option<u64>,
    pub current_option: Option<FlashingOption>,
    pub logger: LoggerView,
    pub monitor: MonitorView,
    pub executor: ExecutorView,
    pub dna: DnaReaderView,
    /// Clock reading when the tracked status last changed.
    pub last_status_change: Option<u64>,
    pub last_status: Option<StatusView>,
}

impl ManagerView {
    /// The status that the outside sees.
    pub open spec fn status(self) -> StatusView {
        reconciled(self.executor.status, self.monitor.terminated)
    }

    /// The same state with the log's clock at `now`.
    pub open spec fn at(self, now: u64) -> ManagerView {
        ManagerView { logger: LoggerView { now, ..self.logger }, ..self }
    }

    /// The lines of the tool go to the line monitor: a flash is under way.
    pub open spec fn monitoring(self) -> bool {
        self.current_option matches Some(option) && option.flash_operation()
    }

    /// The state at the start of an operation: the monitor and the tracking
    /// are reset, and the status says which operation starts.
    pub open spec fn initialized(self, option: FlashingOption, now: u64) -> ManagerView {
        ManagerView {
            start_time: Some(now),
            current_option: Some(option),
            logger: LoggerView { now, ..self.logger },
            monitor: MonitorView {
                anomalous: 0,
                total: 0,
                terminated: false,
                running: false,
                consecutive: 0,
                ..self.monitor
            },
            executor: ExecutorView {
                status: StatusView::InProgress(
                    if option.dna_read() {
                        "Starting DNA read operation..."@
                    } else {
                        "Starting flash operation..."@
                    },
                ),
                start_time: Some(now),
            },
            last_status_change: Some(now),
            last_status: None,
            ..self
        }
    }

    /// The state after a line has gone to the line monitor.
    pub open spec fn monitored(self, line: Seq<char>) -> ManagerView {
        ManagerView {
            monitor: self.monitor.observed(line),
            logger: termination_logged(self.logger, self.line_action(line)),
            ..self
        }
    }

    /// What follows from handing a line to the line monitor.
    pub open spec fn line_action(self, line: Seq<char>) -> LineAction {
        if self.monitor.terminated || !is_sector_line(line) {
            LineAction::Ignored
        } else {
            sector_action(self.monitor, self.monitor.observed(line))
        }
    }

    /// The time that the operation has taken at `now`, once it has begun.
    pub open spec fn elapsed(self, now: u64) -> Option<u64> {
        match self.executor.start_time {
            Some(start) => Some(elapsed_since(start, now)),
            None => self.duration,
        }
    }
}

pub struct FlashingManager {
    start_time: Option<u64>,
    duration: Option<u64>,
    current_option: Option<FlashingOption>,
    logger: Logger,
    monitor: OperationMonitor,
    process_executor: ProcessExecutor,
    dna_reader: DnaReader,
    firmware_flasher: FirmwareFlasher,
    last_status_change: Option<u64>,
    last_status: Option<CompletionStatus>,
}

impl View for FlashingManager {
    type V = ManagerView;

    closed spec fn view(&self) -> ManagerView {
        ManagerView {
            start_time: self.start_time,
            duration: self.duration,
            current_option: self.current_option,
            logger: self.logger@,
            monitor: self.monitor@,
            executor: self.process_executor@,
            dna: self.dna_reader@,
            last_status_change: self.last_status_change,
            last_status: match self.last_status {
                Some(status) => Some(status@),
                None => None,
            },
        }
    }
}

impl FlashingManager {
    /// A manager at rest that logs to `logger` under the default policy.
    pub fn new_with_logger(logger: Logger) -> (manager: FlashingManager)
        ensures
            manager@.start_time is None,
            manager@.duration is None,
            manager@.current_option is None,
            manager@.logger == logger@,
            manager@.monitor == OperationMonitor::new_view(),
            manager@.executor == (ExecutorView {
                status: StatusView::NotCompleted,
                start_time: None,
            }),
            manager@.dna == (DnaReaderView { running: false, attempts: 0 }),
            manager@.last_status_change == Some(logger@.now),
            manager@.last_status is None,
    {
        let now = logger.time();
        FlashingManager {
            start_time: None,
            duration: None,
            current_option: None,
            logger,
            monitor: OperationMonitor::new(),
            process_executor: ProcessExecutor::new(),
            dna_reader: DnaReader::new(),
            firmware_flasher: FirmwareFlasher::new(),
            last_status_change: Some(now),
            last_status: None,
        }
    }

    /// Replaces the line monitor, and with it the policy.
    pub fn set_monitor(&mut self, monitor: OperationMonitor)
        ensures
            final(self)@ == (ManagerView { monitor: monitor@, ..old(self)@ }),
    {
        self.monitor = monitor;
    }

    /// Begins a new operation at clock reading `now_ms`.
    pub fn initialize_operation(&mut self, option: FlashingOption, now_ms: u64)
        ensures
            final(self)@ == old(self)@.initialized(option, now_ms),
    {
        self.logger.set_time(now_ms);
        self.monitor.stop_monitor_thread();
        self.start_time = Some(now_ms);
        self.current_option = Some(option);
        self.monitor.reset_counters();
        self.process_executor.reset(now_ms);
        self.last_status = None;
        self.last_status_change = Some(now_ms);
        if option.is_dna_read() {
            self.process_executor.set_completion_status(
                CompletionStatus::InProgress(String::from_str("Starting DNA read operation...")),
            );
        } else {
            self.process_executor.set_completion_status(
                CompletionStatus::InProgress(String::from_str("Starting flash operation...")),
            );
        }
    }

    /// Begins a flash operation once the image has been copied to its
    /// staging path, with the outcome of that copy. Returns what must be
    /// started, or nothing where the copy failed: the status then says so.
    pub fn execute_flash(
        &mut self,
        firmware_path: &str,
        option: &FlashingOption,
        staged: Result<(), String>,
        now_ms: u64,
    ) -> (launch: Option<FlashLaunch>)
        ensures
            match staged {
                Err(reason) => {
                    &&& launch is None
                    &&& final(self)@ == ({
                        let init = old(self)@.initialized(*option, now_ms);
                        ManagerView {
                            executor: ExecutorView {
                                status: StatusView::Failed(staging_failure_text(reason@)),
                                ..init.executor
                            },
                            logger: init.logger.logged(
                                LogLevel::Error,
                                staging_failure_text(reason@),
                            ),
                            ..init
                        }
                    })
                },
                Ok(_) => {
                    &&& launch matches Some(l)
                    &&& l.command@ == flash_command(*option)
                    &&& l.options == (CommandOptions {
                        update_duration: true,
                        cleanup_temp_files: true,
                    })
                    &&& l.start_watchdog
                    &&& final(self)@ == ({
                        let init = old(self)@.initialized(*option, now_ms);
                        ManagerView {
                            monitor: MonitorView { running: true, ..init.monitor },
                            logger: flash_announced(
                                init.logger,
                                firmware_path@,
                                *option,
                                flash_command_text(*option),
                            ),
                            ..init
                        }
                    })
                },
            },
    {
        self.initialize_operation(*option, now_ms);
        match self.firmware_flasher.execute(
            firmware_path,
            option,
            staged,
            &mut self.monitor,
            &mut self.process_executor,
            &mut self.logger,
        ) {
            Ok(launch) => Some(launch),
            Err(e) => {
                self.process_executor.set_completion_status(CompletionStatus::Failed(e));
                None
            },
        }
    }

    /// Takes the outcome of starting the flashing tool. A failure becomes
    /// the operation's status; otherwise the duration so far is recorded.
    pub fn flash_started(&mut self, spawned: Result<(), String>, now_ms: u64) -> (started: bool)
        ensures
            old(self)@.status().terminal() ==> final(self)@.status().terminal(),
            started == spawned is Ok,
            match spawned {
                Ok(_) => final(self)@ == (ManagerView {
                    duration: old(self)@.elapsed(now_ms),
                    ..old(self)@.at(now_ms)
                }),
                Err(reason) => final(self)@ == (ManagerView {
                    executor: ExecutorView {
                        status: StatusView::Failed(flash_failure_text(reason@)),
                        ..old(self)@.executor
                    },
                    logger: old(self)@.at(now_ms).logger.logged(
                        LogLevel::Error,
                        spawn_failure_text(reason@),
                    ).logged(LogLevel::Error, flash_failure_text(reason@)),
                    ..old(self)@
                }),
            },
    {
        self.logger.set_time(now_ms);
        match self.firmware_flasher.run_flash_operation(
            spawned,
            now_ms,
            &mut self.process_executor,
            &mut self.logger,
        ) {
            Ok(duration) => {
                if duration.is_some() {
                    self.duration = duration;
                }
                true
            },
            Err(e) => {
                self.process_executor.set_completion_status(CompletionStatus::Failed(e));
                false
            },
        }
    }

    /// Begins a DNA read. Returns what must be started, or nothing where
    /// the option reads no DNA: the status then says so.
    pub fn execute_dna_read(&mut self, option: &FlashingOption, now_ms: u64) -> (launch: Option<
        DnaLaunch,
    >)
        ensures
            !option.dna_read() ==> {
                &&& launch is None
                &&& final(self)@ == ({
                    let init = old(self)@.initialized(*option, now_ms);
                    ManagerView {
                        executor: ExecutorView {
                            status: StatusView::Failed("Invalid option for DNA read"@),
                            ..init.executor
                        },
                        logger: init.logger.logged(
                            LogLevel::Error,
                            "Invalid option for DNA read operation"@,
                        ),
                        ..init
                    }
                })
            },
            option.dna_read() ==> {
                &&& launch matches Some(l)
                &&& l.command@ == dna_command(*option)
                &&& l.options == (CommandOptions { update_duration: true, cleanup_temp_files: true })
                &&& l.start_poller == !old(self)@.dna.running
                &&& final(self)@ == ({
                    let init = old(self)@.initialized(*option, now_ms);
                    ManagerView {
                        executor: ExecutorView {
                            status: StatusView::InProgress("Initializing DNA read operation..."@),
                            ..init.executor
                        },
                        dna: if init.dna.running {
                            init.dna
                        } else {
                            DnaReaderView { running: true, attempts: 0 }
                        },
                        ..init
                    }
                })
            },
    {
        self.initialize_operation(*option, now_ms);
        self.dna_reader.execute(option, &mut self.process_executor, &mut self.logger)
    }

    /// Takes the outcome of starting the tool for a DNA read. A failure
    /// becomes the operation's status and stops the poller.
    pub fn dna_started(&mut self, spawned: Result<(), String>, now_ms: u64) -> (started: bool)
        ensures
            old(self)@.status().terminal() ==> final(self)@.status().terminal(),
            started == spawned is Ok,
            match spawned {
                Ok(_) => final(self)@ == old(self)@.at(now_ms),
                Err(reason) => final(self)@ == (ManagerView {
                    dna: DnaReaderView { running: false, ..old(self)@.dna },
                    executor: ExecutorView {
                        status: StatusView::Failed("Failed to execute DNA read command"@),
                        ..old(self)@.executor
                    },
                    logger: old(self)@.at(now_ms).logger.logged(
                        LogLevel::Error,
                        spawn_failure_text(reason@),
                    ).logged(
                        LogLevel::Error,
                        "Failed to execute DNA read: "@ + spawn_failure_text(reason@),
                    ),
                    ..old(self)@
                }),
            },
    {
        self.logger.set_time(now_ms);
        self.dna_reader.run_dna_command(spawned, &mut self.process_executor, &mut self.logger)
    }

    /// Takes a line of the tool's output stream: it is logged, and during a
    /// flash it goes to the line monitor.
    pub fn process_output(&mut self, line: &str, now_ms: u64) -> (action: LineAction)
        ensures
            old(self)@.status().terminal() ==> final(self)@.status().terminal(),
            final(self)@ == ({
                let logged = ManagerView {
                    logger: old(self)@.at(now_ms).logger.logged(LogLevel::Output, line@),
                    ..old(self)@
                };
                if logged.monitoring() {
                    logged.monitored(line@)
                } else {
                    logged
                }
            }),
            action == (if old(self)@.monitoring() {
                old(self)@.line_action(line@)
            } else {
                LineAction::Ignored
            }),
    {
        self.logger.set_time(now_ms);
        let forward = self.process_executor.stdout_line(line, &mut self.logger);
        if forward && self.is_monitoring() {
            self.monitor.process_sector_writes(line, &mut self.logger)
        } else {
            LineAction::Ignored
        }
    }

    /// Takes a line of the tool's error stream: it is logged, and during a
    /// flash it goes to the line monitor where `forwards_stderr` says so.
    pub fn process_error_output(&mut self, line: &str, now_ms: u64) -> (action: LineAction)
        ensures
            old(self)@.status().terminal() ==> final(self)@.status().terminal(),
            final(self)@ == ({
                let logged = ManagerView {
                    logger: old(self)@.at(now_ms).logger.logged(LogLevel::Error, line@),
                    ..old(self)@
                };
                if logged.monitoring() && forwards_stderr(line@, logged.monitor.terminated) {
                    logged.monitored(line@)
                } else {
                    logged
                }
            }),
            action == (if old(self)@.monitoring() && forwards_stderr(
                line@,
                old(self)@.monitor.terminated,
            ) {
                old(self)@.line_action(line@)
            } else {
                LineAction::Ignored
            }),
    {
        self.logger.set_time(now_ms);
        let terminated = self.monitor.was_terminated_early();
        let forward = self.process_executor.stderr_line(line, terminated, &mut self.logger);
        if forward && self.is_monitoring() {
            self.monitor.process_sector_writes(line, &mut self.logger)
        } else {
            LineAction::Ignored
        }
    }

    /// Records the end of the tool's process, and with it the duration of
    /// the operation where that is asked for. Returns whether the staged
    /// firmware image is to be removed.
    pub fn process_exited(
        &mut self,
        outcome: &ExitOutcome,
        options: &CommandOptions,
        now_ms: u64,
    ) -> (cleanup: bool)
        ensures
            old(self)@.status().terminal() ==> final(self)@.status().terminal(),
            cleanup == options.cleanup_temp_files,
            final(self)@ == (ManagerView {
                executor: ExecutorView { status: exit_status(outcome@), ..old(self)@.executor },
                logger: exit_logged(
                    old(self)@.at(now_ms).logger,
                    old(self)@.executor.start_time,
                    outcome@,
                    now_ms,
                    *options,
                ),
                duration: if options.update_duration {
                    old(self)@.elapsed(now_ms)
                } else {
                    old(self)@.duration
                },
                ..old(self)@
            }),
    {
        self.logger.set_time(now_ms);
        if options.update_duration {
            let elapsed = self.process_executor.elapsed(now_ms);
            if elapsed.is_some() {
                self.duration = elapsed;
            }
        }
        self.process_executor.process_exited(outcome, now_ms, options, &mut self.logger)
    }

    /// One check of the watchdog.
    pub fn watchdog_tick(&mut self, now_ms: u64) -> (action: WatchdogAction)
        ensures
            old(self)@.status().terminal() ==> final(self)@.status().terminal(),
            final(self)@.monitor == old(self)@.monitor.checked(),
            action == (if !old(self)@.monitor.running {
                WatchdogAction::Stop
            } else if final(self)@.monitor.terminated && !old(self)@.monitor.terminated {
                WatchdogAction::Terminate
            } else if final(self)@.monitor.running {
                WatchdogAction::Continue
            } else {
                WatchdogAction::Stop
            }),
            final(self)@ == (ManagerView {
                monitor: old(self)@.monitor.checked(),
                logger: if action == WatchdogAction::Terminate {
                    old(self)@.at(now_ms).logger.logged(
                        LogLevel::Error,
                        "Operation terminated early due to connection issues."@,
                    )
                } else {
                    old(self)@.at(now_ms).logger
                },
                ..old(self)@
            }),
    {
        self.logger.set_time(now_ms);
        self.monitor.watchdog_check(&mut self.logger)
    }

    /// The poller's first step.
    pub fn begin_dna_processing(&mut self, now_ms: u64) -> (action: PollAction)
        ensures
            old(self)@.status().terminal() ==> final(self)@.status().terminal(),
            action == (if old(self)@.dna.running {
                PollAction::Wait(DNA_READ_WAIT_MS)
            } else {
                PollAction::Finished
            }),
            final(self)@ == (ManagerView {
                executor: if old(self)@.dna.running && !old(self)@.executor.status.terminal() {
                    ExecutorView {
                        status: StatusView::InProgress("Waiting for device response..."@),
                        ..old(self)@.executor
                    }
                } else {
                    old(self)@.executor
                },
                ..old(self)@.at(now_ms)
            }),
    {
        self.logger.set_time(now_ms);
        self.dna_reader.begin_processing(&mut self.process_executor)
    }

    /// One look of the poller at the artifact, with what was found.
    pub fn poll_dna(&mut self, observation: &ArtifactObservation, now_ms: u64) -> (action:
        PollAction)
        ensures
            old(self)@.status().terminal() ==> final(self)@.status().terminal(),
            action == (if poll_verdict(
                old(self)@.dna,
                old(self)@.executor.status,
                observation@,
            ) is Retry {
                PollAction::Wait(DNA_RETRY_WAIT_MS)
            } else {
                PollAction::Finished
            }),
            final(self)@ == ({
                let verdict = poll_verdict(old(self)@.dna, old(self)@.executor.status, observation@);
                ManagerView {
                    dna: polled_reader(old(self)@.dna, verdict),
                    executor: ExecutorView {
                        status: polled_status(old(self)@.executor.status, verdict),
                        ..old(self)@.executor
                    },
                    logger: poll_logged(old(self)@.at(now_ms).logger, verdict),
                    ..old(self)@
                }
            }),
    {
        self.logger.set_time(now_ms);
        self.dna_reader.poll(observation, &mut self.process_executor, &mut self.logger)
    }

    /// The status that the outside sees.
    pub fn get_status(&self) -> (status: CompletionStatus)
        ensures
            status@ == self@.status(),
            self@.monitor.terminated ==> status@ is Failed,
    {
        let current = self.process_executor.get_completion_status();
        if self.monitor.was_terminated_early() {
            match current {
                CompletionStatus::Failed(reason) => CompletionStatus::Failed(reason),
                _ => CompletionStatus::Failed(
                    String::from_str("Operation terminated early due to connection issues"),
                ),
            }
        } else {
            current
        }
    }

    /// Tests whether the operation has ended, well or badly.
    pub fn check_if_completed(&self) -> (done: bool)
        ensures
            done == self@.status().terminal(),
    {
        self.get_status().is_terminal()
    }

    /// Reads the status and notes the clock reading if it differs from the
    /// one read before, so that a caller can wait for it to settle.
    pub fn track_status(&mut self, now_ms: u64) -> (status: CompletionStatus)
        ensures
            status@ == old(self)@.status(),
            final(self)@ == (if old(self)@.last_status == Some(status@) {
                old(self)@
            } else {
                ManagerView {
                    last_status: Some(status@),
                    last_status_change: Some(now_ms),
                    ..old(self)@
                }
            }),
    {
        let status = self.get_status();
        let unchanged = match &self.last_status {
            Some(last) => last.same_as(&status),
            None => false,
        };
        if !unchanged {
            self.last_status = Some(status.clone());
            self.last_status_change = Some(now_ms);
        }
        status
    }

    pub fn get_duration(&self) -> (duration: Option<u64>)
        ensures
            duration == self@.duration,
    {
        self.duration
    }

    pub fn get_current_option(&self) -> (option: Option<&FlashingOption>)
        ensures
            match option {
                Some(o) => self@.current_option == Some(*o),
                None => self@.current_option is None,
            },
    {
        match &self.current_option {
            Some(o) => Some(o),
            None => None,
        }
    }

    pub fn logger(&self) -> (logger: &Logger)
        ensures
            logger@ == self@.logger,
    {
        &self.logger
    }

    /// The log, for what the caller itself has to report.
    pub fn logger_mut(&mut self) -> (logger: &mut Logger)
        ensures
            logger@ == old(self)@.logger,
            final(self)@ == (ManagerView { logger: final(logger)@, ..old(self)@ }),
    {
        &mut self.logger
    }

    /// Reports that the staged firmware image could not be removed. The
    /// status does not change.
    pub fn cleanup_failed(&mut self, reason: &str, after_failed_start: bool, now_ms: u64)
        ensures
            final(self)@ == (ManagerView {
                logger: if after_failed_start {
                    old(self)@.at(now_ms).logger.logged(
                        LogLevel::Warning,
                        "Failed to clean up temporary firmware file: "@ + reason@,
                    )
                } else {
                    old(self)@.at(now_ms).logger.debugged(
                        "Failed to clean up temporary firmware file: "@ + reason@,
                    )
                },
                ..old(self)@
            }),
    {
        self.logger.set_time(now_ms);
        self.process_executor.cleanup_failed(reason, after_failed_start, &mut self.logger);
    }

    /// Asks the watchdog to end at its next check.
    pub fn stop_monitor_thread(&mut self)
        ensures
            final(self)@ == (ManagerView {
                monitor: MonitorView { running: false, ..old(self)@.monitor },
                ..old(self)@
            }),
    {
        self.monitor.stop_monitor_thread();
    }

    /// Asks the DNA poller to end at its next look.
    pub fn stop_dna_thread(&mut self)
        ensures
            final(self)@ == (ManagerView {
                dna: DnaReaderView { running: false, ..old(self)@.dna },
                logger: old(self)@.logger.logged(
                    LogLevel::Warning,
                    "DNA processing thread stop requested"@,
                ),
                ..old(self)@
            }),
    {
        self.dna_reader.stop_processing_thread(&mut self.logger);
    }

    pub fn get_last_status_change_time(&self) -> (time: Option<u64>)
        ensures
            time == self@.last_status_change,
    {
        self.last_status_change
    }

    /// Tests whether the tool's lines go to the line monitor.
    pub fn is_monitoring(&self) -> (b: bool)
        ensures
            b == self@.monitoring(),
    {
        match &self.current_option {
            Some(option) => option.is_flash_operation(),
            None => false,
        }
    }

    /// Tests whether the operation was cut short.
    pub fn was_terminated_early(&self) -> (b: bool)
        ensures
            b == self@.monitor.terminated,
    {
        self.monitor.was_terminated_early()
    }
}

} // verus!
