//! Watches the programmer's output for sector writes whose timing betrays a
//! bad connection, and decides when the operation must be cut short.

use vstd::prelude::*;
use crate::decimal::{parse_decimal, parse_unsigned};
use crate::logger::{LogLevel, Logger};
use crate::text::{
    contains, first_word, includes, leading_word, second_piece, split_second, to_chars,
};

verus! {

/// Sector writes faster than this many milliseconds count as anomalous
/// under the default policy.
pub const NORMAL_WRITE_THRESHOLD_MS: u32 = 10;

/// Anomalous writes that the default policy tolerates.
pub const MAX_ANOMALOUS_WRITES: u32 = 35;

/// Milliseconds between two checks of the watchdog.
pub const MONITOR_CHECK_INTERVAL_MS: u64 = 50;

/// Checks in a row that must find the limit exceeded before the watchdog
/// acts.
pub const WATCHDOG_CONFIRMATIONS: u64 = 2;

/// What counts as an anomalous sector write, and how many are tolerated.
#[derive(Clone, Copy, Debug, PartialEq, Eq, Structural)]
pub struct MonitorPolicy {
    pub threshold_ms: u32,
    /// Writes below the threshold are the anomaly; otherwise writes above it.
    pub quick_is_anomalous: bool,
    pub max_anomalous: u32,
}

impl MonitorPolicy {
    pub open spec fn anomalous(self, write_ms: nat) -> bool {
        if self.quick_is_anomalous {
            write_ms < self.threshold_ms
        } else {
            write_ms > self.threshold_ms
        }
    }

    /// Tests a write time against the threshold.
    pub fn is_anomalous(&self, write_ms: u32) -> (b: bool)
        ensures
            b == self.anomalous(write_ms as nat),
    {
        if self.quick_is_anomalous {
            write_ms < self.threshold_ms
        } else {
            write_ms > self.threshold_ms
        }
    }
}

impl Default for MonitorPolicy {
    fn default() -> (policy: MonitorPolicy)
        ensures
            policy == (MonitorPolicy {
                threshold_ms: NORMAL_WRITE_THRESHOLD_MS,
                quick_is_anomalous: true,
                max_anomalous: MAX_ANOMALOUS_WRITES,
            }),
    {
        MonitorPolicy {
            threshold_ms: NORMAL_WRITE_THRESHOLD_MS,
            quick_is_anomalous: true,
            max_anomalous: MAX_ANOMALOUS_WRITES,
        }
    }
}

/// The line reports a sector write: it names a sector and a duration, either
/// in the tool's `Info :` form (with or without an `[ERROR]` prefix) or at
/// least with a unit.
pub open spec fn is_sector_line(line: Seq<char>) -> bool {
    &&& contains(line, "sector"@)
    &&& contains(line, "took"@)
    &&& contains(line, "Info :"@) || contains(line, "ms"@)
}

/// The duration in milliseconds that the line reports: the first word
/// between the first `took` and the next, read as a 32-bit unsigned number.
pub open spec fn write_time(line: Seq<char>) -> Option<nat> {
    match second_piece(line, "took"@) {
        None => None,
        Some(rest) => match first_word(rest) {
            None => None,
            Some(word) => parse_unsigned(word, u32::MAX as nat),
        },
    }
}

/// Tests whether a line reports a sector write.
pub fn looks_like_sector_write(line: &[char]) -> (b: bool)
    ensures
        b == is_sector_line(line@),
{
    includes(line, "sector") && includes(line, "took") && (includes(line, "Info :") || includes(line, "ms"))
}

/// Reads the duration that a line reports after `took`.
pub fn extract_write_time(line: &[char]) -> (time: Option<u32>)
    ensures
        match time {
            Some(t) => write_time(line@) == Some(t as nat),
            None => write_time(line@) is None,
        },
{
    match split_second(line, "took") {
        None => None,
        Some(rest) => match leading_word(rest.as_slice()) {
            None => None,
            Some(word) => match parse_decimal(word.as_slice(), 0xffff_ffff) {
                Some(v) => Some(v as u32),
                None => None,
            },
        },
    }
}

/// One more, unless the counter is full.
pub open spec fn bump(n: u64) -> u64 {
    if n < u64::MAX {
        (n + 1) as u64
    } else {
        n
    }
}

fn increment(n: u64) -> (m: u64)
    ensures
        m == bump(n),
{
    if n < u64::MAX {
        n + 1
    } else {
        n
    }
}

pub struct MonitorView {
    /// Sector writes whose duration was on the wrong side of the threshold.
    pub anomalous: u64,
    /// Sector writes seen.
    pub total: u64,
    pub auto_terminate: bool,
    pub terminated: bool,
    /// A watchdog is polling the counters.
    pub running: bool,
    /// Checks in a row in which the watchdog found the limit exceeded.
    pub consecutive: u64,
    pub policy: MonitorPolicy,
}

impl MonitorView {
    /// Termination is allowed and the anomalies exceed what is tolerated.
    pub open spec fn over_limit(self) -> bool {
        self.auto_terminate && self.anomalous > self.policy.max_anomalous
    }

    /// The state after a sector write whose reported duration is `time`
    /// (`None` where it could not be read).
    pub open spec fn counted(self, time: Option<nat>) -> MonitorView {
        let total = bump(self.total);
        match time {
            None => MonitorView { total, ..self },
            Some(t) => {
                let anomalous = if self.policy.anomalous(t) {
                    bump(self.anomalous)
                } else {
                    self.anomalous
                };
                let tripped = self.auto_terminate && anomalous > self.policy.max_anomalous;
                MonitorView {
                    total,
                    anomalous,
                    terminated: self.terminated || tripped,
                    running: self.running && !tripped,
                    ..self
                }
            },
        }
    }

    /// The state after one line of the tool's output.
    pub open spec fn observed(self, line: Seq<char>) -> MonitorView {
        if self.terminated || !is_sector_line(line) {
            self
        } else {
            self.counted(write_time(line))
        }
    }

    /// The state after one check of the watchdog.
    pub open spec fn checked(self) -> MonitorView {
        if !self.running {
            self
        } else if self.over_limit() {
            let consecutive = bump(self.consecutive);
            if consecutive >= WATCHDOG_CONFIRMATIONS {
                MonitorView { consecutive, terminated: true, running: false, ..self }
            } else {
                MonitorView { consecutive, ..self }
            }
        } else {
            MonitorView { consecutive: 0, ..self }
        }
    }

    /// The state after a whole stream of lines, first to last.
    pub open spec fn observed_all(self, lines: Seq<Seq<char>>) -> MonitorView
        decreases lines.len(),
    {
        if lines.len() == 0 {
            self
        } else {
            self.observed(lines[0]).observed_all(lines.drop_first())
        }
    }
}

/// How many lines of the stream report a sector write with an anomalous
/// duration.
pub open spec fn anomalous_lines(policy: MonitorPolicy, lines: Seq<Seq<char>>) -> nat
    decreases lines.len(),
{
    if lines.len() == 0 {
        0
    } else {
        let first: nat = if is_sector_line(lines[0]) && write_time(lines[0]) is Some
            && policy.anomalous(write_time(lines[0])->0) {
            1
        } else {
            0
        };
        first + anomalous_lines(policy, lines.drop_first())
    }
}

/// What the caller must do after a line has been handed to the monitor.
#[derive(Clone, Copy, Debug, PartialEq, Eq, Structural)]
pub enum LineAction {
    /// The line changed nothing.
    Ignored,
    /// The line was counted as a sector write.
    Counted,
    /// The line was counted and the limit is exceeded: kill the tool.
    Terminate,
}

/// What the watchdog must do after a check.
#[derive(Clone, Copy, Debug, PartialEq, Eq, Structural)]
pub enum WatchdogAction {
    /// Sleep for `MONITOR_CHECK_INTERVAL_MS` and check again.
    Continue,
    /// Kill the tool and end the watchdog.
    Terminate,
    /// End the watchdog: it was stopped.
    Stop,
}

pub struct OperationMonitor {
    anomalous_write_count: u64,
    total_sector_count: u64,
    auto_terminate_enabled: bool,
    terminated_early: bool,
    monitor_running: bool,
    consecutive_detections: u64,
    policy: MonitorPolicy,
}

impl View for OperationMonitor {
    type V = MonitorView;

    closed spec fn view(&self) -> MonitorView {
        MonitorView {
            anomalous: self.anomalous_write_count,
            total: self.total_sector_count,
            auto_terminate: self.auto_terminate_enabled,
            terminated: self.terminated_early,
            running: self.monitor_running,
            consecutive: self.consecutive_detections,
            policy: self.policy,
        }
    }
}

impl OperationMonitor {
    /// A monitor at rest under the default policy, with termination
    /// allowed.
    pub open spec fn new_view() -> MonitorView {
        MonitorView {
            anomalous: 0,
            total: 0,
            auto_terminate: true,
            terminated: false,
            running: false,
            consecutive: 0,
            policy: MonitorPolicy {
                threshold_ms: NORMAL_WRITE_THRESHOLD_MS,
                quick_is_anomalous: true,
                max_anomalous: MAX_ANOMALOUS_WRITES,
            },
        }
    }

    /// A monitor under the default policy, with termination allowed.
    pub fn new() -> (monitor: OperationMonitor)
        ensures
            monitor@ == OperationMonitor::new_view(),
    {
        OperationMonitor::with_policy(MonitorPolicy::default())
    }

    /// A monitor under the given policy, with termination allowed.
    pub fn with_policy(policy: MonitorPolicy) -> (monitor: OperationMonitor)
        ensures
            monitor@ == (MonitorView {
                anomalous: 0,
                total: 0,
                auto_terminate: true,
                terminated: false,
                running: false,
                consecutive: 0,
                policy,
            }),
    {
        OperationMonitor {
            anomalous_write_count: 0,
            total_sector_count: 0,
            auto_terminate_enabled: true,
            terminated_early: false,
            monitor_running: false,
            consecutive_detections: 0,
            policy,
        }
    }

    /// Allows or forbids the monitor to cut an operation short.
    pub fn set_auto_terminate(&mut self, enabled: bool)
        ensures
            final(self)@ == (MonitorView { auto_terminate: enabled, ..old(self)@ }),
    {
        self.auto_terminate_enabled = enabled;
    }

    /// Stops the watchdog and clears the counters and the termination flag.
    pub fn reset_counters(&mut self)
        ensures
            final(self)@ == (MonitorView {
                anomalous: 0,
                total: 0,
                terminated: false,
                running: false,
                consecutive: 0,
                ..old(self)@
            }),
    {
        self.stop_monitor_thread();
        self.anomalous_write_count = 0;
        self.total_sector_count = 0;
        self.terminated_early = false;
        self.consecutive_detections = 0;
    }

    pub fn was_terminated_early(&self) -> (b: bool)
        ensures
            b == self@.terminated,
    {
        self.terminated_early
    }

    pub fn anomalous_write_count(&self) -> (n: u64)
        ensures
            n == self@.anomalous,
    {
        self.anomalous_write_count
    }

    pub fn total_sector_count(&self) -> (n: u64)
        ensures
            n == self@.total,
    {
        self.total_sector_count
    }

    pub fn is_monitor_running(&self) -> (b: bool)
        ensures
            b == self@.running,
    {
        self.monitor_running
    }

    /// Arms the line monitor. Returns whether the caller must start a
    /// watchdog; while one is running, a further call changes nothing.
    pub fn create_line_monitor(&mut self) -> (start_watchdog: bool)
        ensures
            start_watchdog == !old(self)@.running,
            final(self)@ == (if old(self)@.running {
                old(self)@
            } else {
                MonitorView { running: true, consecutive: 0, ..old(self)@ }
            }),
    {
        if self.monitor_running {
            false
        } else {
            self.monitor_running = true;
            self.consecutive_detections = 0;
            true
        }
    }

    /// Asks the watchdog to end at its next check.
    pub fn stop_monitor_thread(&mut self)
        ensures
            final(self)@ == (MonitorView { running: false, ..old(self)@ }),
    {
        self.monitor_running = false;
    }

    /// Handles one line of the tool's output: sector writes are counted
    /// until the operation has been terminated, other lines are ignored.
    pub fn process_sector_writes(&mut self, line: &str, logger: &mut Logger) -> (action:
        LineAction)
        ensures
            final(self)@ == old(self)@.observed(line@),
            action == (if old(self)@.terminated || !is_sector_line(line@) {
                LineAction::Ignored
            } else {
                sector_action(old(self)@, final(self)@)
            }),
            final(logger)@ == termination_logged(old(logger)@, action),
    {
        if self.terminated_early {
            return LineAction::Ignored;
        }
        let chars = to_chars(line);
        if looks_like_sector_write(chars.as_slice()) {
            self.count_sector_write(chars.as_slice(), logger)
        } else {
            LineAction::Ignored
        }
    }

    /// Counts a line that is known to report a sector write, and decides
    /// whether the limit is now exceeded.
    pub fn handle_sector_write(&mut self, line: &str, logger: &mut Logger) -> (action: LineAction)
        ensures
            final(self)@ == old(self)@.counted(write_time(line@)),
            action == sector_action(old(self)@, final(self)@),
            final(logger)@ == termination_logged(old(logger)@, action),
    {
        let chars = to_chars(line);
        self.count_sector_write(chars.as_slice(), logger)
    }

    fn count_sector_write(&mut self, line: &[char], logger: &mut Logger) -> (action: LineAction)
        ensures
            final(self)@ == old(self)@.counted(write_time(line@)),
            action == sector_action(old(self)@, final(self)@),
            final(logger)@ == termination_logged(old(logger)@, action),
    {
        self.total_sector_count = increment(self.total_sector_count);
        match extract_write_time(line) {
            None => LineAction::Counted,
            Some(write_ms) => {
                if self.policy.is_anomalous(write_ms) {
                    self.anomalous_write_count = increment(self.anomalous_write_count);
                }
                if self.auto_terminate_enabled && self.anomalous_write_count
                    > self.policy.max_anomalous as u64 {
                    let already = self.terminated_early;
                    self.terminated_early = true;
                    self.monitor_running = false;
                    if already {
                        LineAction::Counted
                    } else {
                        logger.error(
                            "Operation terminated early - too many anomalous sector writes detected.",
                        );
                        LineAction::Terminate
                    }
                } else {
                    LineAction::Counted
                }
            },
        }
    }

    /// One check of the watchdog: the limit must be found exceeded in
    /// `WATCHDOG_CONFIRMATIONS` checks in a row before it terminates.
    pub fn watchdog_check(&mut self, logger: &mut Logger) -> (action: WatchdogAction)
        ensures
            final(self)@ == old(self)@.checked(),
            action == (if !old(self)@.running {
                WatchdogAction::Stop
            } else if final(self)@.terminated && !old(self)@.terminated {
                WatchdogAction::Terminate
            } else if final(self)@.running {
                WatchdogAction::Continue
            } else {
                WatchdogAction::Stop
            }),
            final(logger)@ == (if action == WatchdogAction::Terminate {
                old(logger)@.logged(
                    LogLevel::Error,
                    "Operation terminated early due to connection issues."@,
                )
            } else {
                old(logger)@
            }),
    {
        if !self.monitor_running {
            return WatchdogAction::Stop;
        }
        if self.auto_terminate_enabled && self.anomalous_write_count
            > self.policy.max_anomalous as u64 {
            self.consecutive_detections = increment(self.consecutive_detections);
            if self.consecutive_detections >= WATCHDOG_CONFIRMATIONS {
                let already = self.terminated_early;
                self.terminated_early = true;
                self.monitor_running = false;
                if already {
                    WatchdogAction::Stop
                } else {
                    logger.error("Operation terminated early due to connection issues.");
                    WatchdogAction::Terminate
                }
            } else {
                WatchdogAction::Continue
            }
        } else {
            self.consecutive_detections = 0;
            WatchdogAction::Continue
        }
    }
}

/// The action that follows the counting of a sector write.
pub open spec fn sector_action(before: MonitorView, after: MonitorView) -> LineAction {
    if after.terminated && !before.terminated {
        LineAction::Terminate
    } else {
        LineAction::Counted
    }
}

/// The log after a step of the line monitor: a termination is reported once.
pub open spec fn termination_logged(
    log: crate::logger::LoggerView,
    action: LineAction,
) -> crate::logger::LoggerView {
    if action == LineAction::Terminate {
        log.logged(
            LogLevel::Error,
            "Operation terminated early - too many anomalous sector writes detected."@,
        )
    } else {
        log
    }
}

/// What reaches the monitor: a line of the tool's output, or a check of the
/// watchdog.
pub enum MonitorEvent {
    Line(Seq<char>),
    Check,
}

impl MonitorView {
    /// The state after one event.
    pub open spec fn after(self, event: MonitorEvent) -> MonitorView {
        match event {
            MonitorEvent::Line(line) => self.observed(line),
            MonitorEvent::Check => self.checked(),
        }
    }

    /// How many of the events, taken in order, make the monitor ask for
    /// the tool to be killed.
    pub open spec fn kills(self, events: Seq<MonitorEvent>) -> nat
        decreases events.len(),
    {
        if events.len() == 0 {
            0
        } else {
            let next = self.after(events[0]);
            let first: nat = if next.terminated && !self.terminated {
                1
            } else {
                0
            };
            first + next.kills(events.drop_first())
        }
    }
}

/// However lines and checks of the watchdog interleave, the monitor asks
/// for the tool to be killed at most once, and never again once the
/// operation has been terminated.
pub proof fn lemma_kills_at_most_once(m: MonitorView, events: Seq<MonitorEvent>)
    ensures
        m.kills(events) <= 1,
        m.terminated ==> m.kills(events) == 0,
    decreases events.len(),
{
    if events.len() > 0 {
        lemma_kills_at_most_once(m.after(events[0]), events.drop_first());
    }
}

/// Once the operation has been terminated, no line changes the monitor:
/// nothing is counted and nothing is triggered a second time.
pub proof fn lemma_terminated_is_final(m: MonitorView, lines: Seq<Seq<char>>)
    requires
        m.terminated,
    ensures
        m.observed_all(lines) == m,
    decreases lines.len(),
{
    if lines.len() > 0 {
        lemma_terminated_is_final(m, lines.drop_first());
    }
}

/// With termination allowed, a stream whose anomalous sector writes carry
/// the count over the tolerated maximum leaves the monitor terminated.
pub proof fn lemma_crossing_limit_terminates(m: MonitorView, lines: Seq<Seq<char>>)
    requires
        m.auto_terminate,
        m.anomalous <= m.policy.max_anomalous,
        m.anomalous + anomalous_lines(m.policy, lines) > m.policy.max_anomalous,
    ensures
        m.observed_all(lines).terminated,
    decreases lines.len(),
{
    if lines.len() == 0 {
    } else if m.terminated {
        lemma_terminated_is_final(m, lines);
    } else {
        let next = m.observed(lines[0]);
        if next.terminated {
            lemma_terminated_is_final(next, lines.drop_first());
        } else {
            lemma_crossing_limit_terminates(next, lines.drop_first());
        }
    }
}

/// With termination forbidden, no stream of lines and no check of the
/// watchdog sets the termination flag.
pub proof fn lemma_disabled_never_terminates(m: MonitorView, lines: Seq<Seq<char>>)
    requires
        !m.auto_terminate,
        !m.terminated,
    ensures
        !m.observed_all(lines).terminated,
        !m.checked().terminated,
    decreases lines.len(),
{
    if lines.len() > 0 {
        lemma_disabled_never_terminates(m.observed(lines[0]), lines.drop_first());
    }
}

} // verus!
