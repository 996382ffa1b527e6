//! A bounded event log with severity levels.

use std::collections::VecDeque;
use vstd::prelude::*;
use crate::decimal::{decimal, decimal_padded, push_decimal, push_decimal_padded};

verus! {

/// The log keeps at most this many entries; the oldest leave first.
pub const MAX_LOG_ENTRIES: usize = 500;

#[derive(Clone, Copy, Debug, PartialEq, Eq, Structural)]
pub enum LogLevel {
    Info,
    Success,
    Error,
    Command,
    Output,
    Warning,
}

impl LogLevel {
    pub open spec fn label_text(self) -> Seq<char> {
        match self {
            LogLevel::Error => "ERROR"@,
            LogLevel::Warning => "WARN"@,
            LogLevel::Success => "SUCCESS"@,
            LogLevel::Command => "CMD"@,
            LogLevel::Output => "OUTPUT"@,
            LogLevel::Info => "INFO"@,
        }
    }

    /// The prefix under which entries of this level are shown.
    pub fn label(&self) -> (text: &'static str)
        ensures
            text@ == self.label_text(),
    {
        match self {
            LogLevel::Error => "ERROR",
            LogLevel::Warning => "WARN",
            LogLevel::Success => "SUCCESS",
            LogLevel::Command => "CMD",
            LogLevel::Output => "OUTPUT",
            LogLevel::Info => "INFO",
        }
    }
}

/// One logged event.
#[derive(Debug)]
pub struct LogEntry {
    /// Milliseconds between the logger's creation and the event.
    pub timestamp: u64,
    pub message: String,
    pub level: LogLevel,
}

pub struct LogEntryView {
    pub timestamp: u64,
    pub message: Seq<char>,
    pub level: LogLevel,
}

impl View for LogEntry {
    type V = LogEntryView;

    open spec fn view(&self) -> LogEntryView {
        LogEntryView { timestamp: self.timestamp, message: self.message@, level: self.level }
    }
}

impl Clone for LogEntry {
    fn clone(&self) -> (r: Self)
        ensures
            r == *self,
    {
        LogEntry { timestamp: self.timestamp, message: self.message.clone(), level: self.level }
    }
}

/// The log's contents once `entry` has been added to `entries`.
pub open spec fn push_bounded(entries: Seq<LogEntryView>, entry: LogEntryView) -> Seq<
    LogEntryView,
> {
    if entries.len() >= MAX_LOG_ENTRIES {
        entries.skip(entries.len() - MAX_LOG_ENTRIES + 1).push(entry)
    } else {
        entries.push(entry)
    }
}

pub struct LoggerView {
    pub name: Seq<char>,
    pub enabled: bool,
    pub debug_mode: bool,
    /// The clock reading that the next entry is stamped with.
    pub now: u64,
    pub entries: Seq<LogEntryView>,
}

impl LoggerView {
    /// The logger after an event of the given level has been reported.
    pub open spec fn logged(self, level: LogLevel, message: Seq<char>) -> LoggerView {
        if self.enabled {
            LoggerView {
                entries: push_bounded(
                    self.entries,
                    LogEntryView { timestamp: self.now, message, level },
                ),
                ..self
            }
        } else {
            self
        }
    }

    /// The logger after a diagnostic message: kept only in debug mode.
    pub open spec fn debugged(self, message: Seq<char>) -> LoggerView {
        if self.debug_mode {
            self.logged(LogLevel::Info, message)
        } else {
            self
        }
    }
}

pub struct Logger {
    name: String,
    enabled: bool,
    debug_mode: bool,
    now: u64,
    entries: VecDeque<LogEntry>,
}

impl View for Logger {
    type V = LoggerView;

    closed spec fn view(&self) -> LoggerView {
        LoggerView {
            name: self.name@,
            enabled: self.enabled,
            debug_mode: self.debug_mode,
            now: self.now,
            entries: self.entries@.map_values(|e: LogEntry| e@),
        }
    }
}

/// Seconds with two decimals for a time in milliseconds, halves rounded up.
pub open spec fn timestamp_text(millis: u64) -> Seq<char> {
    let hundredths = (millis / 10 + if millis % 10 >= 5 {
        1nat
    } else {
        0nat
    }) as nat;
    decimal(hundredths / 100) + seq!['.'] + decimal_padded(hundredths % 100, 2) + seq!['s']
}

impl Logger {
    #[verifier::type_invariant]
    spec fn bounded(&self) -> bool {
        self.entries@.len() <= MAX_LOG_ENTRIES
    }

    /// An enabled, empty logger whose clock reads zero.
    pub fn new(name: &str) -> (logger: Logger)
        ensures
            logger@ == (LoggerView {
                name: name@,
                enabled: true,
                debug_mode: false,
                now: 0,
                entries: Seq::empty(),
            }),
    {
        let logger = Logger {
            name: name.to_owned(),
            enabled: true,
            debug_mode: false,
            now: 0,
            entries: VecDeque::with_capacity(MAX_LOG_ENTRIES),
        };
        assert(logger.entries@.map_values(|e: LogEntry| e@) =~= Seq::empty());
        logger
    }

    /// Sets the clock reading, in milliseconds since the logger was made,
    /// that later entries are stamped with.
    pub fn set_time(&mut self, elapsed_ms: u64)
        ensures
            final(self)@ == (LoggerView { now: elapsed_ms, ..old(self)@ }),
    {
        proof {
            use_type_invariant(&*self);
        }
        self.now = elapsed_ms;
    }

    pub fn set_enabled(&mut self, enabled: bool)
        ensures
            final(self)@ == (LoggerView { enabled, ..old(self)@ }),
    {
        proof {
            use_type_invariant(&*self);
        }
        self.enabled = enabled;
    }

    pub fn set_debug_mode(&mut self, debug: bool)
        ensures
            final(self)@ == (LoggerView { debug_mode: debug, ..old(self)@ }),
    {
        proof {
            use_type_invariant(&*self);
        }
        self.debug_mode = debug;
    }

    /// Adds a message at the given level, dropping the oldest entry when the
    /// log is full. A disabled logger ignores it.
    pub fn log(&mut self, message: &str, level: LogLevel)
        ensures
            final(self)@ == old(self)@.logged(level, message@),
    {
        proof {
            use_type_invariant(&*self);
        }
        if !self.enabled {
            return ;
        }
        let mut entries: VecDeque<LogEntry> = VecDeque::new();
        std::mem::swap(&mut self.entries, &mut entries);
        if entries.len() >= MAX_LOG_ENTRIES {
            let _ = entries.pop_front();
        }
        let entry = LogEntry { timestamp: self.now, message: message.to_owned(), level };
        entries.push_back(entry);
        self.entries = entries;
        assert(self@.entries =~= push_bounded(old(self)@.entries, entry@));
    }

    pub fn info(&mut self, message: &str)
        ensures
            final(self)@ == old(self)@.logged(LogLevel::Info, message@),
    {
        self.log(message, LogLevel::Info);
    }

    pub fn success(&mut self, message: &str)
        ensures
            final(self)@ == old(self)@.logged(LogLevel::Success, message@),
    {
        self.log(message, LogLevel::Success);
    }

    pub fn warning(&mut self, message: &str)
        ensures
            final(self)@ == old(self)@.logged(LogLevel::Warning, message@),
    {
        self.log(message, LogLevel::Warning);
    }

    pub fn error(&mut self, message: &str)
        ensures
            final(self)@ == old(self)@.logged(LogLevel::Error, message@),
    {
        self.log(message, LogLevel::Error);
    }

    pub fn command(&mut self, message: &str)
        ensures
            final(self)@ == old(self)@.logged(LogLevel::Command, message@),
    {
        self.log(message, LogLevel::Command);
    }

    pub fn output(&mut self, message: &str)
        ensures
            final(self)@ == old(self)@.logged(LogLevel::Output, message@),
    {
        self.log(message, LogLevel::Output);
    }

    /// Adds a diagnostic message at `Info` level, in debug mode only.
    pub fn debug(&mut self, message: &str)
        ensures
            final(self)@ == old(self)@.debugged(message@),
    {
        if self.enabled && self.debug_mode {
            self.log(message, LogLevel::Info);
        }
    }

    /// A copy of the entries, oldest first.
    pub fn get_entries(&self) -> (entries: Vec<LogEntry>)
        ensures
            entries@.map_values(|e: LogEntry| e@) == self@.entries,
            entries@.len() <= MAX_LOG_ENTRIES,
    {
        proof {
            use_type_invariant(self);
        }
        let mut out: Vec<LogEntry> = Vec::new();
        let mut i: usize = 0;
        while i < self.entries.len()
            invariant
                i <= self.entries@.len(),
                out@ == self.entries@.take(i as int),
            decreases self.entries@.len() - i,
        {
            out.push(self.entries[i].clone());
            i += 1;
        }
        assert(out@ =~= self.entries@);
        out
    }

    pub fn clear(&mut self)
        ensures
            final(self)@ == (LoggerView { entries: Seq::empty(), ..old(self)@ }),
    {
        self.entries = VecDeque::new();
        assert(self.entries@.map_values(|e: LogEntry| e@) =~= Seq::empty());
    }

    /// The clock reading that entries are stamped with.
    pub fn time(&self) -> (now: u64)
        ensures
            now == self@.now,
    {
        self.now
    }

    /// The name given at creation.
    pub fn name(&self) -> (name: &str)
        ensures
            name@ == self@.name,
    {
        self.name.as_str()
    }

    /// Renders a time stamp as seconds with two decimals.
    pub fn format_timestamp(&self, timestamp: u64) -> (text: String)
        ensures
            text@ == timestamp_text(timestamp),
    {
        let round: u64 = if timestamp % 10 >= 5 {
            1
        } else {
            0
        };
        let hundredths: u64 = timestamp / 10 + round;
        let mut text = String::new();
        push_decimal(&mut text, hundredths / 100);
        text.push('.');
        push_decimal_padded(&mut text, hundredths % 100, 2);
        text.push('s');
        assert(text@ =~= timestamp_text(timestamp));
        text
    }
}

} // verus!
