//! Reading the device DNA: the artifact that the tool writes, its parsing,
//! and the polling that waits for it.

use vstd::prelude::*;
use crate::decimal::{decimal, push_decimal};
use crate::hex::{format_verilog_hex, verilog_hex};
use crate::logger::{LogLevel, Logger, LoggerView};
use crate::process::{
    CommandOptions, CommandSpec, CommandSpecView, ExecutorView, ProcessExecutor,
    spawn_failure_text, CREATE_NO_WINDOW,
};
use crate::text::{contains, from_chars, includes, slice_range, to_chars, trim, trimmed};
use crate::types::{CompletionStatus, DnaInfo, DnaInfoView, FlashingOption, StatusView};

verus! {

/// Milliseconds to wait before the artifact is first looked for.
pub const DNA_READ_WAIT_MS: u64 = 50;

/// Milliseconds between two looks at the artifact.
pub const DNA_RETRY_WAIT_MS: u64 = 200;

/// Looks at the artifact before the read is given up.
pub const DNA_MAX_ATTEMPTS: u64 = 5;

/// An artifact with fewer bytes than this is incomplete.
pub const MIN_VALID_DNA_FILE_SIZE: u64 = 10;

/// Why an artifact yields no DNA.
#[derive(Clone, Copy, Debug, PartialEq, Eq, Structural)]
pub enum DnaParseError {
    /// No line holds `DNA =`.
    NotFound,
    /// The DNA line has no `(` after its `=`.
    HexNotFound,
    /// The `(` is never closed.
    HexUnterminated,
    /// What stands before the `(` is not a run of binary digits.
    InvalidBinary,
    /// What stands in the parentheses is not `0x` and hexadecimal digits.
    InvalidHex,
}

impl DnaParseError {
    pub open spec fn message_text(self) -> Seq<char> {
        match self {
            DnaParseError::NotFound => "DNA information not found in output file"@,
            DnaParseError::HexNotFound => "DNA hex value not found"@,
            DnaParseError::HexUnterminated => "Failed to parse DNA hex value"@,
            DnaParseError::InvalidBinary => "Invalid DNA binary format"@,
            DnaParseError::InvalidHex => "Invalid DNA hex format"@,
        }
    }

    /// The reason as the status shows it.
    pub fn message(&self) -> (text: &'static str)
        ensures
            text@ == self.message_text(),
    {
        match self {
            DnaParseError::NotFound => "DNA information not found in output file",
            DnaParseError::HexNotFound => "DNA hex value not found",
            DnaParseError::HexUnterminated => "Failed to parse DNA hex value",
            DnaParseError::InvalidBinary => "Invalid DNA binary format",
            DnaParseError::InvalidHex => "Invalid DNA hex format",
        }
    }
}

/// First index at or after `from` that holds `c`, or the length.
pub open spec fn index_of(s: Seq<char>, c: char, from: int) -> int
    decreases s.len() - from + 1,
{
    if from < 0 || from >= s.len() {
        s.len() as int
    } else if s[from] == c {
        from
    } else {
        index_of(s, c, from + 1)
    }
}

/// Index of the first `c` at or after `from`, or the length.
pub fn find_char(s: &[char], c: char, from: usize) -> (at: usize)
    requires
        from <= s.len(),
    ensures
        at == index_of(s@, c, from as int),
        from <= at <= s.len(),
{
    let mut i: usize = from;
    while i < s.len() && s[i] != c
        invariant
            from <= i <= s.len(),
            index_of(s@, c, from as int) == index_of(s@, c, i as int),
        decreases s.len() - i,
    {
        i += 1;
    }
    i
}

/// A non-empty run of the digits `0` and `1`.
pub open spec fn is_binary(s: Seq<char>) -> bool {
    s.len() > 0 && forall|i: int| 0 <= i < s.len() ==> (#[trigger] s[i] == '0' || s[i] == '1')
}

pub open spec fn is_hex_digit(c: char) -> bool {
    ('0' <= c <= '9') || ('a' <= c <= 'f') || ('A' <= c <= 'F')
}

/// `0x` followed by at least one hexadecimal digit and nothing else.
pub open spec fn is_hex_literal(s: Seq<char>) -> bool {
    &&& s.len() > 2
    &&& s[0] == '0'
    &&& s[1] == 'x'
    &&& forall|i: int| 2 <= i < s.len() ==> is_hex_digit(#[trigger] s[i])
}

/// The device family that the tool's output betrays.
pub open spec fn device_type_of(contents: Seq<char>) -> Seq<char> {
    if contains(contents, "CH347 Open Succ"@) {
        "CH347"@
    } else if contains(contents, "ftdi:"@) {
        "FTDI"@
    } else {
        "Unknown"@
    }
}

/// The first line, at or after `from`, that holds `DNA =`.
pub open spec fn dna_line_from(contents: Seq<char>, from: int) -> Option<Seq<char>>
    decreases contents.len() - from + 1,
{
    if from < 0 || from > contents.len() {
        None
    } else {
        let end = index_of(contents, '\n', from);
        let line = contents.subrange(from, end);
        if contains(line, "DNA ="@) {
            Some(line)
        } else if end < from || end >= contents.len() {
            None
        } else {
            dna_line_from(contents, end + 1)
        }
    }
}

/// The binary and the hexadecimal form of the DNA that a line of the shape
/// `DNA = <binary> (<hex>)` holds, each without surrounding white space.
pub open spec fn parse_dna_line(line: Seq<char>) -> Result<(Seq<char>, Seq<char>), DnaParseError> {
    let eq = index_of(line, '=', 0);
    if eq >= line.len() {
        Err(DnaParseError::NotFound)
    } else {
        let value = line.subrange(eq + 1, line.len() as int);
        let open = index_of(value, '(', 0);
        if open >= value.len() {
            Err(DnaParseError::HexNotFound)
        } else {
            let close = index_of(value, ')', open + 1);
            if close >= value.len() {
                Err(DnaParseError::HexUnterminated)
            } else {
                let binary = trim(value.subrange(0, open));
                let hex = trim(value.subrange(open + 1, close));
                if !is_binary(binary) {
                    Err(DnaParseError::InvalidBinary)
                } else if !is_hex_literal(hex) {
                    Err(DnaParseError::InvalidHex)
                } else {
                    Ok((binary, hex))
                }
            }
        }
    }
}

/// What the artifact's text yields.
pub open spec fn parse_dna_contents(contents: Seq<char>) -> Result<DnaInfoView, DnaParseError> {
    match dna_line_from(contents, 0) {
        None => Err(DnaParseError::NotFound),
        Some(line) => match parse_dna_line(line) {
            Err(e) => Err(e),
            Ok((binary, hex)) => Ok(
                DnaInfoView {
                    dna_value: hex,
                    dna_raw_value: binary,
                    device_type: device_type_of(contents),
                },
            ),
        },
    }
}

fn check_binary(s: &[char]) -> (ok: bool)
    ensures
        ok == is_binary(s@),
{
    if s.len() == 0 {
        return false;
    }
    let mut i: usize = 0;
    while i < s.len()
        invariant
            i <= s.len(),
            forall|j: int| 0 <= j < i ==> (#[trigger] s@[j] == '0' || s@[j] == '1'),
        decreases s.len() - i,
    {
        if s[i] != '0' && s[i] != '1' {
            return false;
        }
        i += 1;
    }
    true
}

/// Tests whether a text is a non-empty run of binary digits.
pub fn is_binary_text(text: &str) -> (ok: bool)
    ensures
        ok == is_binary(text@),
{
    let chars = to_chars(text);
    check_binary(chars.as_slice())
}

fn check_hex_literal(s: &[char]) -> (ok: bool)
    ensures
        ok == is_hex_literal(s@),
{
    if s.len() <= 2 || s[0] != '0' || s[1] != 'x' {
        return false;
    }
    let mut i: usize = 2;
    while i < s.len()
        invariant
            2 <= i <= s.len(),
            forall|j: int| 2 <= j < i ==> is_hex_digit(#[trigger] s@[j]),
        decreases s.len() - i,
    {
        let c = s[i];
        if !(('0' <= c && c <= '9') || ('a' <= c && c <= 'f') || ('A' <= c && c <= 'F')) {
            return false;
        }
        i += 1;
    }
    true
}

fn parse_line(line: &[char]) -> (r: Result<(Vec<char>, Vec<char>), DnaParseError>)
    ensures
        match r {
            Ok((binary, hex)) => parse_dna_line(line@) == Ok::<
                (Seq<char>, Seq<char>),
                DnaParseError,
            >((binary@, hex@)),
            Err(e) => parse_dna_line(line@) == Err::<(Seq<char>, Seq<char>), DnaParseError>(e),
        },
{
    let eq = find_char(line, '=', 0);
    if eq >= line.len() {
        return Err(DnaParseError::NotFound);
    }
    let value = slice_range(line, eq + 1, line.len());
    let open = find_char(value.as_slice(), '(', 0);
    if open >= value.len() {
        return Err(DnaParseError::HexNotFound);
    }
    let close = find_char(value.as_slice(), ')', open + 1);
    if close >= value.len() {
        return Err(DnaParseError::HexUnterminated);
    }
    let before = slice_range(value.as_slice(), 0, open);
    let inside = slice_range(value.as_slice(), open + 1, close);
    let binary = trimmed(before.as_slice());
    let hex = trimmed(inside.as_slice());
    if !check_binary(binary.as_slice()) {
        return Err(DnaParseError::InvalidBinary);
    }
    if !check_hex_literal(hex.as_slice()) {
        return Err(DnaParseError::InvalidHex);
    }
    Ok((binary, hex))
}

fn find_dna_line(contents: &[char]) -> (r: Option<Vec<char>>)
    ensures
        match r {
            Some(line) => dna_line_from(contents@, 0) == Some(line@),
            None => dna_line_from(contents@, 0) is None,
        },
{
    let mut from: usize = 0;
    loop
        invariant
            from <= contents.len(),
            dna_line_from(contents@, 0) == dna_line_from(contents@, from as int),
        decreases contents.len() - from,
    {
        let end = find_char(contents, '\n', from);
        let line = slice_range(contents, from, end);
        if includes(line.as_slice(), "DNA =") {
            return Some(line);
        }
        if end >= contents.len() {
            return None;
        }
        from = end + 1;
    }
}

/// What a look at the artifact found.
#[derive(Debug, PartialEq, Eq)]
pub enum ArtifactObservation {
    /// No file is there.
    Missing,
    /// A file is there and could not be read, for the given reason.
    Unreadable(String),
    /// A file of `size` bytes is there, with this text.
    Found { size: u64, contents: String },
}

pub enum ObservationView {
    Missing,
    Unreadable(Seq<char>),
    Found { size: u64, contents: Seq<char> },
}

impl View for ArtifactObservation {
    type V = ObservationView;

    open spec fn view(&self) -> ObservationView {
        match self {
            ArtifactObservation::Missing => ObservationView::Missing,
            ArtifactObservation::Unreadable(reason) => ObservationView::Unreadable(reason@),
            ArtifactObservation::Found { size, contents } => ObservationView::Found {
                size: *size,
                contents: contents@,
            },
        }
    }
}

/// What the poller must do next.
#[derive(Clone, Copy, Debug, PartialEq, Eq, Structural)]
pub enum PollAction {
    /// Sleep for this many milliseconds, then look at the artifact again.
    Wait(u64),
    /// End the polling.
    Finished,
}

/// What a look at the artifact leads to.
pub enum PollVerdict {
    /// The poller had been asked to stop: nothing changes.
    Cancelled,
    /// No valid artifact yet, and attempts are left.
    Retry,
    /// No valid artifact after the last attempt, and the operation had
    /// already failed: that failure stays.
    GaveUp,
    /// The read has ended with this status.
    Settled(StatusView),
}

/// The failure reported when the artifact never appeared.
pub open spec fn not_found_text() -> Seq<char> {
    "DNA output file not found after "@ + decimal(DNA_MAX_ATTEMPTS as nat) + " attempts"@
}

/// The status that the text of a valid artifact leads to.
pub open spec fn parsed_status(contents: Seq<char>) -> StatusView {
    match parse_dna_contents(contents) {
        Ok(info) => StatusView::DnaReadCompleted(info),
        Err(e) => StatusView::Failed(e.message_text()),
    }
}

pub struct DnaReaderView {
    /// A poller is at work and has not been asked to stop.
    pub running: bool,
    /// Looks at the artifact that found nothing valid.
    pub attempts: u64,
}

pub open spec fn poll_verdict(
    reader: DnaReaderView,
    status: StatusView,
    observation: ObservationView,
) -> PollVerdict {
    if !reader.running {
        PollVerdict::Cancelled
    } else {
        match observation {
            ObservationView::Unreadable(reason) => PollVerdict::Settled(
                StatusView::Failed("Failed to read DNA output file: "@ + reason),
            ),
            ObservationView::Found { size, contents } if size >= MIN_VALID_DNA_FILE_SIZE =>
                PollVerdict::Settled(parsed_status(contents)),
            _ => if reader.attempts + 1 >= DNA_MAX_ATTEMPTS {
                if status is Failed {
                    PollVerdict::GaveUp
                } else {
                    PollVerdict::Settled(StatusView::Failed(not_found_text()))
                }
            } else {
                PollVerdict::Retry
            },
        }
    }
}

/// The reader after a look at the artifact.
pub open spec fn polled_reader(reader: DnaReaderView, verdict: PollVerdict) -> DnaReaderView {
    match verdict {
        PollVerdict::Cancelled => reader,
        PollVerdict::Retry => DnaReaderView { running: true, attempts: (reader.attempts + 1) as u64 },
        _ => DnaReaderView { running: false, attempts: 0 },
    }
}

/// The status after a look at the artifact.
pub open spec fn polled_status(status: StatusView, verdict: PollVerdict) -> StatusView {
    match verdict {
        PollVerdict::Settled(settled) => settled,
        _ => status,
    }
}

/// The log after a look at the artifact: the end of the read is reported.
pub open spec fn poll_logged(log: LoggerView, verdict: PollVerdict) -> LoggerView {
    match verdict {
        PollVerdict::Settled(StatusView::Failed(reason)) => log.logged(LogLevel::Error, reason),
        PollVerdict::Settled(StatusView::DnaReadCompleted(info)) => log.logged(
            LogLevel::Success,
            "DNA read completed successfully: "@ + info.dna_value,
        ),
        _ => log,
    }
}

/// The reader and the status after `looks` looks in a row that found no
/// valid artifact.
pub open spec fn after_misses(reader: DnaReaderView, status: StatusView, looks: nat) -> (
    DnaReaderView,
    StatusView,
)
    decreases looks,
{
    if looks == 0 {
        (reader, status)
    } else {
        let verdict = poll_verdict(reader, status, ObservationView::Missing);
        after_misses(
            polled_reader(reader, verdict),
            polled_status(status, verdict),
            (looks - 1) as nat,
        )
    }
}

/// A read whose artifact never appears ends after `DNA_MAX_ATTEMPTS`
/// looks: the poller stops, and the operation has failed for want of the
/// artifact unless it had failed before.
pub proof fn lemma_gives_up_after_max_attempts(status: StatusView)
    ensures
        ({
            let fresh = DnaReaderView { running: true, attempts: 0 };
            let end = after_misses(fresh, status, DNA_MAX_ATTEMPTS as nat);
            &&& !end.0.running
            &&& end.1 == (if status is Failed {
                status
            } else {
                StatusView::Failed(not_found_text())
            })
            &&& forall|looks: nat|
                looks < DNA_MAX_ATTEMPTS ==> (#[trigger] after_misses(fresh, status, looks)).0.running
                    && after_misses(fresh, status, looks).1 == status
        }),
{
    reveal_with_fuel(after_misses, 6);
}

/// The process that reads the DNA: the tool initialises the device and
/// exits.
pub open spec fn dna_command(option: FlashingOption) -> CommandSpecView {
    CommandSpecView {
        program: "./"@ + option.executable(),
        args: seq!["-f"@, "./"@ + option.config(), "-c"@, "exit"@],
        creation_flags: CREATE_NO_WINDOW,
    }
}

/// The stage of a DNA read as the user is told it.
pub open spec fn dna_stage_text(status: StatusView) -> Seq<char> {
    match status {
        StatusView::NotCompleted => "Waiting to start DNA read..."@,
        StatusView::InProgress(_) => "Retrieving device DNA..."@,
        StatusView::Completed => "DNA read successful!"@,
        StatusView::DnaReadCompleted(_) => "DNA read successful!"@,
        StatusView::Failed(reason) => "DNA read failed: "@ + reason,
    }
}

/// What the caller must start for a DNA read.
#[derive(Debug, PartialEq, Eq)]
pub struct DnaLaunch {
    pub command: CommandSpec,
    pub options: CommandOptions,
    /// A poller must be started; false while an earlier one is at work.
    pub start_poller: bool,
}

pub struct DnaReader {
    thread_running: bool,
    attempts: u64,
}

impl View for DnaReader {
    type V = DnaReaderView;

    closed spec fn view(&self) -> DnaReaderView {
        DnaReaderView { running: self.thread_running, attempts: self.attempts }
    }
}

impl DnaReader {
    pub fn new() -> (reader: DnaReader)
        ensures
            reader@ == (DnaReaderView { running: false, attempts: 0 }),
    {
        DnaReader { thread_running: false, attempts: 0 }
    }

    /// Tests whether a poller is at work.
    pub fn is_processing(&self) -> (b: bool)
        ensures
            b == self@.running,
    {
        self.thread_running
    }

    /// Begins a DNA read. An option that reads no DNA fails at once and
    /// nothing is to be started. Otherwise the status reports the
    /// initialisation, and the result names the process to start and says
    /// whether a poller is needed.
    pub fn execute(
        &mut self,
        option: &FlashingOption,
        executor: &mut ProcessExecutor,
        logger: &mut Logger,
    ) -> (launch: Option<DnaLaunch>)
        ensures
            !option.dna_read() ==> {
                &&& launch is None
                &&& final(self)@ == old(self)@
                &&& final(executor)@ == (ExecutorView {
                    status: StatusView::Failed("Invalid option for DNA read"@),
                    ..old(executor)@
                })
                &&& final(logger)@ == old(logger)@.logged(
                    LogLevel::Error,
                    "Invalid option for DNA read operation"@,
                )
            },
            option.dna_read() ==> {
                &&& launch matches Some(l)
                &&& l.command@ == dna_command(*option)
                &&& l.options == (CommandOptions { update_duration: true, cleanup_temp_files: true })
                &&& l.start_poller == !old(self)@.running
                &&& final(self)@ == (if old(self)@.running {
                    old(self)@
                } else {
                    DnaReaderView { running: true, attempts: 0 }
                })
                &&& final(executor)@ == (ExecutorView {
                    status: StatusView::InProgress("Initializing DNA read operation..."@),
                    ..old(executor)@
                })
                &&& final(logger)@ == old(logger)@
            },
    {
        if !option.is_dna_read() {
            logger.error("Invalid option for DNA read operation");
            executor.set_completion_status(
                CompletionStatus::Failed(String::from_str("Invalid option for DNA read")),
            );
            return None;
        }
        executor.set_completion_status(
            CompletionStatus::InProgress(String::from_str("Initializing DNA read operation...")),
        );
        let start_poller = !self.thread_running;
        if start_poller {
            self.thread_running = true;
            self.attempts = 0;
        }
        let command = DnaReader::prepare_dna_command(option);
        Some(
            DnaLaunch {
                command,
                options: CommandOptions { update_duration: true, cleanup_temp_files: true },
                start_poller,
            },
        )
    }

    /// Describes the process that reads the DNA under `option`.
    pub fn prepare_dna_command(option: &FlashingOption) -> (command: CommandSpec)
        ensures
            command@ == dna_command(*option),
    {
        let (exe, config) = option.get_command_args();
        let mut exe_path = String::from_str("./");
        exe_path.append(exe);
        let mut config_path = String::from_str("./");
        config_path.append(config);
        let mut args: Vec<&str> = Vec::new();
        args.push("-f");
        args.push(config_path.as_str());
        args.push("-c");
        args.push("exit");
        let command = ProcessExecutor::prepare_command(exe_path.as_str(), args.as_slice());
        assert(command@.args =~= dna_command(*option).args);
        command
    }

    /// Takes the outcome of starting the tool. A failure becomes the
    /// operation's status and stops the poller.
    pub fn run_dna_command(
        &mut self,
        spawned: Result<(), String>,
        executor: &mut ProcessExecutor,
        logger: &mut Logger,
    ) -> (started: bool)
        ensures
            started == spawned is Ok,
            match spawned {
                Ok(_) => final(self)@ == old(self)@ && final(executor)@ == old(executor)@
                    && final(logger)@ == old(logger)@,
                Err(reason) => {
                    &&& final(self)@ == (DnaReaderView { running: false, ..old(self)@ })
                    &&& final(executor)@ == (ExecutorView {
                        status: StatusView::Failed("Failed to execute DNA read command"@),
                        ..old(executor)@
                    })
                    &&& final(logger)@ == old(logger)@.logged(
                        LogLevel::Error,
                        spawn_failure_text(reason@),
                    ).logged(
                        LogLevel::Error,
                        "Failed to execute DNA read: "@ + spawn_failure_text(reason@),
                    )
                },
            },
    {
        match executor.execute_command(spawned, logger) {
            Ok(_) => true,
            Err(message) => {
                let mut text = String::from_str("Failed to execute DNA read: ");
                text.append(message.as_str());
                logger.error(text.as_str());
                executor.set_completion_status(
                    CompletionStatus::Failed(String::from_str("Failed to execute DNA read command")),
                );
                self.thread_running = false;
                false
            },
        }
    }

    /// Asks the poller to end at its next look.
    pub fn stop_processing_thread(&mut self, logger: &mut Logger)
        ensures
            final(self)@ == (DnaReaderView { running: false, ..old(self)@ }),
            final(logger)@ == old(logger)@.logged(
                LogLevel::Warning,
                "DNA processing thread stop requested"@,
            ),
    {
        self.thread_running = false;
        logger.warning("DNA processing thread stop requested");
    }

    /// The poller's first step: unless it was stopped already, the status
    /// reports the wait and the poller sleeps before its first look.
    pub fn begin_processing(&mut self, executor: &mut ProcessExecutor) -> (action: PollAction)
        ensures
            final(self)@ == old(self)@,
            action == (if old(self)@.running {
                PollAction::Wait(DNA_READ_WAIT_MS)
            } else {
                PollAction::Finished
            }),
            final(executor)@ == (if old(self)@.running && !old(executor)@.status.terminal() {
                ExecutorView {
                    status: StatusView::InProgress("Waiting for device response..."@),
                    ..old(executor)@
                }
            } else {
                old(executor)@
            }),
    {
        if !self.thread_running {
            return PollAction::Finished;
        }
        executor.note_progress("Waiting for device response...");
        PollAction::Wait(DNA_READ_WAIT_MS)
    }

    /// Tests whether an artifact of `size` bytes is incomplete and to be
    /// removed before polling.
    pub fn is_incomplete(size: u64) -> (b: bool)
        ensures
            b == (size < MIN_VALID_DNA_FILE_SIZE),
    {
        size < MIN_VALID_DNA_FILE_SIZE
    }

    /// The first of the candidate files that exists with a valid size; each
    /// is given by its size in bytes, `None` where it does not exist.
    pub fn find_dna_file(candidates: &[Option<u64>]) -> (found: Option<usize>)
        ensures
            match found {
                Some(i) => {
                    &&& i < candidates@.len()
                    &&& is_valid_artifact(candidates@[i as int])
                    &&& forall|j: int| 0 <= j < i ==> !is_valid_artifact(#[trigger] candidates@[j])
                },
                None => forall|j: int|
                    0 <= j < candidates@.len() ==> !is_valid_artifact(#[trigger] candidates@[j]),
            },
    {
        let mut i: usize = 0;
        while i < candidates.len()
            invariant
                i <= candidates.len(),
                forall|j: int| 0 <= j < i ==> !is_valid_artifact(#[trigger] candidates@[j]),
            decreases candidates.len() - i,
        {
            match candidates[i] {
                Some(size) => {
                    if size >= MIN_VALID_DNA_FILE_SIZE {
                        return Some(i);
                    }
                },
                None => {},
            }
            i += 1;
        }
        None
    }

    /// One look at the artifact, with what was found.
    pub fn poll(
        &mut self,
        observation: &ArtifactObservation,
        executor: &mut ProcessExecutor,
        logger: &mut Logger,
    ) -> (action: PollAction)
        ensures
            final(self)@ == polled_reader(
                old(self)@,
                poll_verdict(old(self)@, old(executor)@.status, observation@),
            ),
            final(executor)@ == (ExecutorView {
                status: polled_status(
                    old(executor)@.status,
                    poll_verdict(old(self)@, old(executor)@.status, observation@),
                ),
                ..old(executor)@
            }),
            final(logger)@ == poll_logged(
                old(logger)@,
                poll_verdict(old(self)@, old(executor)@.status, observation@),
            ),
            action == (if poll_verdict(old(self)@, old(executor)@.status, observation@) is Retry {
                PollAction::Wait(DNA_RETRY_WAIT_MS)
            } else {
                PollAction::Finished
            }),
    {
        if !self.thread_running {
            return PollAction::Finished;
        }
        match observation {
            ArtifactObservation::Unreadable(reason) => {
                let mut message = String::from_str("Failed to read DNA output file: ");
                message.append(reason.as_str());
                self.settle(CompletionStatus::Failed(message), executor, logger);
                PollAction::Finished
            },
            ArtifactObservation::Found { size, contents } => {
                if *size >= MIN_VALID_DNA_FILE_SIZE {
                    let status = match DnaReader::extract_dna_from_contents(contents.as_str()) {
                        Ok(info) => CompletionStatus::DnaReadCompleted(info),
                        Err(e) => CompletionStatus::Failed(String::from_str(e.message())),
                    };
                    self.settle(status, executor, logger);
                    PollAction::Finished
                } else {
                    self.missed(executor, logger)
                }
            },
            ArtifactObservation::Missing => self.missed(executor, logger),
        }
    }

    fn settle(
        &mut self,
        status: CompletionStatus,
        executor: &mut ProcessExecutor,
        logger: &mut Logger,
    )
        requires
            status@ is Failed || status@ is DnaReadCompleted,
        ensures
            final(self)@ == (DnaReaderView { running: false, attempts: 0 }),
            final(executor)@ == (ExecutorView { status: status@, ..old(executor)@ }),
            final(logger)@ == poll_logged(old(logger)@, PollVerdict::Settled(status@)),
    {
        match &status {
            CompletionStatus::Failed(reason) => {
                logger.error(reason.as_str());
            },
            CompletionStatus::DnaReadCompleted(info) => {
                let mut text = String::from_str("DNA read completed successfully: ");
                text.append(info.dna_value.as_str());
                logger.success(text.as_str());
            },
            _ => {},
        }
        executor.set_completion_status(status);
        self.thread_running = false;
        self.attempts = 0;
    }

    fn missed(&mut self, executor: &mut ProcessExecutor, logger: &mut Logger) -> (action:
        PollAction)
        requires
            old(self)@.running,
        ensures
            final(self)@ == polled_reader(
                old(self)@,
                poll_verdict(old(self)@, old(executor)@.status, ObservationView::Missing),
            ),
            final(executor)@ == (ExecutorView {
                status: polled_status(
                    old(executor)@.status,
                    poll_verdict(old(self)@, old(executor)@.status, ObservationView::Missing),
                ),
                ..old(executor)@
            }),
            final(logger)@ == poll_logged(
                old(logger)@,
                poll_verdict(old(self)@, old(executor)@.status, ObservationView::Missing),
            ),
            action == (if poll_verdict(
                old(self)@,
                old(executor)@.status,
                ObservationView::Missing,
            ) is Retry {
                PollAction::Wait(DNA_RETRY_WAIT_MS)
            } else {
                PollAction::Finished
            }),
    {
        if self.attempts >= DNA_MAX_ATTEMPTS - 1 {
            if executor.has_failed() {
                self.thread_running = false;
                self.attempts = 0;
            } else {
                let mut message = String::from_str("DNA output file not found after ");
                push_decimal(&mut message, DNA_MAX_ATTEMPTS);
                message.append(" attempts");
                self.settle(CompletionStatus::Failed(message), executor, logger);
            }
            PollAction::Finished
        } else {
            self.attempts = self.attempts + 1;
            PollAction::Wait(DNA_RETRY_WAIT_MS)
        }
    }

    /// Reads the DNA out of the artifact's text.
    pub fn extract_dna_from_contents(contents: &str) -> (r: Result<DnaInfo, DnaParseError>)
        ensures
            match r {
                Ok(info) => parse_dna_contents(contents@) == Ok::<DnaInfoView, DnaParseError>(info@),
                Err(e) => parse_dna_contents(contents@) == Err::<DnaInfoView, DnaParseError>(e),
            },
    {
        let chars = to_chars(contents);
        let device_type = if includes(chars.as_slice(), "CH347 Open Succ") {
            "CH347"
        } else if includes(chars.as_slice(), "ftdi:") {
            "FTDI"
        } else {
            "Unknown"
        };
        match find_dna_line(chars.as_slice()) {
            None => Err(DnaParseError::NotFound),
            Some(line) => match parse_line(line.as_slice()) {
                Err(e) => Err(e),
                Ok((binary, hex)) => Ok(
                    DnaInfo {
                        dna_value: from_chars(hex.as_slice()),
                        dna_raw_value: from_chars(binary.as_slice()),
                        device_type: String::from_str(device_type),
                    },
                ),
            },
        }
    }

    /// Reads the binary and the hexadecimal form out of one DNA line.
    pub fn extract_dna_hex_value(dna_line: &str) -> (r: Result<(String, String), DnaParseError>)
        ensures
            match r {
                Ok((binary, hex)) => parse_dna_line(dna_line@) == Ok::<
                    (Seq<char>, Seq<char>),
                    DnaParseError,
                >((binary@, hex@)),
                Err(e) => parse_dna_line(dna_line@) == Err::<(Seq<char>, Seq<char>), DnaParseError>(
                    e,
                ),
            },
    {
        let chars = to_chars(dna_line);
        match parse_line(chars.as_slice()) {
            Err(e) => Err(e),
            Ok((binary, hex)) => Ok((from_chars(binary.as_slice()), from_chars(hex.as_slice()))),
        }
    }

    /// The stage of a DNA read as the user is told it.
    pub fn get_dna_read_stage(current_status: &CompletionStatus) -> (text: String)
        ensures
            text@ == dna_stage_text(current_status@),
    {
        match current_status {
            CompletionStatus::NotCompleted => String::from_str("Waiting to start DNA read..."),
            CompletionStatus::InProgress(_) => String::from_str("Retrieving device DNA..."),
            CompletionStatus::Completed => String::from_str("DNA read successful!"),
            CompletionStatus::DnaReadCompleted(_) => String::from_str("DNA read successful!"),
            CompletionStatus::Failed(reason) => {
                let mut text = String::from_str("DNA read failed: ");
                text.append(reason.as_str());
                text
            },
        }
    }

    /// Renders a DNA in its Verilog form where it is a run of at most 128
    /// binary digits, and not otherwise.
    pub fn try_convert_dna_to_verilog_hex(binary: &str) -> (text: Option<String>)
        ensures
            match text {
                Some(t) => is_binary(binary@) && binary@.len() <= 128 && t@ == verilog_hex(
                    binary@,
                ),
                None => !(is_binary(binary@) && binary@.len() <= 128),
            },
    {
        let chars = to_chars(binary);
        if chars.len() <= 128 && check_binary(chars.as_slice()) {
            Some(format_verilog_hex(chars.as_slice()))
        } else {
            None
        }
    }

    /// Renders a DNA given in binary digits in its Verilog form.
    pub fn convert_dna_to_verilog_hex(binary: &str) -> (text: String)
        requires
            is_binary(binary@),
            binary@.len() <= 128,
        ensures
            text@ == verilog_hex(binary@),
    {
        let chars = to_chars(binary);
        format_verilog_hex(chars.as_slice())
    }
}

/// How the removal of a stale artifact went.
#[derive(Debug, PartialEq, Eq)]
pub enum RemovalOutcome {
    Removed,
    /// There was no artifact.
    NotFound,
    /// The artifact is there and could not be removed.
    Failed(String),
}

pub enum RemovalOutcomeView {
    Removed,
    NotFound,
    Failed(Seq<char>),
}

impl View for RemovalOutcome {
    type V = RemovalOutcomeView;

    open spec fn view(&self) -> RemovalOutcomeView {
        match self {
            RemovalOutcome::Removed => RemovalOutcomeView::Removed,
            RemovalOutcome::NotFound => RemovalOutcomeView::NotFound,
            RemovalOutcome::Failed(reason) => RemovalOutcomeView::Failed(reason@),
        }
    }
}

/// What is logged, in debug mode, about the removal of a stale artifact.
pub open spec fn removal_text(outcome: RemovalOutcomeView) -> Seq<char> {
    match outcome {
        RemovalOutcomeView::Removed => "Successfully removed previous DNA output file"@,
        RemovalOutcomeView::NotFound => "No previous DNA output file found (which is expected)"@,
        RemovalOutcomeView::Failed(reason) => "Could not remove previous DNA output file: "@
            + reason,
    }
}

/// The places at which the artifact is looked for, given the working
/// directory.
pub open spec fn artifact_paths(current_dir: Seq<char>) -> Seq<Seq<char>> {
    seq![
        "OpenOCD/openocd_output.log"@,
        "./OpenOCD/openocd_output.log"@,
        current_dir + "/OpenOCD/openocd_output.log"@,
    ]
}

impl DnaReader {
    /// Takes the outcome of removing a stale artifact before a read. It is
    /// only logged: a missing artifact is what is expected, and no failure
    /// to remove one fails the read.
    pub fn cleanup_dna_output_file(outcome: &RemovalOutcome, logger: &mut Logger)
        ensures
            final(logger)@ == old(logger)@.debugged(removal_text(outcome@)),
    {
        match outcome {
            RemovalOutcome::Removed => {
                logger.debug("Successfully removed previous DNA output file");
            },
            RemovalOutcome::NotFound => {
                logger.debug("No previous DNA output file found (which is expected)");
            },
            RemovalOutcome::Failed(reason) => {
                let mut text = String::from_str("Could not remove previous DNA output file: ");
                text.append(reason.as_str());
                logger.debug(text.as_str());
            },
        }
    }

    /// The places at which the artifact is looked for.
    pub fn get_possible_dna_file_paths(current_dir: &str) -> (paths: Vec<String>)
        ensures
            paths@.map_values(|p: String| p@) == artifact_paths(current_dir@),
    {
        let mut paths: Vec<String> = Vec::new();
        paths.push(String::from_str("OpenOCD/openocd_output.log"));
        paths.push(String::from_str("./OpenOCD/openocd_output.log"));
        let mut absolute = String::from_str(current_dir);
        absolute.append("/OpenOCD/openocd_output.log");
        paths.push(absolute);
        assert(paths@.map_values(|p: String| p@) =~= artifact_paths(current_dir@));
        paths
    }
}

/// A candidate file exists and is large enough to be complete.
pub open spec fn is_valid_artifact(size: Option<u64>) -> bool {
    size matches Some(n) && n >= MIN_VALID_DNA_FILE_SIZE
}

} // verus!
