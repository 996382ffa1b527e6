//! What the log tells about the stage of a running operation.

use std::collections::HashMap;
use vstd::prelude::*;
use crate::decimal::{decimal, parse_decimal, parse_unsigned, push_decimal};
use crate::dna::{dna_stage_text, DnaReader};
use crate::logger::{LogEntry, LogEntryView};
use crate::manager::FlashingManager;
use crate::text::{
    contains, first_piece, includes, second_piece, split_first, split_second, to_chars, trim,
    trimmed,
};
use crate::types::FlashingOption;

verus! {

broadcast use vstd::std_specs::hash::group_hash_axioms;

/// A sector shown for longer than this many milliseconds means that the
/// tool has gone on to verifying.
pub const SECTOR_STUCK_THRESHOLD_MS: u64 = 1000;

/// The stage that one log message gives away.
#[derive(Clone, Copy, Debug, PartialEq, Eq, Structural)]
pub enum StageMark {
    Sector(u32),
    WritingImage,
    ProbingFlash,
    ResettingFpga,
    LoadingBitstream,
    InitializingJtag,
}

/// The sector number in a message: what stands between the first `sector`
/// and the `took` after it, without surrounding white space.
pub open spec fn sector_number(message: Seq<char>) -> Option<nat> {
    match second_piece(message, "sector"@) {
        None => None,
        Some(rest) => parse_unsigned(trim(first_piece(rest, "took"@)), u32::MAX as nat),
    }
}

/// The stage that a message gives away, if any. A message that names a
/// sector and a duration gives away nothing else.
pub open spec fn mark_of(message: Seq<char>) -> Option<StageMark> {
    if contains(message, "sector"@) && contains(message, "took"@) {
        match sector_number(message) {
            Some(n) => Some(StageMark::Sector(n as u32)),
            None => None,
        }
    } else if contains(message, "Writing the image to the flash memory"@) {
        Some(StageMark::WritingImage)
    } else if contains(message, "Probing the flash memory"@) {
        Some(StageMark::ProbingFlash)
    } else if contains(message, "Resetting and halting the FPGA"@) {
        Some(StageMark::ResettingFpga)
    } else if contains(message, "Loading the bitstream"@) {
        Some(StageMark::LoadingBitstream)
    } else if contains(message, "Initializing the JTAG interface"@) {
        Some(StageMark::InitializingJtag)
    } else {
        None
    }
}

/// The stage that the most recent telling entry gives away.
pub open spec fn latest_mark(entries: Seq<LogEntryView>) -> Option<StageMark>
    decreases entries.len(),
{
    if entries.len() == 0 {
        None
    } else {
        match mark_of(entries.last().message) {
            Some(mark) => Some(mark),
            None => latest_mark(entries.drop_last()),
        }
    }
}

/// The sector has been on display for longer than the threshold.
pub open spec fn is_stuck(first_seen: u64, now: u64) -> bool {
    now > first_seen && now - first_seen > SECTOR_STUCK_THRESHOLD_MS
}

/// The stage as the user is told it.
pub open spec fn stage_text(mark: Option<StageMark>, stuck: bool) -> Seq<char> {
    match mark {
        None => "Starting operation..."@,
        Some(StageMark::Sector(n)) => if stuck {
            "Testing and verifying..."@
        } else {
            "Writing sector "@ + decimal(n as nat) + "..."@
        },
        Some(StageMark::WritingImage) => "Writing image to flash memory..."@,
        Some(StageMark::ProbingFlash) => "Probing flash memory..."@,
        Some(StageMark::ResettingFpga) => "Resetting and halting FPGA..."@,
        Some(StageMark::LoadingBitstream) => "Loading bitstream..."@,
        Some(StageMark::InitializingJtag) => "Initializing JTAG interface..."@,
    }
}

/// When each sector was first seen on display, by sector number.
pub struct ProgressTracker {
    first_seen: HashMap<u32, u64>,
}

impl View for ProgressTracker {
    type V = Map<u32, u64>;

    closed spec fn view(&self) -> Map<u32, u64> {
        self.first_seen@
    }
}

/// The clock reading at which the sector was first seen, `now` where it is
/// seen for the first time.
pub open spec fn first_seen_at(seen: Map<u32, u64>, sector: u32, now: u64) -> u64 {
    if seen.dom().contains(sector) {
        seen[sector]
    } else {
        now
    }
}

/// The tracker after the stage has been determined at `now`.
pub open spec fn noted(seen: Map<u32, u64>, mark: Option<StageMark>, now: u64) -> Map<u32, u64> {
    match mark {
        Some(StageMark::Sector(n)) => if seen.dom().contains(n) {
            seen
        } else {
            seen.insert(n, now)
        },
        _ => seen,
    }
}

impl ProgressTracker {
    pub fn new() -> (tracker: ProgressTracker)
        ensures
            tracker@ == Map::<u32, u64>::empty(),
    {
        ProgressTracker { first_seen: HashMap::new() }
    }

    /// Forgets every sector: to be called when an operation starts.
    pub fn reset(&mut self)
        ensures
            final(self)@ == Map::<u32, u64>::empty(),
    {
        self.first_seen.clear();
    }

    /// Notes that `sector` is on display at `now`, and returns when it was
    /// first seen.
    pub fn observe(&mut self, sector: u32, now: u64) -> (first_seen: u64)
        ensures
            first_seen == first_seen_at(old(self)@, sector, now),
            final(self)@ == noted(old(self)@, Some(StageMark::Sector(sector)), now),
    {
        match self.first_seen.get(&sector) {
            Some(at) => *at,
            None => {
                self.first_seen.insert(sector, now);
                now
            },
        }
    }
}

/// Reads the sector number out of a log message.
pub fn extract_sector_from_log(message: &str) -> (sector: Option<u32>)
    ensures
        match sector {
            Some(n) => sector_number(message@) == Some(n as nat),
            None => sector_number(message@) is None,
        },
{
    let chars = to_chars(message);
    sector_in(chars.as_slice())
}

fn sector_in(message: &[char]) -> (sector: Option<u32>)
    ensures
        match sector {
            Some(n) => sector_number(message@) == Some(n as nat),
            None => sector_number(message@) is None,
        },
{
    match split_second(message, "sector") {
        None => None,
        Some(rest) => {
            let before = split_first(rest.as_slice(), "took");
            let number = trimmed(before.as_slice());
            match parse_decimal(number.as_slice(), 0xffff_ffff) {
                Some(v) => Some(v as u32),
                None => None,
            }
        },
    }
}

/// The stage that a log message gives away.
pub fn classify_message(message: &str) -> (mark: Option<StageMark>)
    ensures
        mark == mark_of(message@),
{
    let chars = to_chars(message);
    let text = chars.as_slice();
    if includes(text, "sector") && includes(text, "took") {
        match sector_in(text) {
            Some(n) => Some(StageMark::Sector(n)),
            None => None,
        }
    } else if includes(text, "Writing the image to the flash memory") {
        Some(StageMark::WritingImage)
    } else if includes(text, "Probing the flash memory") {
        Some(StageMark::ProbingFlash)
    } else if includes(text, "Resetting and halting the FPGA") {
        Some(StageMark::ResettingFpga)
    } else if includes(text, "Loading the bitstream") {
        Some(StageMark::LoadingBitstream)
    } else if includes(text, "Initializing the JTAG interface") {
        Some(StageMark::InitializingJtag)
    } else {
        None
    }
}

/// The most recent stage that the entries give away.
pub fn latest_stage(entries: &[LogEntry]) -> (mark: Option<StageMark>)
    ensures
        mark == latest_mark(entries@.map_values(|e: LogEntry| e@)),
{
    let ghost views = entries@.map_values(|e: LogEntry| e@);
    let mut i: usize = entries.len();
    assert(views.take(i as int) =~= views);
    while i > 0
        invariant
            i <= entries.len(),
            views == entries@.map_values(|e: LogEntry| e@),
            latest_mark(views) == latest_mark(views.take(i as int)),
        decreases i,
    {
        let found = classify_message(entries[i - 1].message.as_str());
        proof {
            assert(views.take(i as int).last() == entries@[i - 1]@);
            assert(views.take(i as int).drop_last() =~= views.take(i - 1));
        }
        if found.is_some() {
            return found;
        }
        i -= 1;
    }
    None
}

/// The stage of a flash operation: the message for the user, the sector
/// being written if one is, and whether the tool is writing.
pub fn determine_current_stage(
    manager: &FlashingManager,
    tracker: &mut ProgressTracker,
    now_ms: u64,
) -> (stage: (String, Option<u32>, bool))
    ensures
        ({
            let mark = latest_mark(manager@.logger.entries);
            &&& final(tracker)@ == noted(old(tracker)@, mark, now_ms)
            &&& stage.0@ == stage_text(
                mark,
                mark matches Some(StageMark::Sector(n)) && is_stuck(
                    first_seen_at(old(tracker)@, n, now_ms),
                    now_ms,
                ),
            )
            &&& stage.1 == (match mark {
                Some(StageMark::Sector(n)) => Some(n),
                _ => None,
            })
            &&& stage.2 == (mark is Some && (mark->0 is Sector || mark->0 is WritingImage))
        }),
{
    let entries = manager.logger().get_entries();
    match latest_stage(entries.as_slice()) {
        None => (String::from_str("Starting operation..."), None, false),
        Some(StageMark::Sector(n)) => {
            let first_seen = tracker.observe(n, now_ms);
            let text = if now_ms > first_seen && now_ms - first_seen > SECTOR_STUCK_THRESHOLD_MS {
                String::from_str("Testing and verifying...")
            } else {
                let mut text = String::from_str("Writing sector ");
                push_decimal(&mut text, n as u64);
                text.append("...");
                text
            };
            (text, Some(n), true)
        },
        Some(StageMark::WritingImage) => (
            String::from_str("Writing image to flash memory..."),
            None,
            true,
        ),
        Some(StageMark::ProbingFlash) => (String::from_str("Probing flash memory..."), None, false),
        Some(StageMark::ResettingFpga) => (
            String::from_str("Resetting and halting FPGA..."),
            None,
            false,
        ),
        Some(StageMark::LoadingBitstream) => (String::from_str("Loading bitstream..."), None, false),
        Some(StageMark::InitializingJtag) => (
            String::from_str("Initializing JTAG interface..."),
            None,
            false,
        ),
    }
}

/// The board and adapter of an option as the user is told them.
pub open spec fn device_type_text(option: FlashingOption) -> Seq<char> {
    match option {
        FlashingOption::DnaCH347 => "CH347"@,
        FlashingOption::RS232_35T | FlashingOption::DnaRS232_35T => "Artix-7 35T (RS232)"@,
        FlashingOption::RS232_75T | FlashingOption::DnaRS232_75T => "Artix-7 75T (RS232)"@,
        FlashingOption::CH347_35T => "Artix-7 35T (CH347)"@,
        FlashingOption::CH347_75T => "Artix-7 75T (CH347)"@,
        FlashingOption::CH347_100T => "Artix-7 100T (CH347)"@,
    }
}

pub fn get_device_type(option: &FlashingOption) -> (name: &'static str)
    ensures
        name@ == device_type_text(*option),
{
    match option {
        FlashingOption::DnaCH347 => "CH347",
        FlashingOption::RS232_35T | FlashingOption::DnaRS232_35T => "Artix-7 35T (RS232)",
        FlashingOption::RS232_75T | FlashingOption::DnaRS232_75T => "Artix-7 75T (RS232)",
        FlashingOption::CH347_35T => "Artix-7 35T (CH347)",
        FlashingOption::CH347_75T => "Artix-7 75T (CH347)",
        FlashingOption::CH347_100T => "Artix-7 100T (CH347)",
    }
}

/// The status line for the user: the stage of the DNA read during a DNA
/// read, the stage that the log gives away otherwise.
pub fn get_user_friendly_status(
    manager: &FlashingManager,
    tracker: &mut ProgressTracker,
    now_ms: u64,
) -> (text: String)
    ensures
        ({
            let dna = manager@.current_option matches Some(option) && option.dna_read();
            let mark = latest_mark(manager@.logger.entries);
            &&& dna ==> text@ == dna_stage_text(manager@.status()) && final(tracker)@ == old(
                tracker,
            )@
            &&& !dna ==> final(tracker)@ == noted(old(tracker)@, mark, now_ms) && text@
                == stage_text(
                mark,
                mark matches Some(StageMark::Sector(n)) && is_stuck(
                    first_seen_at(old(tracker)@, n, now_ms),
                    now_ms,
                ),
            )
        }),
{
    let dna = match manager.get_current_option() {
        Some(option) => option.is_dna_read(),
        None => false,
    };
    if dna {
        let status = manager.get_status();
        DnaReader::get_dna_read_stage(&status)
    } else {
        let (text, _, _) = determine_current_stage(manager, tracker, now_ms);
        text
    }
}

} // verus!
