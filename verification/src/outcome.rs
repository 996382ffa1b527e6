//! What the log and the status tell about the result of a flash operation.

use vstd::prelude::*;
use crate::decimal::{
    decimal, decimal_padded, parse_decimal, parse_unsigned, push_decimal, push_decimal_padded,
};
use crate::logger::{LogEntry, LogEntryView};
use crate::text::{
    contains, first_word, includes, leading_word, second_piece, split_second, to_chars,
};
use crate::types::{CompletionStatus, StatusView};

verus! {

/// A sector write faster than this many milliseconds is suspiciously quick.
pub const QUICK_WRITE_MS: u64 = 50;

/// The duration that a log message reports for a sector write: the first
/// word between the first `took` and the next, in a message of the tool's
/// `Info :` form.
pub open spec fn sector_time(message: Seq<char>) -> Option<nat> {
    if !contains(message, "Info :"@) || !contains(message, "sector"@) || !contains(
        message,
        "took"@,
    ) {
        None
    } else {
        match second_piece(message, "took"@) {
            None => None,
            Some(rest) => match first_word(rest) {
                None => None,
                Some(word) => parse_unsigned(word, u64::MAX as nat),
            },
        }
    }
}

/// How many entries report a sector write.
pub open spec fn sector_count(entries: Seq<LogEntryView>) -> nat
    decreases entries.len(),
{
    if entries.len() == 0 {
        0
    } else {
        sector_count(entries.drop_last()) + if sector_time(entries.last().message) is Some {
            1nat
        } else {
            0nat
        }
    }
}

/// How many entries report a sector write that was suspiciously quick.
pub open spec fn quick_count(entries: Seq<LogEntryView>) -> nat
    decreases entries.len(),
{
    if entries.len() == 0 {
        0
    } else {
        quick_count(entries.drop_last()) + if sector_time(entries.last().message) matches Some(t)
            && t < QUICK_WRITE_MS {
            1nat
        } else {
            0nat
        }
    }
}

/// Some entry reports that the flash completed.
pub open spec fn success_reported(entries: Seq<LogEntryView>) -> bool {
    exists|i: int|
        0 <= i < entries.len() && contains(
            (#[trigger] entries[i]).message,
            "Firmware flash completed successfully"@,
        )
}

/// What to show for a flash operation.
#[derive(Debug, PartialEq, Eq)]
pub enum FlashAssessment {
    /// The tool reported success, yet most sector writes were too quick to
    /// have reached the device.
    ConnectionIssue { quick_writes: usize, total_sectors: usize },
    Success,
    /// The tool reported success and the log shows no sector write.
    ResultUnknown,
    /// The tool reported success; the sector writes neither confirm nor
    /// refute it.
    UnverifiedSuccess,
    /// A flash operation ended with the status of a DNA read.
    UnexpectedState,
    Failed(String),
    InProgress(String),
    StatusUnknown,
}

pub enum AssessmentView {
    ConnectionIssue { quick_writes: usize, total_sectors: usize },
    Success,
    ResultUnknown,
    UnverifiedSuccess,
    UnexpectedState,
    Failed(Seq<char>),
    InProgress(Seq<char>),
    StatusUnknown,
}

impl View for FlashAssessment {
    type V = AssessmentView;

    open spec fn view(&self) -> AssessmentView {
        match self {
            FlashAssessment::ConnectionIssue { quick_writes, total_sectors } =>
                AssessmentView::ConnectionIssue {
                    quick_writes: *quick_writes,
                    total_sectors: *total_sectors,
                },
            FlashAssessment::Success => AssessmentView::Success,
            FlashAssessment::ResultUnknown => AssessmentView::ResultUnknown,
            FlashAssessment::UnverifiedSuccess => AssessmentView::UnverifiedSuccess,
            FlashAssessment::UnexpectedState => AssessmentView::UnexpectedState,
            FlashAssessment::Failed(reason) => AssessmentView::Failed(reason@),
            FlashAssessment::InProgress(message) => AssessmentView::InProgress(message@),
            FlashAssessment::StatusUnknown => AssessmentView::StatusUnknown,
        }
    }
}

/// The assessment of a completed flash from its sector writes.
pub open spec fn completed_assessment(total: nat, quick: nat, success: bool) -> AssessmentView {
    if total > 0 && quick > total / 2 {
        AssessmentView::ConnectionIssue {
            quick_writes: quick as usize,
            total_sectors: total as usize,
        }
    } else if (total > 0 && quick < total / 2) || success {
        AssessmentView::Success
    } else if total == 0 {
        AssessmentView::ResultUnknown
    } else {
        AssessmentView::UnverifiedSuccess
    }
}

/// The assessment of a flash operation from its status and its log.
pub open spec fn assessment(status: StatusView, entries: Seq<LogEntryView>) -> AssessmentView {
    match status {
        StatusView::Completed => completed_assessment(
            sector_count(entries),
            quick_count(entries),
            success_reported(entries),
        ),
        StatusView::DnaReadCompleted(_) => AssessmentView::UnexpectedState,
        StatusView::Failed(reason) => AssessmentView::Failed(reason),
        StatusView::InProgress(message) => AssessmentView::InProgress(message),
        StatusView::NotCompleted => AssessmentView::StatusUnknown,
    }
}

/// A duration in whole seconds as minutes and seconds.
pub open spec fn duration_line(seconds: u64) -> Seq<char> {
    "Operation took: "@ + decimal((seconds / 60) as nat) + ":"@ + decimal_padded(
        (seconds % 60) as nat,
        2,
    )
}

/// Reads the duration of a sector write out of a log message.
pub fn extract_sector_time(message: &str) -> (time: Option<u64>)
    ensures
        match time {
            Some(t) => sector_time(message@) == Some(t as nat),
            None => sector_time(message@) is None,
        },
{
    let chars = to_chars(message);
    let text = chars.as_slice();
    if !includes(text, "Info :") || !includes(text, "sector") || !includes(text, "took") {
        return None;
    }
    match split_second(text, "took") {
        None => None,
        Some(rest) => match leading_word(rest.as_slice()) {
            None => None,
            Some(word) => parse_decimal(word.as_slice(), 0xffff_ffff_ffff_ffff),
        },
    }
}

/// Assesses a flash operation from its status and the log's entries.
pub fn assess_flash_result(status: &CompletionStatus, entries: &[LogEntry]) -> (verdict:
    FlashAssessment)
    ensures
        verdict@ == assessment(status@, entries@.map_values(|e: LogEntry| e@)),
{
    match status {
        CompletionStatus::DnaReadCompleted(_) => FlashAssessment::UnexpectedState,
        CompletionStatus::Failed(reason) => FlashAssessment::Failed(reason.clone()),
        CompletionStatus::InProgress(message) => FlashAssessment::InProgress(message.clone()),
        CompletionStatus::NotCompleted => FlashAssessment::StatusUnknown,
        CompletionStatus::Completed => {
            let ghost views = entries@.map_values(|e: LogEntry| e@);
            let mut total: usize = 0;
            let mut quick: usize = 0;
            let mut success = false;
            let mut i: usize = 0;
            while i < entries.len()
                invariant
                    i <= entries.len(),
                    views == entries@.map_values(|e: LogEntry| e@),
                    total == sector_count(views.take(i as int)),
                    quick == quick_count(views.take(i as int)),
                    quick <= total <= i,
                    success == success_reported(views.take(i as int)),
                decreases entries.len() - i,
            {
                let message = entries[i].message.as_str();
                let ghost before = views.take(i as int);
                let ghost after = views.take(i + 1);
                proof {
                    assert(after.drop_last() =~= before);
                    assert(after.last() == entries@[i as int]@);
                }
                match extract_sector_time(message) {
                    Some(t) => {
                        total += 1;
                        if t < QUICK_WRITE_MS {
                            quick += 1;
                        }
                    },
                    None => {},
                }
                let chars = to_chars(message);
                let here = includes(chars.as_slice(), "Firmware flash completed successfully");
                proof {
                    if success || here {
                        let j = if success {
                            choose|j: int|
                                0 <= j < before.len() && contains(
                                    (#[trigger] before[j]).message,
                                    "Firmware flash completed successfully"@,
                                )
                        } else {
                            i as int
                        };
                        assert(after[j] == if j < i {
                            before[j]
                        } else {
                            after.last()
                        });
                        assert(success_reported(after));
                    } else {
                        assert forall|j: int| 0 <= j < after.len() implies !contains(
                            (#[trigger] after[j]).message,
                            "Firmware flash completed successfully"@,
                        ) by {
                            if j < i {
                                assert(before[j] == after[j]);
                            }
                        }
                    }
                }
                success = success || here;
                i += 1;
            }
            assert(views.take(i as int) =~= views);
            if total > 0 && quick > total / 2 {
                FlashAssessment::ConnectionIssue { quick_writes: quick, total_sectors: total }
            } else if (total > 0 && quick < total / 2) || success {
                FlashAssessment::Success
            } else if total == 0 {
                FlashAssessment::ResultUnknown
            } else {
                FlashAssessment::UnverifiedSuccess
            }
        },
    }
}

/// Renders a duration in whole seconds as minutes and seconds.
pub fn format_duration_line(seconds: u64) -> (text: String)
    ensures
        text@ == duration_line(seconds),
{
    let mut text = String::from_str("Operation took: ");
    push_decimal(&mut text, seconds / 60);
    text.append(":");
    push_decimal_padded(&mut text, seconds % 60, 2);
    text
}

} // verus!
