//! Arabic text for renderers that draw left to right only: the letters are
//! joined, then the runs of each paragraph are put in visual order.

use arabic_reshaper::ArabicReshaper;
use unicode_bidi::BidiInfo;
use vstd::prelude::*;
use vstd::string::StringSliceAdditionalSpecFns;
use vstd::utf8::{decode_utf8, encode_utf8, is_char_boundary};
use crate::text::{from_chars, to_chars};

verus! {

broadcast use vstd::utf8::group_utf8_lib;

/// The joiner that the letter reshaper cannot take.
pub const ZERO_WIDTH_JOINER: char = '\u{200D}';

/// The text with its Arabic letters in their joined forms, as
/// `ArabicReshaper::reshape` gives it under the default configuration.
pub uninterp spec fn reshaped_letters(text: Seq<char>) -> Seq<char>;

/// The level runs of all paragraphs of the text, in visual order, each as
/// the byte offsets at which it begins and ends.
pub uninterp spec fn visual_run_bounds(text: Seq<char>) -> Seq<(usize, usize)>;

/// The embedding level of the byte at `index` of the text runs right to
/// left.
pub uninterp spec fn byte_level_rtl(text: Seq<char>, index: usize) -> bool;

/// Calls `ArabicReshaper::reshape` of the crate `arabic_reshaper` with the
/// configuration that the crate ships. The contract only names the result.
/// Texts that hold a zero-width joiner are left out: the reshaper drops the
/// joiner from its letters and then indexes them by positions in the text,
/// past their end.
#[verifier::external_body]
fn reshape_letters(text: &str) -> (shaped: String)
    requires
        !text@.contains(ZERO_WIDTH_JOINER),
    ensures
        shaped@ == reshaped_letters(text@),
{
    ArabicReshaper::default().reshape(text)
}

/// Calls `BidiInfo::new` of the crate `unicode_bidi` with no base level
/// given, and `BidiInfo::visual_runs` on the whole of each paragraph. The
/// contract only names the result: the runs' byte ranges, paragraph after
/// paragraph.
#[verifier::external_body]
fn visual_runs(text: &str) -> (runs: Vec<(usize, usize)>)
    ensures
        runs@ == visual_run_bounds(text@),
{
    let info = BidiInfo::new(text, None);
    let mut runs = Vec::new();
    for para in &info.paragraphs {
        let (_, level_runs) = info.visual_runs(para, para.range.clone());
        for run in level_runs {
            runs.push((run.start, run.end));
        }
    }
    runs
}

/// Calls `BidiInfo::new` of the crate `unicode_bidi` with no base level
/// given, and `Level::is_rtl` on the entry of `levels` at `index`. That
/// vector has one entry for each byte of the text, hence the bound. The
/// contract only names the result.
#[verifier::external_body]
fn level_is_rtl(text: &str, index: usize) -> (rtl: bool)
    requires
        index < text.spec_bytes().len(),
    ensures
        rtl == byte_level_rtl(text@, index),
{
    BidiInfo::new(text, None).levels[index].is_rtl()
}

/// The run lies within the text and begins and ends between characters.
pub open spec fn run_in_text(bytes: Seq<u8>, run: (usize, usize)) -> bool {
    &&& run.0 <= run.1 <= bytes.len()
    &&& is_char_boundary(bytes, run.1 as int)
    &&& is_char_boundary(bytes.subrange(0, run.1 as int), run.0 as int)
}

/// The characters of one run as they are displayed: reversed where the
/// level found for the run reads right to left. The level is looked up at
/// the number of characters that stand before the run. A run that does not
/// lie within the text contributes nothing.
pub open spec fn run_text(shaped: Seq<char>, run: (usize, usize)) -> Seq<char> {
    let bytes = encode_utf8(shaped);
    if run_in_text(bytes, run) {
        let piece = decode_utf8(bytes.subrange(run.0 as int, run.1 as int));
        let before = decode_utf8(bytes.subrange(0, run.0 as int)).len();
        if before < bytes.len() && byte_level_rtl(shaped, before as usize) {
            piece.reverse()
        } else {
            piece
        }
    } else {
        Seq::empty()
    }
}

/// The runs as they are displayed, one after the other.
pub open spec fn visual_text(shaped: Seq<char>, runs: Seq<(usize, usize)>) -> Seq<char>
    decreases runs.len(),
{
    if runs.len() == 0 {
        Seq::empty()
    } else {
        visual_text(shaped, runs.drop_last()) + run_text(shaped, runs.last())
    }
}

/// The text as it is handed to the renderer: the joined letters in visual
/// order, or just the joined letters where no run holds a character.
pub open spec fn display_text(text: Seq<char>) -> Seq<char> {
    let shaped = reshaped_letters(text);
    let visual = visual_text(shaped, visual_run_bounds(shaped));
    if visual.len() == 0 {
        shaped
    } else {
        visual
    }
}

fn holds_joiner(text: &[char]) -> (found: bool)
    ensures
        found == text@.contains(ZERO_WIDTH_JOINER),
{
    let mut i: usize = 0;
    while i < text.len()
        invariant
            i <= text.len(),
            forall|j: int| 0 <= j < i ==> text@[j] != ZERO_WIDTH_JOINER,
        decreases text.len() - i,
    {
        if text[i] == ZERO_WIDTH_JOINER {
            return true;
        }
        i += 1;
    }
    false
}

fn reversed(chars: &[char]) -> (out: Vec<char>)
    ensures
        out@ == chars@.reverse(),
{
    let mut out: Vec<char> = Vec::new();
    let mut i: usize = chars.len();
    while i > 0
        invariant
            i <= chars.len(),
            out@.len() == chars.len() - i,
            forall|j: int| 0 <= j < out@.len() ==> out@[j] == chars@[chars.len() - 1 - j],
        decreases i,
    {
        i -= 1;
        out.push(chars[i]);
    }
    assert(out@ =~= chars@.reverse());
    out
}

/// Appends one run to the text on display.
fn push_run(out: &mut String, shaped: &str, run: (usize, usize))
    ensures
        final(out)@ == old(out)@ + run_text(shaped@, run),
{
    let (start, end) = run;
    let ghost bytes = shaped.spec_bytes();
    let total: usize = shaped.as_bytes().len();
    if !(start <= end && end <= total && shaped.is_char_boundary(end)) {
        assert(out@ =~= old(out)@ + Seq::<char>::empty());
        return ;
    }
    let (head, _) = shaped.split_at(end);
    if !head.is_char_boundary(start) {
        assert(out@ =~= old(out)@ + Seq::<char>::empty());
        return ;
    }
    let (before, piece) = head.split_at(start);
    proof {
        assert(head.spec_bytes() =~= bytes.subrange(0, end as int));
        assert(before.spec_bytes() =~= bytes.subrange(0, start as int));
        assert(piece.spec_bytes() =~= bytes.subrange(start as int, end as int));
        assert(decode_utf8(encode_utf8(before@)) == before@);
        assert(decode_utf8(encode_utf8(piece@)) == piece@);
    }
    let index = before.unicode_len();
    if index < total && level_is_rtl(shaped, index) {
        let chars = to_chars(piece);
        let turned = reversed(chars.as_slice());
        let text = from_chars(turned.as_slice());
        out.append(text.as_str());
    } else {
        out.append(piece);
    }
}

/// Prepares Arabic text for a renderer that draws left to right only. A
/// text that holds a zero-width joiner is returned as it is.
pub fn reshape_arabic(text: &str) -> (shown: String)
    ensures
        shown@ == (if text@.contains(ZERO_WIDTH_JOINER) {
            text@
        } else {
            display_text(text@)
        }),
{
    let chars = to_chars(text);
    if holds_joiner(chars.as_slice()) {
        return String::from_str(text);
    }
    let shaped = reshape_letters(text);
    let runs = visual_runs(shaped.as_str());
    let visual = arrange_runs(shaped.as_str(), runs.as_slice());
    if visual.as_str().is_empty() {
        shaped
    } else {
        visual
    }
}

/// Puts the given runs of the joined letters one after the other, each as
/// it is displayed.
pub fn arrange_runs(shaped: &str, runs: &[(usize, usize)]) -> (visual: String)
    ensures
        visual@ == visual_text(shaped@, runs@),
{
    let mut visual = String::new();
    let mut i: usize = 0;
    assert(runs@.take(0) =~= Seq::<(usize, usize)>::empty());
    while i < runs.len()
        invariant
            i <= runs.len(),
            visual@ == visual_text(shaped@, runs@.take(i as int)),
        decreases runs.len() - i,
    {
        proof {
            assert(runs@.take(i + 1).drop_last() =~= runs@.take(i as int));
            assert(runs@.take(i + 1).last() == runs@[i as int]);
        }
        push_run(&mut visual, shaped, runs[i]);
        i += 1;
    }
    assert(runs@.take(i as int) =~= runs@);
    visual
}

} // verus!
