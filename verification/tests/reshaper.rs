use arabic_reshaper::ArabicReshaper;
use firmware_tool::reshaper::{arrange_runs, reshape_arabic};
use unicode_bidi::BidiInfo;

// The same steps, made with the two crates directly.
fn by_hand(text: &str) -> String {
    let reshaped = ArabicReshaper::default().reshape(text);
    let info = BidiInfo::new(&reshaped, None);
    let mut visual = String::new();
    for para in &info.paragraphs {
        let (_, runs) = info.visual_runs(para, para.range.clone());
        for run in runs {
            let index = reshaped[..run.start].chars().count();
            let piece = &reshaped[run.clone()];
            if info.levels[index].is_rtl() {
                visual.extend(piece.chars().rev());
            } else {
                visual.push_str(piece);
            }
        }
    }
    if visual.is_empty() {
        reshaped
    } else {
        visual
    }
}

#[test]
fn latin_text_stays() {
    assert_eq!(reshape_arabic("Flash"), "Flash");
    assert_eq!(reshape_arabic(""), "");
}

#[test]
fn arabic_letters_are_joined_and_turned() {
    let shown = reshape_arabic("سلام");
    assert_ne!(shown, "سلام");
    // Isolated and joined forms of the four letters, right to left.
    assert_eq!(shown, "\u{FEE1}\u{FEFC}\u{FEB3}");
    assert_eq!(shown, by_hand("سلام"));
}

#[test]
fn mixed_text_agrees_with_the_crates() {
    for text in ["abc سلام 123", "تحديث متاح", "DNA: قراءة\nFlash: كتابة", "اللغة العربية (beta)", "١٢٣ abc", "x\u{064B}y"] {
        assert_eq!(reshape_arabic(text), by_hand(text));
    }
}

#[test]
fn a_joiner_leaves_the_text_alone() {
    assert_eq!(reshape_arabic("\u{200D}لا"), "\u{200D}لا");
    assert_eq!(reshape_arabic("a\u{200D}"), "a\u{200D}");
}

#[test]
fn runs_outside_the_text_contribute_nothing() {
    assert_eq!(arrange_runs("abc", &[(1, 3), (0, 1)]), "bca");
    assert_eq!(arrange_runs("abc", &[(2, 1), (0, 4), (3, 3)]), "");
    assert_eq!(arrange_runs("aé", &[(0, 2)]), "");
    assert_eq!(arrange_runs("aé", &[(2, 3), (1, 3)]), "é");
    assert_eq!(arrange_runs("abc", &[]), "");
}

#[test]
fn right_to_left_runs_are_turned() {
    let text = "\u{FEE1}\u{FEFC}";
    assert_eq!(arrange_runs(text, &[(0, 6)]), "\u{FEFC}\u{FEE1}");
    assert_eq!(arrange_runs("ab", &[(0, 2)]), "ab");
}

#[test]
fn many_texts_agree_with_the_crates() {
    let alphabet: Vec<char> = ('\u{0621}'..='\u{0652}')
        .chain(['\u{0640}', '\u{0670}', '\u{06CC}', '\u{FEFB}', ' ', '\n', 'a', 'Z', '1', '(', ')', '.', '\u{E9}'])
        .collect();
    let mut state: u64 = 0x2545_F491_4F6C_DD1D;
    let mut next = |bound: usize| {
        state ^= state << 13;
        state ^= state >> 7;
        state ^= state << 17;
        (state % bound as u64) as usize
    };
    for _ in 0..3000 {
        let len = next(14);
        let text: String = (0..len).map(|_| alphabet[next(alphabet.len())]).collect();
        assert_eq!(reshape_arabic(&text), by_hand(&text));
    }
}
