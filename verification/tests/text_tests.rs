use corner::strings::{collapse_blank_pairs, is_white_space_char};
use corner::text::{
    clean_segment_text, NoisePatterns, BRACKETED_ASIDE, MUSICAL_ASIDE, PARENTHETICAL_ASIDE,
    STARRED_ASIDE, WHITE_SPACE_RUN,
};

fn patterns() -> NoisePatterns {
    NoisePatterns::compile().expect("the noise patterns compile")
}

#[test]
fn noise_patterns_compile() {
    assert!(NoisePatterns::compile().is_some());
}

#[test]
fn noise_patterns_are_the_documented_expressions() {
    assert_eq!(BRACKETED_ASIDE, r"\[.*?\]");
    assert_eq!(PARENTHETICAL_ASIDE, r"\(.*?\)");
    assert_eq!(MUSICAL_ASIDE, "\u{266a}.*?\u{266a}");
    assert_eq!(STARRED_ASIDE, r"\*.*?\*");
    assert_eq!(WHITE_SPACE_RUN, r"\s+");
}

#[test]
fn asides_and_extra_blanks_are_removed() {
    let p = patterns();
    assert_eq!(clean_segment_text(&p, "[music] Hello  world (laughs)"), "Hello world");
}

#[test]
fn plain_text_is_only_trimmed() {
    let p = patterns();
    assert_eq!(clean_segment_text(&p, "  Good morning. "), "Good morning.");
    assert_eq!(clean_segment_text(&p, "Good morning."), "Good morning.");
}

#[test]
fn segment_of_noise_only_becomes_empty() {
    let p = patterns();
    assert_eq!(clean_segment_text(&p, " [BLANK_AUDIO] "), "");
    assert_eq!(clean_segment_text(&p, "(coughs) *sighs* [noise]"), "");
    assert_eq!(clean_segment_text(&p, ""), "");
    assert_eq!(clean_segment_text(&p, " \t\n"), "");
}

#[test]
fn musical_and_starred_asides_are_removed() {
    let p = patterns();
    assert_eq!(clean_segment_text(&p, "\u{266a} la la \u{266a} so it goes"), "so it goes");
    assert_eq!(clean_segment_text(&p, "well *laughs* then"), "well then");
}

#[test]
fn an_aside_is_as_short_as_possible() {
    let p = patterns();
    assert_eq!(clean_segment_text(&p, "a [b] c [d] e"), "a c e");
    assert_eq!(clean_segment_text(&p, "a (b) c (d) e"), "a c e");
    assert_eq!(clean_segment_text(&p, "a [b]] c"), "a ] c");
}

#[test]
fn an_aside_does_not_span_lines() {
    let p = patterns();
    assert_eq!(clean_segment_text(&p, "a [b\nc] d"), "a [b c] d");
}

#[test]
fn an_unclosed_aside_stays() {
    let p = patterns();
    assert_eq!(clean_segment_text(&p, "one [two"), "one [two");
    assert_eq!(clean_segment_text(&p, "one * two"), "one * two");
}

#[test]
fn brackets_are_removed_before_parentheses() {
    let p = patterns();
    // The bracketed aside goes first and takes the opening parenthesis with it.
    assert_eq!(clean_segment_text(&p, "a [ ( ] b ) c"), "a b ) c");
}

#[test]
fn unicode_white_space_is_trimmed_and_collapsed() {
    let p = patterns();
    assert_eq!(clean_segment_text(&p, "\u{a0}\u{3000}good\t\n day\u{2003}\u{85}"), "good day");
}

#[test]
fn every_white_space_character_is_trimmed() {
    let p = patterns();
    for code in 0u32..=0x10FFFF {
        if let Some(c) = char::from_u32(code) {
            if is_white_space_char(c) {
                let text = format!("{}word{}", c, c);
                assert_eq!(clean_segment_text(&p, &text), "word");
            }
        }
    }
}

#[test]
fn white_space_is_what_the_standard_library_calls_white_space() {
    let mut count = 0;
    for code in 0u32..=0x10FFFF {
        if let Some(c) = char::from_u32(code) {
            assert_eq!(is_white_space_char(c), c.is_whitespace(), "code point {:#x}", code);
            if is_white_space_char(c) {
                count += 1;
            }
        }
    }
    assert_eq!(count, 25);
}

#[test]
fn blank_pairs_are_collapsed_once_from_the_left() {
    assert_eq!(collapse_blank_pairs("a  b"), "a b");
    assert_eq!(collapse_blank_pairs("a   b"), "a  b");
    assert_eq!(collapse_blank_pairs("a    b"), "a  b");
    assert_eq!(collapse_blank_pairs("  "), " ");
    assert_eq!(collapse_blank_pairs(" a b "), " a b ");
    assert_eq!(collapse_blank_pairs(""), "");
    assert_eq!(collapse_blank_pairs("a\t\tb"), "a\t\tb");
}

/// The collapse of blank pairs, written out: scan from the left, and where two
/// blanks stand together, put one and go on behind them.
fn collapse_by_hand(text: &[char]) -> Vec<char> {
    let mut out = Vec::new();
    let mut i = 0;
    while i < text.len() {
        if i + 1 < text.len() && text[i] == ' ' && text[i + 1] == ' ' {
            out.push(' ');
            i += 2;
        } else {
            out.push(text[i]);
            i += 1;
        }
    }
    out
}

/// Trimming, written out with the library's notion of white space.
fn trim_by_hand(text: &[char]) -> Vec<char> {
    let mut start = 0;
    while start < text.len() && is_white_space_char(text[start]) {
        start += 1;
    }
    let mut end = text.len();
    while end > start && is_white_space_char(text[end - 1]) {
        end -= 1;
    }
    text[start..end].to_vec()
}

/// All texts of the given length over the given alphabet.
fn texts(alphabet: &[char], len: usize) -> Vec<Vec<char>> {
    let mut all = vec![Vec::new()];
    for _ in 0..len {
        let mut longer = Vec::new();
        for text in &all {
            for c in alphabet {
                let mut next = text.clone();
                next.push(*c);
                longer.push(next);
            }
        }
        all = longer;
    }
    all
}

#[test]
fn blank_pairs_collapse_as_written_out() {
    for len in 0..=7 {
        for text in texts(&[' ', 'a', '\t'], len) {
            let input: String = text.iter().collect();
            let expected: String = collapse_by_hand(&text).into_iter().collect();
            assert_eq!(collapse_blank_pairs(&input), expected, "input {:?}", input);
        }
    }
}

#[test]
fn white_space_around_a_text_is_trimmed_as_written_out() {
    let p = patterns();
    let white = [' ', '\n', '\u{a0}', '\u{2009}', '\u{3000}'];
    for before in 0..=2 {
        for after in 0..=2 {
            for left in texts(&white, before) {
                for right in texts(&white, after) {
                    let mut text: Vec<char> = left.clone();
                    text.extend("a b".chars());
                    text.extend(right.iter());
                    let input: String = text.iter().collect();
                    let expected: String = trim_by_hand(&text).into_iter().collect();
                    assert_eq!(expected, "a b");
                    assert_eq!(clean_segment_text(&p, &input), expected, "input {:?}", input);
                }
            }
        }
    }
    for len in 0..=3 {
        for text in texts(&white, len) {
            let input: String = text.iter().collect();
            assert_eq!(trim_by_hand(&text), Vec::<char>::new());
            assert_eq!(clean_segment_text(&p, &input), "", "input {:?}", input);
        }
    }
}
