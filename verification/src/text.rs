//! Cleanup of recognised text.

use crate::strings::{
    collapse_blank_pairs, has_clean_ends, lemma_collapse_keeps_clean_ends, lemma_trimmed_has_clean_ends,
    replaced, trimmed,
};
use crate::pattern::{
    compile_pattern, made_by_new, pattern_compiles, pattern_of, replace_all, replaced_all,
};
use vstd::prelude::*;

verus! {

/// An aside in square brackets, as short as possible, within one line.
pub const BRACKETED_ASIDE: &'static str = "\\[.*?\\]";

/// An aside in parentheses, as short as possible, within one line.
pub const PARENTHETICAL_ASIDE: &'static str = "\\(.*?\\)";

/// An aside between two musical notes.
pub const MUSICAL_ASIDE: &'static str = "♪.*?♪";

/// An aside between two asterisks.
pub const STARRED_ASIDE: &'static str = "\\*.*?\\*";

/// A run of white space.
pub const WHITE_SPACE_RUN: &'static str = "\\s+";

/// The noise patterns, in the order in which they are applied.
pub open spec fn noise_patterns() -> Seq<Seq<char>> {
    seq![
        BRACKETED_ASIDE@,
        PARENTHETICAL_ASIDE@,
        MUSICAL_ASIDE@,
        STARRED_ASIDE@,
        WHITE_SPACE_RUN@,
    ]
}

/// `text` after the first `count` noise patterns were applied in order, each
/// match giving way to a single blank.
pub open spec fn stripped(text: Seq<char>, count: nat) -> Seq<char>
    decreases count,
{
    if count == 0 {
        text
    } else {
        replaced_all(noise_patterns()[count - 1], stripped(text, (count - 1) as nat), " "@)
    }
}

/// A segment of recognised text after cleanup: trimmed, freed of all noise
/// patterns, trimmed again, and with each pair of blanks that is left reduced
/// to one blank.
pub open spec fn cleaned_text(text: Seq<char>) -> Seq<char> {
    replaced(trimmed(stripped(trimmed(text), noise_patterns().len())), "  "@, " "@)
}

/// The noise patterns in compiled form, made once and used for every segment.
pub struct NoisePatterns {
    compiled: Vec<regex::Regex>,
}

impl NoisePatterns {
    #[verifier::type_invariant]
    spec fn well_formed(&self) -> bool {
        &&& self.compiled@.len() == noise_patterns().len()
        &&& forall|i: int|
            0 <= i < self.compiled@.len() ==> made_by_new(#[trigger] self.compiled@[i])
                && pattern_of(self.compiled@[i])
                == noise_patterns()[i]
    }

    /// Compiles the noise patterns. Succeeds exactly if the `regex` crate
    /// accepts each of them.
    pub fn compile() -> (patterns: Option<Self>)
        ensures
            patterns is Some <==> forall|i: int|
                0 <= i < noise_patterns().len() ==> pattern_compiles(#[trigger] noise_patterns()[i]),
    {
        let sources: [&'static str; 5] = [
            BRACKETED_ASIDE,
            PARENTHETICAL_ASIDE,
            MUSICAL_ASIDE,
            STARRED_ASIDE,
            WHITE_SPACE_RUN,
        ];
        let mut compiled: Vec<regex::Regex> = Vec::new();
        let mut i: usize = 0;
        while i < 5
            invariant
                i <= 5,
                sources@.len() == 5,
                forall|j: int| 0 <= j < 5 ==> (#[trigger] sources@[j])@ == noise_patterns()[j],
                compiled@.len() == i,
                forall|j: int|
                    0 <= j < i ==> made_by_new(#[trigger] compiled@[j]) && pattern_of(compiled@[j])
                        == noise_patterns()[j],
                forall|j: int| 0 <= j < i ==> pattern_compiles(#[trigger] noise_patterns()[j]),
            decreases 5 - i,
        {
            match compile_pattern(sources[i]) {
                Some(re) => {
                    compiled.push(re);
                },
                None => {
                    return None;
                },
            }
            i = i + 1;
        }
        Some(NoisePatterns { compiled })
    }
}

/// Cleans one segment of recognised text: asides in square brackets or
/// parentheses, between musical notes or between asterisks give way to a
/// blank, runs of white space become one blank, and the ends are trimmed.
pub fn clean_segment_text(patterns: &NoisePatterns, text: &str) -> (cleaned: String)
    ensures
        cleaned@ == cleaned_text(text@),
        has_clean_ends(cleaned@),
{
    proof {
        use_type_invariant(patterns);
        lemma_cleaned_text_has_clean_ends(text@);
    }
    let mut cleaned: String = text.trim().to_owned();
    let mut i: usize = 0;
    while i < patterns.compiled.len()
        invariant
            i <= patterns.compiled@.len(),
            patterns.compiled@.len() == noise_patterns().len(),
            forall|j: int|
                0 <= j < patterns.compiled@.len() ==> made_by_new(
                    #[trigger] patterns.compiled@[j],
                ) && pattern_of(patterns.compiled@[j])
                    == noise_patterns()[j],
            cleaned@ == stripped(trimmed(text@), i as nat),
        decreases patterns.compiled@.len() - i,
    {
        cleaned = replace_all(&patterns.compiled[i], cleaned.as_str(), " ");
        i = i + 1;
    }
    collapse_blank_pairs(cleaned.as_str().trim())
}

/// A cleaned segment has clean ends.
pub proof fn lemma_cleaned_text_has_clean_ends(text: Seq<char>)
    ensures
        has_clean_ends(cleaned_text(text)),
{
    let inner = trimmed(stripped(trimmed(text), noise_patterns().len()));
    lemma_trimmed_has_clean_ends(stripped(trimmed(text), noise_patterns().len()));
    lemma_collapse_keeps_clean_ends(inner);
}

} // verus!
