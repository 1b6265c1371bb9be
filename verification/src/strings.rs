//! Texts: what the standard library's string functions that this library
//! calls return, and a few facts about trimming and replacing.

use vstd::prelude::*;

verus! {

/// `str` equality compares the two texts character by character.
pub assume_specification[ <str as PartialEq>::eq ](left: &str, right: &str) -> (same: bool)
    ensures
        same == (left@ == right@),
;

/// The code points with the Unicode property `White_Space`.
pub open spec fn is_white_space(c: char) -> bool {
    let n = c as u32;
    ||| 0x09 <= n <= 0x0D
    ||| n == 0x20
    ||| n == 0x85
    ||| n == 0xA0
    ||| n == 0x1680
    ||| 0x2000 <= n <= 0x200A
    ||| n == 0x2028
    ||| n == 0x2029
    ||| n == 0x202F
    ||| n == 0x205F
    ||| n == 0x3000
}

/// `text` without its leading white space.
pub open spec fn trim_start(text: Seq<char>) -> Seq<char>
    decreases text.len(),
{
    if text.len() > 0 && is_white_space(text.first()) {
        trim_start(text.drop_first())
    } else {
        text
    }
}

/// `text` without its trailing white space.
pub open spec fn trim_end(text: Seq<char>) -> Seq<char>
    decreases text.len(),
{
    if text.len() > 0 && is_white_space(text.last()) {
        trim_end(text.drop_last())
    } else {
        text
    }
}

/// `text` without leading and trailing white space.
pub open spec fn trimmed(text: Seq<char>) -> Seq<char> {
    trim_end(trim_start(text))
}

/// `str::trim` removes leading and trailing white space, where white space is
/// what the Unicode property `White_Space` covers.
pub assume_specification[ str::trim ](text: &str) -> (inner: &str)
    ensures
        inner@ == trimmed(text@),
;

/// `text` with every occurrence of `from` replaced by `to`, the occurrences
/// being found from left to right and never overlapping.
pub open spec fn replaced(text: Seq<char>, from: Seq<char>, to: Seq<char>) -> Seq<char>
    decreases text.len(),
{
    if from.len() == 0 || text.len() < from.len() {
        text
    } else if text.subrange(0, from.len() as int) == from {
        to + replaced(text.skip(from.len() as int), from, to)
    } else {
        seq![text.first()] + replaced(text.drop_first(), from, to)
    }
}

/// `str::replace` with a string pattern: every match of `from`, found from
/// left to right without overlap, gives way to `to`. An empty pattern, which
/// matches between any two characters, is left out.
#[verifier::external_body]
pub(crate) fn replace_text(text: &str, from: &str, to: &str) -> (out: String)
    requires
        from@.len() > 0,
    ensures
        out@ == replaced(text@, from@, to@),
{
    text.replace(from, to)
}

/// Neither end of `text` is white space. Holds of the empty text.
pub open spec fn has_clean_ends(text: Seq<char>) -> bool {
    text.len() > 0 ==> !is_white_space(text.first()) && !is_white_space(text.last())
}

/// Reduces each pair of blanks to one blank, going from left to right once:
/// of three blanks in a row, two are left.
pub fn collapse_blank_pairs(text: &str) -> (collapsed: String)
    ensures
        collapsed@ == replaced(text@, "  "@, " "@),
{
    proof {
        reveal_strlit("  ");
    }
    replace_text(text, "  ", " ")
}

/// Whether `c` is white space.
pub fn is_white_space_char(c: char) -> (white: bool)
    ensures
        white == is_white_space(c),
{
    let n: u32 = c as u32;
    (0x09 <= n && n <= 0x0D) || n == 0x20 || n == 0x85 || n == 0xA0 || n == 0x1680 || (0x2000 <= n
        && n <= 0x200A) || n == 0x2028 || n == 0x2029 || n == 0x202F || n == 0x205F || n == 0x3000
}

/// A text without leading white space is empty or starts with a character
/// that is no white space.
pub proof fn lemma_trim_start_first(text: Seq<char>)
    ensures
        trim_start(text).len() > 0 ==> !is_white_space(trim_start(text).first()),
    decreases text.len(),
{
    if text.len() > 0 && is_white_space(text.first()) {
        lemma_trim_start_first(text.drop_first());
    }
}

/// Trimming the end keeps a prefix: what is left ends in a character that is
/// no white space, and starts as the text did.
pub proof fn lemma_trim_end_shape(text: Seq<char>)
    ensures
        trim_end(text).len() <= text.len(),
        trim_end(text) == text.subrange(0, trim_end(text).len() as int),
        trim_end(text).len() > 0 ==> !is_white_space(trim_end(text).last()),
    decreases text.len(),
{
    if text.len() > 0 && is_white_space(text.last()) {
        lemma_trim_end_shape(text.drop_last());
    }
}

/// A trimmed text has clean ends.
pub proof fn lemma_trimmed_has_clean_ends(text: Seq<char>)
    ensures
        has_clean_ends(trimmed(text)),
{
    lemma_trim_start_first(text);
    lemma_trim_end_shape(trim_start(text));
}

/// Trimming changes nothing in a text with clean ends.
pub proof fn lemma_trimmed_of_clean_ends(text: Seq<char>)
    requires
        has_clean_ends(text),
    ensures
        trimmed(text) == text,
{
}

/// Reducing pairs of blanks keeps the ends of a text with clean ends, and
/// keeps a text that is not empty from becoming empty.
pub proof fn lemma_collapse_keeps_clean_ends(text: Seq<char>)
    requires
        has_clean_ends(text),
    ensures
        has_clean_ends(replaced(text, "  "@, " "@)),
        text.len() > 0 <==> replaced(text, "  "@, " "@).len() > 0,
{
    reveal_strlit("  ");
    reveal_strlit(" ");
    if text.len() > 0 {
        lemma_collapse_keeps_last(text);
        if text.len() >= 2 {
            // The text does not start with a blank, so not with a pair of them.
            assert(text.subrange(0, 2)[0] == text.first());
        }
    }
}

proof fn lemma_collapse_keeps_last(text: Seq<char>)
    requires
        text.len() > 0,
        text.last() != ' ',
    ensures
        replaced(text, "  "@, " "@).len() > 0,
        replaced(text, "  "@, " "@).last() == text.last(),
    decreases text.len(),
{
    reveal_strlit("  ");
    reveal_strlit(" ");
    let pair = "  "@;
    if text.len() < 2 {
    } else if text.subrange(0, 2) == pair {
        // The text does not end in a blank, so more follows the pair.
        assert(pair[1] == ' ');
        lemma_collapse_keeps_last(text.skip(2));
    } else {
        lemma_collapse_keeps_last(text.drop_first());
    }
}

/// Whether `part` occurs in `text`.
pub open spec fn has_part(text: Seq<char>, part: Seq<char>) -> bool {
    exists|i: int|
        0 <= i <= text.len() - part.len() && #[trigger] text.subrange(i, i + part.len()) == part
}

/// `str::contains` with a string pattern: whether the pattern matches a part
/// of the text.
#[verifier::external_body]
pub(crate) fn contains_text(text: &str, part: &str) -> (found: bool)
    ensures
        found == has_part(text@, part@),
{
    text.contains(part)
}

/// Whether `text` ends with `end`.
pub open spec fn has_end(text: Seq<char>, end: Seq<char>) -> bool {
    text.len() >= end.len() && text.subrange(text.len() - end.len(), text.len() as int) == end
}

/// `str::ends_with` with a string pattern: whether the pattern matches the
/// end of the text.
#[verifier::external_body]
pub(crate) fn ends_with_text(text: &str, end: &str) -> (found: bool)
    ensures
        found == has_end(text@, end@),
{
    text.ends_with(end)
}

/// What `str::to_lowercase` returns: the text in lower case, by the rules of
/// Unicode.
pub uninterp spec fn lowercase_of(text: Seq<char>) -> Seq<char>;

/// `str::to_lowercase` maps a text to its lower-case equivalent.
pub assume_specification[ str::to_lowercase ](text: &str) -> (lower: String)
    ensures
        lower@ == lowercase_of(text@),
;

/// What stands behind the last `separator` in `text`; all of `text` where
/// there is no separator in it.
pub open spec fn after_last(text: Seq<char>, separator: char) -> Seq<char>
    decreases text.len(),
{
    if text.len() == 0 || text.last() == separator {
        Seq::empty()
    } else {
        after_last(text.drop_last(), separator).push(text.last())
    }
}

/// What stands behind the last separator is the end of the text from the
/// first position behind which no separator stands.
proof fn lemma_after_last_is_the_tail(text: Seq<char>, separator: char, start: int)
    requires
        0 <= start <= text.len(),
        forall|i: int| start <= i < text.len() ==> text[i] != separator,
        start > 0 ==> text[start - 1] == separator,
    ensures
        after_last(text, separator) == text.subrange(start, text.len() as int),
    decreases text.len(),
{
    if start < text.len() {
        lemma_after_last_is_the_tail(text.drop_last(), separator, start);
        assert(text.subrange(start, text.len() as int) =~= text.drop_last().subrange(
            start,
            text.len() - 1,
        ).push(text.last()));
    } else {
        assert(text.subrange(start, text.len() as int) =~= Seq::<char>::empty());
    }
}

/// The part of the text behind the last separator, which is the whole text
/// where none occurs.
pub fn last_segment(text: &str, separator: char) -> (segment: &str)
    ensures
        segment@ == after_last(text@, separator),
{
    let len: usize = text.unicode_len();
    let mut start: usize = len;
    while start > 0 && text.get_char(start - 1) != separator
        invariant
            start <= len,
            len == text@.len(),
            forall|i: int| start <= i < len ==> text@[i] != separator,
        decreases start,
    {
        start = start - 1;
    }
    proof {
        lemma_after_last_is_the_tail(text@, separator, start as int);
    }
    text.substring_char(start, len)
}

} // verus!
