//! Character-level vocabulary shared by the span, tag and entry modules.
//!
//! Everything here is stated over `Seq<char>` and integer positions, so that the
//! grammars of the tags can be written once, as mathematics, and the executable
//! scanners proved against them.

use vstd::prelude::*;

verus! {

/// The characters that count as white space: the code points with the Unicode
/// `White_Space` property.
pub open spec fn is_whitespace(c: char) -> bool {
    let n = c as u32;
    ||| 0x09 <= n <= 0x0d
    ||| n == 0x20
    ||| n == 0x85
    ||| n == 0xa0
    ||| n == 0x1680
    ||| 0x2000 <= n <= 0x200a
    ||| n == 0x2028
    ||| n == 0x2029
    ||| n == 0x202f
    ||| n == 0x205f
    ||| n == 0x3000
}

/// Decides [`is_whitespace`].
pub fn is_whitespace_char(c: char) -> (b: bool)
    ensures
        b == is_whitespace(c),
{
    let n: u32 = c as u32;
    (0x09 <= n && n <= 0x0d) || n == 0x20 || n == 0x85 || n == 0xa0 || n == 0x1680 || (0x2000 <= n
        && n <= 0x200a) || n == 0x2028 || n == 0x2029 || n == 0x202f || n == 0x205f || n == 0x3000
}

/// The first position at or after `from` that holds no white space, or the
/// length of `s` when only white space follows.
pub open spec fn skip_whitespace(s: Seq<char>, from: int) -> int
    decreases s.len() - from,
{
    if from < 0 || from >= s.len() {
        s.len() as int
    } else if !is_whitespace(s[from]) {
        from
    } else {
        skip_whitespace(s, from + 1)
    }
}

/// The first position at or after `from` that holds white space, or the length
/// of `s` when none follows.
pub open spec fn skip_word(s: Seq<char>, from: int) -> int
    decreases s.len() - from,
{
    if from < 0 || from >= s.len() {
        s.len() as int
    } else if is_whitespace(s[from]) {
        from
    } else {
        skip_word(s, from + 1)
    }
}

/// The first position at or after `from` that holds `c`, or the length of `s`
/// when `c` does not occur there.
pub open spec fn find_char(s: Seq<char>, c: char, from: int) -> int
    decreases s.len() - from,
{
    if from < 0 || from >= s.len() {
        s.len() as int
    } else if s[from] == c {
        from
    } else {
        find_char(s, c, from + 1)
    }
}

/// Whether the two characters at `at` and `at + 1` are both `-`.
pub open spec fn dashes_at(s: Seq<char>, at: int) -> bool {
    0 <= at && at + 1 < s.len() && s[at] == '-' && s[at + 1] == '-'
}

/// The first position at or after `from` where `--` starts, or the length of
/// `s` when there is none.
pub open spec fn find_dashes(s: Seq<char>, from: int) -> int
    decreases s.len() - from,
{
    if from < 0 || from >= s.len() {
        s.len() as int
    } else if dashes_at(s, from) {
        from
    } else {
        find_dashes(s, from + 1)
    }
}

/// The end of the text that is left of `s[from..to]` once trailing white space
/// is cut: one past the last position in the range that holds no white space,
/// or `from` when the range holds nothing else.
pub open spec fn trim_end_at(s: Seq<char>, from: int, to: int) -> int
    decreases to - from,
{
    if to <= from || to > s.len() {
        from
    } else if !is_whitespace(s[to - 1]) {
        to
    } else {
        trim_end_at(s, from, to - 1)
    }
}

/// Where the trimmed text starts in `s`: at the first character that is no
/// white space, and at the start where `s` holds nothing else.
pub open spec fn trim_start_of(s: Seq<char>) -> int {
    if skip_whitespace(s, 0) < s.len() {
        skip_whitespace(s, 0)
    } else {
        0
    }
}

/// Where the trimmed text ends in `s`.
pub open spec fn trim_end_of(s: Seq<char>) -> int {
    trim_end_at(s, trim_start_of(s), s.len() as int)
}

/// `s` without its leading and trailing white space.
pub open spec fn trimmed(s: Seq<char>) -> Seq<char> {
    s.subrange(trim_start_of(s), trim_end_of(s))
}

/// Number of line feeds in `s[..upto]`.
pub open spec fn count_newlines(s: Seq<char>, upto: int) -> nat
    decreases upto,
{
    if upto <= 0 || upto > s.len() {
        0
    } else if s[upto - 1] == '\n' {
        count_newlines(s, upto - 1) + 1
    } else {
        count_newlines(s, upto - 1)
    }
}

/// Where the line that holds position `at` starts: one past the last line feed
/// before `at`, or 0.
pub open spec fn line_start(s: Seq<char>, at: int) -> int
    decreases at,
{
    if at <= 0 || at > s.len() {
        0
    } else if s[at - 1] == '\n' {
        at
    } else {
        line_start(s, at - 1)
    }
}

/// What [`skip_whitespace`] finds: the end of the white space that starts at
/// `from`.
pub proof fn lemma_skip_whitespace_bounds(s: Seq<char>, from: int)
    requires
        0 <= from <= s.len(),
    ensures
        from <= skip_whitespace(s, from) <= s.len(),
        skip_whitespace(s, from) < s.len() ==> !is_whitespace(s[skip_whitespace(s, from)]),
        forall|i: int| from <= i < skip_whitespace(s, from) ==> is_whitespace(#[trigger] s[i]),
    decreases s.len() - from,
{
    if from < s.len() && is_whitespace(s[from]) {
        lemma_skip_whitespace_bounds(s, from + 1);
    }
}

/// What [`skip_word`] finds: the end of the word that starts at `from`.
pub proof fn lemma_skip_word_bounds(s: Seq<char>, from: int)
    requires
        0 <= from <= s.len(),
    ensures
        from <= skip_word(s, from) <= s.len(),
        skip_word(s, from) < s.len() ==> is_whitespace(s[skip_word(s, from)]),
        forall|i: int| from <= i < skip_word(s, from) ==> !is_whitespace(#[trigger] s[i]),
    decreases s.len() - from,
{
    if from < s.len() && !is_whitespace(s[from]) {
        lemma_skip_word_bounds(s, from + 1);
    }
}

/// What [`find_char`] finds: the first `c` at or after `from`.
pub proof fn lemma_find_char_bounds(s: Seq<char>, c: char, from: int)
    requires
        0 <= from <= s.len(),
    ensures
        from <= find_char(s, c, from) <= s.len(),
        find_char(s, c, from) < s.len() ==> s[find_char(s, c, from)] == c,
        forall|i: int| from <= i < find_char(s, c, from) ==> #[trigger] s[i] != c,
    decreases s.len() - from,
{
    if from < s.len() && s[from] != c {
        lemma_find_char_bounds(s, c, from + 1);
    }
}

/// What [`find_dashes`] finds: the first `--` at or after `from`.
pub proof fn lemma_find_dashes_bounds(s: Seq<char>, from: int)
    requires
        0 <= from <= s.len(),
    ensures
        from <= find_dashes(s, from) <= s.len(),
        find_dashes(s, from) < s.len() ==> dashes_at(s, find_dashes(s, from)),
        forall|i: int| from <= i < find_dashes(s, from) ==> !#[trigger] dashes_at(s, i),
    decreases s.len() - from,
{
    if from < s.len() && !dashes_at(s, from) {
        lemma_find_dashes_bounds(s, from + 1);
    }
}

/// What [`trim_end_at`] finds: the start of the white space that ends at
/// `to`.
pub proof fn lemma_trim_end_bounds(s: Seq<char>, from: int, to: int)
    requires
        0 <= from <= to <= s.len(),
    ensures
        from <= trim_end_at(s, from, to) <= to,
        trim_end_at(s, from, to) > from ==> !is_whitespace(s[trim_end_at(s, from, to) - 1]),
        forall|i: int| trim_end_at(s, from, to) <= i < to ==> is_whitespace(#[trigger] s[i]),
    decreases to - from,
{
    if from < to && is_whitespace(s[to - 1]) {
        lemma_trim_end_bounds(s, from, to - 1);
    }
}

/// The trimmed text lies inside `s` and neither starts nor ends with white
/// space; it is empty exactly where `s` holds white space alone.
pub proof fn lemma_trimmed_has_bare_ends(s: Seq<char>)
    ensures
        0 <= trim_start_of(s) <= trim_end_of(s) <= s.len(),
        trimmed(s).len() > 0 ==> !is_whitespace(trimmed(s).first()) && !is_whitespace(
            trimmed(s).last(),
        ),
        trimmed(s).len() == 0 <==> forall|i: int| 0 <= i < s.len() ==> is_whitespace(#[trigger] s[i]),
{
    lemma_skip_whitespace_bounds(s, 0);
    lemma_trim_end_bounds(s, trim_start_of(s), s.len() as int);
    if trimmed(s).len() == 0 {
        assert forall|i: int| 0 <= i < s.len() implies is_whitespace(#[trigger] s[i]) by {}
    }
}

} // verus!
