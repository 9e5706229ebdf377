//! The shape that the argument text of several tags shares:
//! `<name> <type> -- <description>`, of which a tag takes the parts it has.
//!
//! The text is cut at its first `--` or at the end of its first line,
//! whichever comes first. What stands before the cut is the head, what stands
//! after it the description, and both are trimmed. The head's first word is a
//! name, and the rest of the head, trimmed, is a type.

use crate::span::Span;
use crate::text::{find_char, find_dashes, lemma_find_dashes_bounds, skip_word};
use vstd::prelude::*;

verus! {

/// Whether the first `--` of `s` stands on its first line.
pub open spec fn cut_at_dashes(s: Seq<char>) -> bool {
    find_dashes(s, 0) < find_char(s, '\n', 0)
}

/// Where the head of `s` ends: at the first `--` or at the first line feed,
/// whichever comes first, and at the end where `s` has neither.
pub open spec fn head_end(s: Seq<char>) -> int {
    if cut_at_dashes(s) {
        find_dashes(s, 0)
    } else {
        find_char(s, '\n', 0)
    }
}

/// Where the description of `s` starts: behind the `--` that ends the head,
/// else where the head ends.
pub open spec fn description_start(s: Seq<char>) -> int {
    if cut_at_dashes(s) {
        find_dashes(s, 0) + 2
    } else {
        find_char(s, '\n', 0)
    }
}

/// The head of `text`, trimmed.
pub open spec fn head_of<'a>(text: Span<'a>) -> Span<'a> {
    text.sub(0, head_end(text@)).trimmed()
}

/// The description in `text`, trimmed; empty where `text` has none.
pub open spec fn description_of<'a>(text: Span<'a>) -> Span<'a> {
    text.sub(description_start(text@), text@.len() as int).trimmed()
}

/// The first word of `head`.
pub open spec fn first_word_of<'a>(head: Span<'a>) -> Span<'a> {
    head.sub(0, skip_word(head@, 0))
}

/// What follows the first word of `head`, trimmed.
pub open spec fn after_first_word_of<'a>(head: Span<'a>) -> Span<'a> {
    head.sub(skip_word(head@, 0), head@.len() as int).trimmed()
}

/// Cuts `text` into its head and its description.
pub fn split_description<'a>(text: Span<'a>) -> (parts: (Span<'a>, Span<'a>))
    ensures
        parts.0 == head_of(text),
        parts.1 == description_of(text),
{
    let n = text.len();
    let dashes = text.find_dashes(0);
    let line_end = text.find_char('\n', 0);
    if dashes < line_end {
        proof {
            lemma_find_dashes_bounds(text@, 0);
        }
        (text.slice(0, dashes).trim(), text.slice(dashes + 2, n).trim())
    } else {
        (text.slice(0, line_end).trim(), text.slice(line_end, n).trim())
    }
}

/// Cuts `head` into its first word and the trimmed rest.
pub fn split_first_word<'a>(head: Span<'a>) -> (parts: (Span<'a>, Span<'a>))
    ensures
        parts.0 == first_word_of(head),
        parts.1 == after_first_word_of(head),
{
    let n = head.len();
    let word_end = head.skip_word(0);
    (head.slice(0, word_end), head.slice(word_end, n).trim())
}

} // verus!
