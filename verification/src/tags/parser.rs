//! Cutting the text of one comment block into its description and its tags.
//!
//! A tag starts where a line, after blanks only, holds `@` directly followed
//! by a character that is no white space. Wherever a line can be read that
//! way it is a new tag, never the continuation of the tag before. The tag's
//! name runs up to the next white space; its argument text runs on, over as
//! many lines as follow, up to the start of the next tag or the end of the
//! block. What stands before the first tag is the description.

use crate::diagnostic::{models, Diagnostic, DiagnosticModel};
use crate::span::Span;
use crate::tags::Tag;
use crate::text::{is_whitespace, is_whitespace_char, lemma_skip_word_bounds, skip_word};
use vstd::prelude::*;

verus! {

/// Whether nothing but blanks stands between the start of its line and the
/// position `at`.
pub open spec fn blank_before(s: Seq<char>, at: int) -> bool
    decreases at,
{
    if at <= 0 || at > s.len() {
        true
    } else if s[at - 1] == '\n' {
        true
    } else {
        is_whitespace(s[at - 1]) && blank_before(s, at - 1)
    }
}

/// Whether a tag starts at `at`.
pub open spec fn is_marker(s: Seq<char>, at: int) -> bool {
    &&& 0 <= at
    &&& at + 1 < s.len()
    &&& s[at] == '@'
    &&& !is_whitespace(s[at + 1])
    &&& blank_before(s, at)
}

/// The first position at or after `from` where a tag starts, or the length of
/// `s` when none does.
pub open spec fn next_marker(s: Seq<char>, from: int) -> int
    decreases s.len() - from,
{
    if from < 0 || from >= s.len() {
        s.len() as int
    } else if is_marker(s, from) {
        from
    } else {
        next_marker(s, from + 1)
    }
}

/// The place of one tag in the text of a comment: the position of its `@`,
/// the end of its name, and the end of its argument text.
pub struct TagText {
    pub marker: int,
    pub name_end: int,
    pub end: int,
}

/// The tag that starts at the marker `at`.
pub open spec fn tag_text_at(s: Seq<char>, at: int) -> TagText {
    TagText { marker: at, name_end: skip_word(s, at + 1), end: next_marker(s, at + 1) }
}

/// The tags that start at or after `from`, in the order of the text.
pub open spec fn tag_texts(s: Seq<char>, from: int) -> Seq<TagText>
    decreases s.len() - from,
{
    if from < 0 || from >= s.len() {
        Seq::empty()
    } else if is_marker(s, from) {
        seq![tag_text_at(s, from)] + tag_texts(s, from + 1)
    } else {
        tag_texts(s, from + 1)
    }
}

/// What the tag at `place` in `comment` parses to.
pub open spec fn tag_outcome<'a>(comment: Span<'a>, place: TagText) -> Result<
    Tag<'a>,
    DiagnosticModel<'a>,
> {
    Tag::parsed(
        comment.sub(place.marker + 1, place.name_end),
        comment.sub(place.name_end, place.end),
    )
}

/// The tags among `places` that parse, in the same order.
pub open spec fn tags_of<'a>(comment: Span<'a>, places: Seq<TagText>) -> Seq<Tag<'a>>
    decreases places.len(),
{
    if places.len() == 0 {
        Seq::empty()
    } else {
        match tag_outcome(comment, places.last()) {
            Ok(tag) => tags_of(comment, places.drop_last()).push(tag),
            Err(_) => tags_of(comment, places.drop_last()),
        }
    }
}

/// What is reported of the tags among `places` that do not parse, in the same
/// order.
pub open spec fn diagnostics_of<'a>(comment: Span<'a>, places: Seq<TagText>) -> Seq<
    DiagnosticModel<'a>,
>
    decreases places.len(),
{
    if places.len() == 0 {
        Seq::empty()
    } else {
        match tag_outcome(comment, places.last()) {
            Ok(_) => diagnostics_of(comment, places.drop_last()),
            Err(diagnostic) => diagnostics_of(comment, places.drop_last()).push(diagnostic),
        }
    }
}

/// The description of `comment`: what stands before its first tag, trimmed.
pub open spec fn description_of_comment<'a>(comment: Span<'a>) -> Span<'a> {
    comment.sub(0, next_marker(comment@, 0)).trimmed()
}

/// What one comment block holds.
#[derive(Debug, PartialEq)]
pub struct ParsedComment<'a> {
    /// The free text before the first tag, trimmed.
    pub desc: Span<'a>,
    /// The tags that parsed, in the order of the text.
    pub tags: Vec<Tag<'a>>,
    /// One diagnostic for each tag that did not parse, in the order of the
    /// text.
    pub diagnostics: Vec<Diagnostic<'a>>,
}

pub proof fn lemma_next_marker_bounds(s: Seq<char>, from: int)
    requires
        0 <= from <= s.len(),
    ensures
        from <= next_marker(s, from) <= s.len(),
        next_marker(s, from) < s.len() ==> is_marker(s, next_marker(s, from)),
        forall|at: int| from <= at < next_marker(s, from) ==> !is_marker(s, at),
    decreases s.len() - from,
{
    if from < s.len() && !is_marker(s, from) {
        lemma_next_marker_bounds(s, from + 1);
    }
}

/// Over a stretch in which no tag starts, nothing changes.
pub proof fn lemma_skip_unmarked(s: Seq<char>, from: int, to: int)
    requires
        0 <= from <= to <= s.len(),
        forall|at: int| from <= at < to ==> !is_marker(s, at),
    ensures
        next_marker(s, from) == next_marker(s, to),
        tag_texts(s, from) == tag_texts(s, to),
    decreases to - from,
{
    if from < to {
        lemma_skip_unmarked(s, from + 1, to);
    }
}

/// No tag starts inside the name of a tag, nor directly behind it.
pub proof fn lemma_name_unmarked(s: Seq<char>, at: int)
    requires
        is_marker(s, at),
    ensures
        at + 1 < skip_word(s, at + 1) <= s.len(),
        forall|p: int| at < p <= skip_word(s, at + 1) ==> !is_marker(s, p),
        !blank_before(s, skip_word(s, at + 1)),
{
    lemma_skip_word_bounds(s, at + 1);
    assert(!is_whitespace('@'));
    assert forall|p: int| at < p <= skip_word(s, at + 1) implies !blank_before(s, p) by {
        assert(!is_whitespace(s[p - 1]));
    }
}

/// The places of the tags are those where a tag starts, each once and in the
/// order of the text, and no two of them overlap.
pub proof fn lemma_tag_texts_in_source_order(s: Seq<char>, from: int)
    requires
        0 <= from,
    ensures
        forall|i: int|
            0 <= i < tag_texts(s, from).len() ==> {
                let place = #[trigger] tag_texts(s, from)[i];
                from <= place.marker && is_marker(s, place.marker) && place == tag_text_at(
                    s,
                    place.marker,
                ) && place.marker < place.name_end <= place.end <= s.len()
            },
        forall|i: int, j: int|
            0 <= i < j < tag_texts(s, from).len() ==> (#[trigger] tag_texts(s, from)[i]).end <= (
            #[trigger] tag_texts(s, from)[j]).marker,
        forall|at: int|
            from <= at && is_marker(s, at) ==> exists|i: int|
                0 <= i < tag_texts(s, from).len() && (#[trigger] tag_texts(s, from)[i]).marker == at,
    decreases s.len() - from,
{
    if from < s.len() {
        lemma_tag_texts_in_source_order(s, from + 1);
        let rest = tag_texts(s, from + 1);
        let all = tag_texts(s, from);
        if is_marker(s, from) {
            let head = tag_text_at(s, from);
            lemma_name_unmarked(s, from);
            lemma_next_marker_bounds(s, from + 1);
            lemma_skip_unmarked(s, from + 1, head.name_end);
            lemma_next_marker_bounds(s, head.name_end);
            assert(all =~= seq![head] + rest);
            assert(all[0] == head);
            assert forall|i: int| 0 < i < all.len() implies all[i] == rest[i - 1] by {}
            assert forall|i: int, j: int| 0 <= i < j < all.len() implies (#[trigger] all[i]).end <= (
            #[trigger] all[j]).marker by {
                if i == 0 {
                    let later = rest[j - 1];
                    assert(is_marker(s, later.marker));
                    assert(from + 1 <= later.marker);
                } else {
                    assert(rest[i - 1].end <= rest[j - 1].marker);
                }
            }
            assert forall|at: int| from <= at && is_marker(s, at) implies exists|i: int|
                0 <= i < all.len() && (#[trigger] all[i]).marker == at by {
                if at == from {
                    assert(all[0].marker == at);
                } else {
                    let k = choose|k: int| 0 <= k < rest.len() && (#[trigger] rest[k]).marker == at;
                    assert(all[k + 1].marker == at);
                }
            }
        } else {
            assert(all == rest);
            assert forall|at: int| from <= at && is_marker(s, at) implies exists|i: int|
                0 <= i < all.len() && (#[trigger] all[i]).marker == at by {
                let k = choose|k: int| 0 <= k < rest.len() && (#[trigger] rest[k]).marker == at;
                assert(all[k].marker == at);
            }
        }
    }
}

/// Of the tags at `places`, those that parse are handed out and those that do
/// not are reported, each kind in the order of `places`: every tag is in
/// exactly one of the two sequences.
pub proof fn lemma_every_tag_accounted_for<'a>(comment: Span<'a>, places: Seq<TagText>)
    ensures
        tags_of(comment, places) == places.filter(
            |place: TagText| tag_outcome(comment, place) is Ok,
        ).map_values(|place: TagText| tag_outcome(comment, place)->Ok_0),
        diagnostics_of(comment, places) == places.filter(
            |place: TagText| tag_outcome(comment, place) is Err,
        ).map_values(|place: TagText| tag_outcome(comment, place)->Err_0),
        tags_of(comment, places).len() + diagnostics_of(comment, places).len() == places.len(),
    decreases places.len(),
{
    reveal(Seq::filter);
    let valid = |place: TagText| tag_outcome(comment, place) is Ok;
    let malformed = |place: TagText| tag_outcome(comment, place) is Err;
    let tag = |place: TagText| tag_outcome(comment, place)->Ok_0;
    let report = |place: TagText| tag_outcome(comment, place)->Err_0;
    if places.len() == 0 {
        assert(tags_of(comment, places) =~= places.filter(valid).map_values(tag));
        assert(diagnostics_of(comment, places) =~= places.filter(malformed).map_values(report));
    } else {
        let before = places.drop_last();
        lemma_every_tag_accounted_for(comment, before);
        if valid(places.last()) {
            assert(places.filter(valid).map_values(tag) =~= before.filter(valid).map_values(
                tag,
            ).push(tag(places.last())));
        } else {
            assert(places.filter(malformed).map_values(report) =~= before.filter(
                malformed,
            ).map_values(report).push(report(places.last())));
        }
    }
}

/// The first position at or after `from` where a tag starts.
fn find_marker(comment: &Span, from: usize, blank: bool) -> (at: usize)
    requires
        from <= comment@.len(),
        blank == blank_before(comment@, from as int),
    ensures
        at == next_marker(comment@, from as int),
        from <= at <= comment@.len(),
        at < comment@.len() ==> is_marker(comment@, at as int),
{
    let n = comment.len();
    let mut i = from;
    let mut blank = blank;
    while i < n
        invariant
            from <= i <= n,
            n == comment@.len(),
            blank == blank_before(comment@, i as int),
            next_marker(comment@, from as int) == next_marker(comment@, i as int),
        decreases n - i,
    {
        let c = comment.char_at(i);
        if blank && c == '@' && i + 1 < n && !is_whitespace_char(comment.char_at(i + 1)) {
            return i;
        }
        blank = c == '\n' || (blank && is_whitespace_char(c));
        i += 1;
    }
    i
}

/// Cuts `comment` into its description and its tags, and parses every tag.
///
/// A tag that does not parse gives one diagnostic and stops nothing: the tags
/// before and after it are parsed as if it were not there.
pub fn parse_tags<'a>(comment: Span<'a>) -> (parsed: ParsedComment<'a>)
    ensures
        parsed.desc == description_of_comment(comment),
        parsed.tags@ == tags_of(comment, tag_texts(comment@, 0)),
        models(parsed.diagnostics@) == diagnostics_of(comment, tag_texts(comment@, 0)),
{
    let n = comment.len();
    let first = find_marker(&comment, 0, true);
    let desc = comment.slice(0, first).trim();
    let mut tags: Vec<Tag<'a>> = Vec::new();
    let mut diagnostics: Vec<Diagnostic<'a>> = Vec::new();
    let mut at = first;
    let ghost mut done: Seq<TagText> = Seq::empty();
    proof {
        lemma_next_marker_bounds(comment@, 0);
        lemma_skip_unmarked(comment@, 0, first as int);
        assert(models(diagnostics@) =~= Seq::empty());
    }
    while at < n
        invariant
            at <= n,
            n == comment@.len(),
            at < n ==> is_marker(comment@, at as int),
            tag_texts(comment@, 0) == done + tag_texts(comment@, at as int),
            tags@ == tags_of(comment, done),
            models(diagnostics@) == diagnostics_of(comment, done),
        decreases n - at,
    {
        proof {
            lemma_name_unmarked(comment@, at as int);
        }
        let name_end = comment.skip_word(at + 1);
        let next = find_marker(&comment, name_end, false);
        let name = comment.slice(at + 1, name_end);
        let remainder = comment.slice(name_end, next);
        let ghost place = tag_text_at(comment@, at as int);
        proof {
            lemma_next_marker_bounds(comment@, name_end as int);
            lemma_skip_unmarked(comment@, at + 1, name_end as int);
            lemma_skip_unmarked(comment@, name_end as int, next as int);
            assert(place.end == next);
            assert(tag_texts(comment@, at as int) == seq![place] + tag_texts(comment@, next as int));
            assert(done.push(place).drop_last() =~= done);
            assert(done + (seq![place] + tag_texts(comment@, next as int)) =~= done.push(place)
                + tag_texts(comment@, next as int));
        }
        match Tag::parse(name, remainder) {
            Ok(tag) => {
                tags.push(tag);
            },
            Err(diagnostic) => {
                diagnostics.push(diagnostic);
                assert(models(diagnostics@) =~= diagnostics_of(comment, done).push(diagnostic@));
            },
        }
        proof {
            done = done.push(place);
        }
        at = next;
    }
    assert(done + tag_texts(comment@, at as int) =~= done);
    ParsedComment { desc, tags, diagnostics }
}

} // verus!
