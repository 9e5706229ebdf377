//! Source buffers and the located slices of them that every tag and
//! diagnostic is anchored to.

use crate::diagnostic::{Diagnostic, DiagnosticModel};
use crate::text::{
    count_newlines, find_char, find_dashes, is_whitespace_char, line_start, skip_whitespace,
    skip_word, trim_end_at, trim_end_of, trim_start_of, trimmed,
};
use vstd::prelude::*;
use vstd::string::StringSliceAdditionalSpecFns;
use vstd::utf8::encode_utf8;

verus! {

/// The text of one comment block, decoded once so that any character can be
/// read by its position.
#[derive(Debug, PartialEq)]
pub struct SourceText {
    text: String,
    chars: Vec<char>,
}

impl View for SourceText {
    type V = Seq<char>;

    closed spec fn view(&self) -> Seq<char> {
        self.chars@
    }
}

impl SourceText {
    #[verifier::type_invariant]
    closed spec fn decoded(&self) -> bool {
        self.text@ == self.chars@
    }

    /// Takes a copy of `text`.
    pub fn new(text: &str) -> (source: SourceText)
        ensures
            source@ == text@,
    {
        let mut chars: Vec<char> = Vec::new();
        for c in it: text.chars()
            invariant
                it.seq() == text@,
                chars@ == it.seq().take(it.index()),
        {
            chars.push(c);
            assert(chars@ =~= it.seq().take(it.index() + 1));
        }
        assert(chars@ =~= text@);
        SourceText { text: text.to_owned(), chars }
    }

    /// Number of characters in the buffer.
    pub fn len(&self) -> (n: usize)
        ensures
            n == self@.len(),
    {
        self.chars.len()
    }

    /// The whole text.
    pub fn as_str(&self) -> (s: &str)
        ensures
            s@ == self@,
    {
        proof {
            use_type_invariant(self);
        }
        self.text.as_str()
    }
}

/// A slice of a source buffer: the buffer, the position of the first
/// character, and the number of characters. Positions count characters.
///
/// A span never owns text. It always lies inside its buffer; an empty span is
/// a valid place in the text.
#[derive(Clone, Copy, Debug, PartialEq)]
pub struct Span<'a> {
    source: &'a SourceText,
    start: usize,
    len: usize,
}

impl<'a> View for Span<'a> {
    type V = Seq<char>;

    /// The text that the span covers.
    open spec fn view(&self) -> Seq<char> {
        self.buffer().subrange(self.first() as int, (self.first() + self.count()) as int)
    }
}

impl<'a> Span<'a> {
    #[verifier::type_invariant]
    closed spec fn in_bounds(&self) -> bool {
        self.start + self.len <= self.source@.len()
    }

    /// The text of the buffer that the span lies in.
    pub closed spec fn buffer(&self) -> Seq<char> {
        self.source@
    }

    /// Position of the span's first character in its buffer.
    pub closed spec fn first(&self) -> nat {
        self.start as nat
    }

    /// Number of characters that the span covers.
    pub closed spec fn count(&self) -> nat {
        self.len as nat
    }

    /// Whether the span lies inside its buffer. It holds of every span that
    /// this library hands out.
    pub open spec fn wf(&self) -> bool {
        self.first() + self.count() <= self.buffer().len()
    }

    /// The part of this span from its `from`-th to its `to`-th character.
    pub closed spec fn sub(&self, from: int, to: int) -> Span<'a> {
        Span { source: self.source, start: (self.start + from) as usize, len: (to - from) as usize }
    }

    /// The span that covers all of `source`.
    pub closed spec fn covering(source: &'a SourceText) -> Span<'a> {
        Span { source, start: 0, len: source@.len() as usize }
    }

    /// This span without its leading and trailing white space.
    pub open spec fn trimmed(&self) -> Span<'a> {
        self.sub(trim_start_of(self@), trim_end_of(self@))
    }

    /// Where the span starts in the UTF-8 encoding of its buffer, in bytes.
    pub open spec fn byte_offset(&self) -> nat {
        encode_utf8(self.buffer().subrange(0, self.first() as int)).len()
    }

    /// How many bytes the span's text takes in UTF-8.
    pub open spec fn byte_count(&self) -> nat {
        encode_utf8(self@).len()
    }

    /// The number of the line on which the span starts, counted from 0.
    pub open spec fn line_number(&self) -> nat {
        count_newlines(self.buffer(), self.first() as int)
    }

    /// The number of characters between the start of that line and the span,
    /// counted from 0.
    pub open spec fn column_number(&self) -> int {
        self.first() - line_start(self.buffer(), self.first() as int)
    }

    /// What [`Span::sub`] yields: a span of the same buffer, placed relative to
    /// this one, whose text is the matching part of this span's text.
    pub proof fn lemma_sub(&self, from: int, to: int)
        requires
            self.wf(),
            0 <= from <= to <= self.count(),
        ensures
            self.sub(from, to).buffer() == self.buffer(),
            self.sub(from, to).first() == self.first() + from,
            self.sub(from, to).count() == to - from,
            self.sub(from, to).wf(),
            self.sub(from, to)@ == self@.subrange(from, to),
    {
        assert(self.source.chars.len() <= usize::MAX);
        assert(self.sub(from, to)@ =~= self@.subrange(from, to));
    }

    /// The span of `len` characters of `source` that starts at `start`, or
    /// `None` when that range does not lie inside the buffer.
    pub fn new(source: &'a SourceText, start: usize, len: usize) -> (span: Option<Span<'a>>)
        ensures
            span is Some <==> start + len <= source@.len(),
            span matches Some(s) ==> s == Self::covering(source).sub(start as int, start + len)
                && s.buffer() == source@ && s.first() == start && s.count() == len && s.wf(),
    {
        let total = source.len();
        if start <= total && len <= total - start {
            Some(Span { source, start, len })
        } else {
            None
        }
    }

    /// The span that covers all of `source`.
    pub fn whole(source: &'a SourceText) -> (span: Span<'a>)
        ensures
            span == Self::covering(source),
            span.buffer() == source@,
            span.first() == 0,
            span.count() == source@.len(),
            span@ == source@,
            span.wf(),
    {
        let len = source.len();
        let span = Span { source, start: 0, len };
        assert(span@ =~= source@);
        span
    }

    /// Position of the first character in the buffer.
    pub fn start(&self) -> (n: usize)
        ensures
            n == self.first(),
            self.wf(),
    {
        proof {
            use_type_invariant(self);
        }
        self.start
    }

    /// Number of characters covered.
    pub fn len(&self) -> (n: usize)
        ensures
            n == self.count(),
            n == self@.len(),
            self.wf(),
    {
        proof {
            use_type_invariant(self);
        }
        self.len
    }

    /// Position one past the last character in the buffer.
    pub fn end(&self) -> (n: usize)
        ensures
            n == self.first() + self.count(),
            self.wf(),
    {
        proof {
            use_type_invariant(self);
            assert(self.source.chars.len() <= usize::MAX);
        }
        self.start + self.len
    }

    /// Whether the span covers no character.
    pub fn is_empty(&self) -> (b: bool)
        ensures
            b == (self@.len() == 0),
            b == (self.count() == 0),
    {
        proof {
            use_type_invariant(self);
        }
        self.len == 0
    }

    /// The `i`-th character of the span.
    pub fn char_at(&self, i: usize) -> (c: char)
        requires
            i < self@.len(),
        ensures
            c == self@[i as int],
    {
        proof {
            use_type_invariant(self);
            assert(self.source.chars.len() <= usize::MAX);
        }
        self.source.chars[self.start + i]
    }

    /// The part of this span from its `from`-th to its `to`-th character.
    pub fn slice(&self, from: usize, to: usize) -> (part: Span<'a>)
        requires
            from <= to <= self@.len(),
        ensures
            part == self.sub(from as int, to as int),
            part.buffer() == self.buffer(),
            part.first() == self.first() + from,
            part.count() == to - from,
            part@ == self@.subrange(from as int, to as int),
            part.wf(),
    {
        proof {
            use_type_invariant(self);
            self.lemma_sub(from as int, to as int);
        }
        Span { source: self.source, start: self.start + from, len: to - from }
    }

    /// Whether the span's text is exactly `word`.
    pub fn is_text(&self, word: &str) -> (b: bool)
        ensures
            b == (self@ == word@),
    {
        let n = word.unicode_len();
        if self.len() != n {
            return false;
        }
        let mut i: usize = 0;
        while i < n
            invariant
                i <= n,
                n == word@.len(),
                n == self@.len(),
                forall|j: int| 0 <= j < i ==> self@[j] == word@[j],
            decreases n - i,
        {
            if self.char_at(i) != word.get_char(i) {
                return false;
            }
            i += 1;
        }
        assert(self@ =~= word@);
        true
    }

    /// The text that the span covers.
    pub fn as_str(&self) -> (s: &'a str)
        ensures
            s@ == self@,
    {
        proof {
            use_type_invariant(self);
            assert(self.source.chars.len() <= usize::MAX);
        }
        self.source.as_str().substring_char(self.start, self.start + self.len)
    }

    /// The first position at or after `from` that holds no white space.
    pub fn skip_whitespace(&self, from: usize) -> (at: usize)
        requires
            from <= self@.len(),
        ensures
            at == skip_whitespace(self@, from as int),
            from <= at <= self@.len(),
    {
        let n = self.len();
        let mut i = from;
        while i < n && is_whitespace_char(self.char_at(i))
            invariant
                from <= i <= n,
                n == self@.len(),
                skip_whitespace(self@, from as int) == skip_whitespace(self@, i as int),
            decreases n - i,
        {
            i += 1;
        }
        i
    }

    /// The first position at or after `from` that holds white space.
    pub fn skip_word(&self, from: usize) -> (at: usize)
        requires
            from <= self@.len(),
        ensures
            at == skip_word(self@, from as int),
            from <= at <= self@.len(),
    {
        let n = self.len();
        let mut i = from;
        while i < n && !is_whitespace_char(self.char_at(i))
            invariant
                from <= i <= n,
                n == self@.len(),
                skip_word(self@, from as int) == skip_word(self@, i as int),
            decreases n - i,
        {
            i += 1;
        }
        i
    }

    /// The first position at or after `from` that holds `c`.
    pub fn find_char(&self, c: char, from: usize) -> (at: usize)
        requires
            from <= self@.len(),
        ensures
            at == find_char(self@, c, from as int),
            from <= at <= self@.len(),
    {
        let n = self.len();
        let mut i = from;
        while i < n && self.char_at(i) != c
            invariant
                from <= i <= n,
                n == self@.len(),
                find_char(self@, c, from as int) == find_char(self@, c, i as int),
            decreases n - i,
        {
            i += 1;
        }
        i
    }

    /// The first position at or after `from` where `--` starts.
    pub fn find_dashes(&self, from: usize) -> (at: usize)
        requires
            from <= self@.len(),
        ensures
            at == find_dashes(self@, from as int),
            from <= at <= self@.len(),
    {
        let n = self.len();
        let mut i = from;
        while i < n
            invariant
                from <= i <= n,
                n == self@.len(),
                find_dashes(self@, from as int) == find_dashes(self@, i as int),
            decreases n - i,
        {
            if i + 1 < n && self.char_at(i) == '-' && self.char_at(i + 1) == '-' {
                return i;
            }
            i += 1;
        }
        i
    }

    /// This span without its leading and trailing white space. A span of
    /// white space alone gives the empty span at its start.
    pub fn trim(&self) -> (inner: Span<'a>)
        ensures
            inner == self.trimmed(),
            inner@ == trimmed(self@),
            inner.buffer() == self.buffer(),
            inner.wf(),
    {
        let n = self.len();
        let first = self.skip_whitespace(0);
        let from = if first < n {
            first
        } else {
            0
        };
        let mut to = n;
        while to > from && is_whitespace_char(self.char_at(to - 1))
            invariant
                from <= to <= n,
                n == self@.len(),
                trim_end_at(self@, from as int, n as int) == trim_end_at(
                    self@,
                    from as int,
                    to as int,
                ),
            decreases to,
        {
            to -= 1;
        }
        self.slice(from, to)
    }

    /// Where the span starts in the UTF-8 encoding of its buffer, in bytes.
    pub fn byte_start(&self) -> (n: usize)
        ensures
            n == self.byte_offset(),
    {
        proof {
            use_type_invariant(self);
        }
        self.source.as_str().substring_char(0, self.start).as_bytes().len()
    }

    /// How many bytes the span's text takes in UTF-8.
    pub fn byte_len(&self) -> (n: usize)
        ensures
            n == self.byte_count(),
    {
        self.as_str().as_bytes().len()
    }

    /// The diagnostic that says `message` about this span.
    pub fn diagnostic(&self, message: &str) -> (diagnostic: Diagnostic<'a>)
        ensures
            diagnostic@ == (DiagnosticModel { span: *self, message: message@ }),
    {
        Diagnostic::new(*self, message)
    }

    /// The number of the line on which the span starts, counted from 0.
    pub fn line(&self) -> (n: usize)
        ensures
            n == self.line_number(),
    {
        proof {
            use_type_invariant(self);
        }
        let mut n: usize = 0;
        let mut i: usize = 0;
        while i < self.start
            invariant
                i <= self.start <= self.source@.len(),
                n == count_newlines(self.source@, i as int),
                n <= i,
            decreases self.start - i,
        {
            if self.source.chars[i] == '\n' {
                n += 1;
            }
            i += 1;
        }
        n
    }

    /// The number of characters between the start of that line and the span,
    /// counted from 0.
    pub fn column(&self) -> (n: usize)
        ensures
            n == self.column_number(),
    {
        proof {
            use_type_invariant(self);
        }
        let mut at: usize = self.start;
        while at > 0 && self.source.chars[at - 1] != '\n'
            invariant
                at <= self.start <= self.source@.len(),
                line_start(self.source@, self.start as int) == line_start(self.source@, at as int),
            decreases at,
        {
            at -= 1;
        }
        self.start - at
    }
}

/// A copy of `text` without its leading and trailing white space.
pub fn trimmed_copy(text: &str) -> (copy: String)
    ensures
        copy@ == trimmed(text@),
{
    let source = SourceText::new(text);
    Span::whole(&source).trim().as_str().to_owned()
}

} // verus!
