use crate::span::Span;
use vstd::prelude::*;

verus! {

/// `@deprecated [version or reason]`: the item should no longer be used. The
/// text is free, and may be missing.
#[derive(Clone, Copy, Debug, PartialEq)]
pub struct DeprecatedTag<'a> {
    pub text: Span<'a>,
    pub source: Span<'a>,
}

impl<'a> DeprecatedTag<'a> {
    /// What `text` means as the argument of `@deprecated`: any text will do.
    pub open spec fn parsed(text: Span<'a>) -> DeprecatedTag<'a> {
        DeprecatedTag { text, source: text }
    }

    /// Takes the argument text of a `@deprecated` tag.
    pub fn parse(text: Span<'a>) -> (tag: DeprecatedTag<'a>)
        ensures
            tag == Self::parsed(text),
    {
        DeprecatedTag { text, source: text }
    }
}

} // verus!
