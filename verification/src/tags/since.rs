use crate::span::Span;
use vstd::prelude::*;

verus! {

/// `@since [version]`: the version that introduced the item. The text is
/// free, and may be missing.
#[derive(Clone, Copy, Debug, PartialEq)]
pub struct SinceTag<'a> {
    pub version: Span<'a>,
    pub source: Span<'a>,
}

impl<'a> SinceTag<'a> {
    /// What `text` means as the argument of `@since`: any text will do.
    pub open spec fn parsed(text: Span<'a>) -> SinceTag<'a> {
        SinceTag { version: text, source: text }
    }

    /// Takes the argument text of a `@since` tag.
    pub fn parse(text: Span<'a>) -> (tag: SinceTag<'a>)
        ensures
            tag == Self::parsed(text),
    {
        SinceTag { version: text, source: text }
    }
}

} // verus!
