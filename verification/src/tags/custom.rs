use crate::span::Span;
use vstd::prelude::*;

verus! {

/// A tag whose name this library does not know: its name and what follows
/// the name, both exactly as written.
#[derive(Clone, Copy, Debug, PartialEq)]
pub struct CustomTag<'a> {
    pub name: Span<'a>,
    pub text: Span<'a>,
    pub source: Span<'a>,
}

} // verus!
