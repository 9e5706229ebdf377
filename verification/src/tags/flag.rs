use crate::span::Span;
use vstd::prelude::*;

verus! {

/// `@private`: the item is not part of the public documentation. Its
/// presence is all that it says.
#[derive(Clone, Copy, Debug, PartialEq)]
pub struct PrivateTag<'a> {
    pub source: Span<'a>,
}

/// `@ignore`: the item is left out of the documentation. Its presence is all
/// that it says.
#[derive(Clone, Copy, Debug, PartialEq)]
pub struct IgnoreTag<'a> {
    pub source: Span<'a>,
}

} // verus!
