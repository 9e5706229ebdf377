use crate::diagnostic::{outcome, Diagnostic, DiagnosticModel};
use crate::span::Span;
use vstd::prelude::*;

verus! {

/// `@marker <name>`: a named mark on a function.
#[derive(Clone, Copy, Debug, PartialEq)]
pub struct MarkerTag<'a> {
    pub name: Span<'a>,
    pub source: Span<'a>,
}

pub const MARKER_NAME_EXPECTED: &'static str = "expected a marker name";

impl<'a> MarkerTag<'a> {
    /// What `text` means as the argument of `@marker`: all of it is the name,
    /// and it may not be empty.
    pub open spec fn parsed(text: Span<'a>) -> Result<MarkerTag<'a>, DiagnosticModel<'a>> {
        if text@.len() == 0 {
            Err(DiagnosticModel { span: text, message: MARKER_NAME_EXPECTED@ })
        } else {
            Ok(MarkerTag { name: text, source: text })
        }
    }

    /// Parses the argument text of a `@marker` tag.
    pub fn parse(text: Span<'a>) -> (result: Result<MarkerTag<'a>, Diagnostic<'a>>)
        ensures
            outcome(result) == Self::parsed(text),
    {
        if text.is_empty() {
            Err(text.diagnostic(MARKER_NAME_EXPECTED))
        } else {
            Ok(MarkerTag { name: text, source: text })
        }
    }
}

} // verus!
