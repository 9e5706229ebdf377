use crate::diagnostic::{outcome, Diagnostic, DiagnosticModel};
use crate::span::Span;
use vstd::prelude::*;

verus! {

/// `@type <type>`: the declared type of a type entry.
#[derive(Clone, Copy, Debug, PartialEq)]
pub struct TypeTag<'a> {
    pub lua_type: Span<'a>,
    pub source: Span<'a>,
}

pub const TYPE_EXPECTED: &'static str = "expected a type";

impl<'a> TypeTag<'a> {
    /// What `text` means as the argument of `@type`: all of it is the type,
    /// and it may not be empty.
    pub open spec fn parsed(text: Span<'a>) -> Result<TypeTag<'a>, DiagnosticModel<'a>> {
        if text@.len() == 0 {
            Err(DiagnosticModel { span: text, message: TYPE_EXPECTED@ })
        } else {
            Ok(TypeTag { lua_type: text, source: text })
        }
    }

    /// Parses the argument text of a `@type` tag.
    pub fn parse(text: Span<'a>) -> (result: Result<TypeTag<'a>, Diagnostic<'a>>)
        ensures
            outcome(result) == Self::parsed(text),
    {
        if text.is_empty() {
            Err(text.diagnostic(TYPE_EXPECTED))
        } else {
            Ok(TypeTag { lua_type: text, source: text })
        }
    }
}

} // verus!
