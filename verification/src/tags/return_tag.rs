use crate::diagnostic::{outcome, Diagnostic, DiagnosticModel};
use crate::span::Span;
use crate::tags::grammar::{description_of, head_of, split_description};
use vstd::prelude::*;

verus! {

/// `@return <type> [-- description]`: one value that a function returns.
#[derive(Clone, Copy, Debug, PartialEq)]
pub struct ReturnTag<'a> {
    pub lua_type: Span<'a>,
    pub desc: Span<'a>,
    pub source: Span<'a>,
}

pub const RETURN_TYPE_EXPECTED: &'static str = "expected a return type";

impl<'a> ReturnTag<'a> {
    /// What `text` means as the argument of `@return`: a type is owed, a
    /// description is not.
    pub open spec fn parsed(text: Span<'a>) -> Result<ReturnTag<'a>, DiagnosticModel<'a>> {
        if head_of(text)@.len() == 0 {
            Err(DiagnosticModel { span: text, message: RETURN_TYPE_EXPECTED@ })
        } else {
            Ok(ReturnTag { lua_type: head_of(text), desc: description_of(text), source: text })
        }
    }

    /// Parses the argument text of a `@return` tag.
    pub fn parse(text: Span<'a>) -> (result: Result<ReturnTag<'a>, Diagnostic<'a>>)
        ensures
            outcome(result) == Self::parsed(text),
    {
        let (lua_type, desc) = split_description(text);
        if lua_type.is_empty() {
            Err(text.diagnostic(RETURN_TYPE_EXPECTED))
        } else {
            Ok(ReturnTag { lua_type, desc, source: text })
        }
    }
}

} // verus!
