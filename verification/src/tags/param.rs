use crate::diagnostic::{outcome, Diagnostic, DiagnosticModel};
use crate::span::Span;
use crate::tags::grammar::{
    after_first_word_of, description_of, first_word_of, head_of, split_description,
    split_first_word,
};
use vstd::prelude::*;

verus! {

/// `@param <name> <type> [-- description]`: one parameter of a function.
#[derive(Clone, Copy, Debug, PartialEq)]
pub struct ParamTag<'a> {
    pub name: Span<'a>,
    pub lua_type: Span<'a>,
    pub desc: Span<'a>,
    pub source: Span<'a>,
}

pub const PARAM_NAME_EXPECTED: &'static str = "expected a parameter name";

pub const PARAM_TYPE_EXPECTED: &'static str = "expected a parameter type";

impl<'a> ParamTag<'a> {
    /// What `text` means as the argument of `@param`: a name and a type are
    /// owed, a description is not.
    pub open spec fn parsed(text: Span<'a>) -> Result<ParamTag<'a>, DiagnosticModel<'a>> {
        let head = head_of(text);
        if first_word_of(head)@.len() == 0 {
            Err(DiagnosticModel { span: text, message: PARAM_NAME_EXPECTED@ })
        } else if after_first_word_of(head)@.len() == 0 {
            Err(DiagnosticModel { span: text, message: PARAM_TYPE_EXPECTED@ })
        } else {
            Ok(
                ParamTag {
                    name: first_word_of(head),
                    lua_type: after_first_word_of(head),
                    desc: description_of(text),
                    source: text,
                },
            )
        }
    }

    /// Parses the argument text of a `@param` tag.
    pub fn parse(text: Span<'a>) -> (result: Result<ParamTag<'a>, Diagnostic<'a>>)
        ensures
            outcome(result) == Self::parsed(text),
    {
        let (head, desc) = split_description(text);
        let (name, lua_type) = split_first_word(head);
        if name.is_empty() {
            Err(text.diagnostic(PARAM_NAME_EXPECTED))
        } else if lua_type.is_empty() {
            Err(text.diagnostic(PARAM_TYPE_EXPECTED))
        } else {
            Ok(ParamTag { name, lua_type, desc, source: text })
        }
    }
}

} // verus!
