use crate::diagnostic::{outcome, Diagnostic, DiagnosticModel};
use crate::span::Span;
use crate::tags::grammar::{
    after_first_word_of, description_of, first_word_of, head_of, split_description,
    split_first_word,
};
use vstd::prelude::*;

verus! {

/// `@field <name> <type> -- <description>`: one field of a table type. The
/// description may run over the following lines.
#[derive(Clone, Copy, Debug, PartialEq)]
pub struct FieldTag<'a> {
    pub name: Span<'a>,
    pub lua_type: Span<'a>,
    pub desc: Span<'a>,
    pub source: Span<'a>,
}

pub const FIELD_NAME_EXPECTED: &'static str = "expected a field name";

pub const FIELD_TYPE_EXPECTED: &'static str = "expected a field type";

impl<'a> FieldTag<'a> {
    /// What `text` means as the argument of `@field`: a name and a type are
    /// owed; the description is empty where none is written.
    pub open spec fn parsed(text: Span<'a>) -> Result<FieldTag<'a>, DiagnosticModel<'a>> {
        let head = head_of(text);
        if first_word_of(head)@.len() == 0 {
            Err(DiagnosticModel { span: text, message: FIELD_NAME_EXPECTED@ })
        } else if after_first_word_of(head)@.len() == 0 {
            Err(DiagnosticModel { span: text, message: FIELD_TYPE_EXPECTED@ })
        } else {
            Ok(
                FieldTag {
                    name: first_word_of(head),
                    lua_type: after_first_word_of(head),
                    desc: description_of(text),
                    source: text,
                },
            )
        }
    }

    /// Parses the argument text of a `@field` tag.
    pub fn parse(text: Span<'a>) -> (result: Result<FieldTag<'a>, Diagnostic<'a>>)
        ensures
            outcome(result) == Self::parsed(text),
    {
        let (head, desc) = split_description(text);
        let (name, lua_type) = split_first_word(head);
        if name.is_empty() {
            Err(text.diagnostic(FIELD_NAME_EXPECTED))
        } else if lua_type.is_empty() {
            Err(text.diagnostic(FIELD_TYPE_EXPECTED))
        } else {
            Ok(FieldTag { name, lua_type, desc, source: text })
        }
    }
}

} // verus!
