use crate::diagnostic::{outcome, Diagnostic, DiagnosticModel};
use crate::span::Span;
use vstd::prelude::*;

verus! {

/// `@within <scope>`: the scope that the documented item belongs to.
#[derive(Clone, Copy, Debug, PartialEq)]
pub struct WithinTag<'a> {
    pub name: Span<'a>,
    pub source: Span<'a>,
}

pub const SCOPE_NAME_EXPECTED: &'static str = "expected a scope name";

impl<'a> WithinTag<'a> {
    /// What `span` means as the argument of `@within`: all of it is the name
    /// of the scope, and it may not be empty.
    pub open spec fn parsed(span: Span<'a>) -> Result<WithinTag<'a>, DiagnosticModel<'a>> {
        if span@.len() == 0 {
            Err(DiagnosticModel { span, message: SCOPE_NAME_EXPECTED@ })
        } else {
            Ok(WithinTag { name: span, source: span })
        }
    }

}

impl<'a> TryFrom<Span<'a>> for WithinTag<'a> {
    type Error = Diagnostic<'a>;

    /// Parses the argument text of a `@within` tag.
    fn try_from(span: Span<'a>) -> (result: Result<WithinTag<'a>, Diagnostic<'a>>)
        ensures
            outcome(result) == Self::parsed(span),
    {
        if span.is_empty() {
            return Err(span.diagnostic(SCOPE_NAME_EXPECTED));
        }
        Ok(WithinTag { name: span, source: span })
    }
}

/// A diagnostic holds a `String`, of which specifications can make no value:
/// what the conversion returns is stated on `try_from` itself, over
/// [`WithinTag::parsed`].
impl<'a> vstd::std_specs::convert::TryFromSpecImpl<Span<'a>> for WithinTag<'a> {
    open spec fn obeys_try_from_spec() -> bool {
        false
    }

    open spec fn try_from_spec(span: Span<'a>) -> Result<WithinTag<'a>, Diagnostic<'a>> {
        arbitrary()
    }
}

} // verus!
