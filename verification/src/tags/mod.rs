//! The tags of a documentation comment: what each one holds, and how the text
//! of one tag becomes a typed value.

pub mod custom;
pub mod deprecated;
pub mod field;
pub mod flag;
pub mod grammar;
pub mod marker;
pub mod param;
pub mod parser;
pub mod return_tag;
pub mod since;
pub mod type_tag;
pub mod within;

use crate::diagnostic::{outcome, Diagnostic, DiagnosticModel};
use crate::span::Span;
use crate::tags::custom::CustomTag;
use crate::tags::deprecated::DeprecatedTag;
use crate::tags::field::FieldTag;
use crate::tags::flag::{IgnoreTag, PrivateTag};
use crate::tags::marker::MarkerTag;
use crate::tags::param::ParamTag;
use crate::tags::return_tag::ReturnTag;
use crate::tags::since::SinceTag;
use crate::tags::type_tag::TypeTag;
use crate::tags::within::WithinTag;
use vstd::prelude::*;

verus! {

/// The kinds of tag, one for each name that is recognised and one for all
/// other names.
#[derive(Clone, Copy, Debug, PartialEq, Eq, Structural)]
pub enum TagKind {
    Param,
    Return,
    Field,
    Type,
    Marker,
    Deprecated,
    Since,
    Private,
    Ignore,
    Within,
    Custom,
}

/// One parsed tag.
#[derive(Clone, Copy, Debug, PartialEq)]
pub enum Tag<'a> {
    Param(ParamTag<'a>),
    Return(ReturnTag<'a>),
    Field(FieldTag<'a>),
    Type(TypeTag<'a>),
    Marker(MarkerTag<'a>),
    Deprecated(DeprecatedTag<'a>),
    Since(SinceTag<'a>),
    Private(PrivateTag<'a>),
    Ignore(IgnoreTag<'a>),
    Within(WithinTag<'a>),
    Custom(CustomTag<'a>),
}

pub const PARAM: &'static str = "param";

pub const RETURN: &'static str = "return";

pub const FIELD: &'static str = "field";

pub const TYPE: &'static str = "type";

pub const MARKER: &'static str = "marker";

pub const DEPRECATED: &'static str = "deprecated";

pub const SINCE: &'static str = "since";

pub const PRIVATE: &'static str = "private";

pub const IGNORE: &'static str = "ignore";

pub const WITHIN: &'static str = "within";

/// The kind that a tag name stands for. A name matches only as a whole and in
/// lower case; every other name is a custom tag.
pub open spec fn kind_of_name(name: Seq<char>) -> TagKind {
    if name == PARAM@ {
        TagKind::Param
    } else if name == RETURN@ {
        TagKind::Return
    } else if name == FIELD@ {
        TagKind::Field
    } else if name == TYPE@ {
        TagKind::Type
    } else if name == MARKER@ {
        TagKind::Marker
    } else if name == DEPRECATED@ {
        TagKind::Deprecated
    } else if name == SINCE@ {
        TagKind::Since
    } else if name == PRIVATE@ {
        TagKind::Private
    } else if name == IGNORE@ {
        TagKind::Ignore
    } else if name == WITHIN@ {
        TagKind::Within
    } else {
        TagKind::Custom
    }
}

/// Lifts the result of one tag's parser into a result for any tag.
pub open spec fn lifted<'a, T>(
    result: Result<T, DiagnosticModel<'a>>,
    wrap: spec_fn(T) -> Tag<'a>,
) -> Result<Tag<'a>, DiagnosticModel<'a>> {
    match result {
        Ok(tag) => Ok(wrap(tag)),
        Err(diagnostic) => Err(diagnostic),
    }
}

impl TagKind {
    /// Decides the kind of the tag that is named by the text of `name`.
    pub fn of(name: &Span) -> (kind: TagKind)
        ensures
            kind == kind_of_name(name@),
    {
        if name.is_text(PARAM) {
            TagKind::Param
        } else if name.is_text(RETURN) {
            TagKind::Return
        } else if name.is_text(FIELD) {
            TagKind::Field
        } else if name.is_text(TYPE) {
            TagKind::Type
        } else if name.is_text(MARKER) {
            TagKind::Marker
        } else if name.is_text(DEPRECATED) {
            TagKind::Deprecated
        } else if name.is_text(SINCE) {
            TagKind::Since
        } else if name.is_text(PRIVATE) {
            TagKind::Private
        } else if name.is_text(IGNORE) {
            TagKind::Ignore
        } else if name.is_text(WITHIN) {
            TagKind::Within
        } else {
            TagKind::Custom
        }
    }
}

impl<'a> Tag<'a> {
    /// The kind of this tag.
    pub open spec fn kind(&self) -> TagKind {
        match self {
            Tag::Param(_) => TagKind::Param,
            Tag::Return(_) => TagKind::Return,
            Tag::Field(_) => TagKind::Field,
            Tag::Type(_) => TagKind::Type,
            Tag::Marker(_) => TagKind::Marker,
            Tag::Deprecated(_) => TagKind::Deprecated,
            Tag::Since(_) => TagKind::Since,
            Tag::Private(_) => TagKind::Private,
            Tag::Ignore(_) => TagKind::Ignore,
            Tag::Within(_) => TagKind::Within,
            Tag::Custom(_) => TagKind::Custom,
        }
    }

    /// The place of this tag in the text: where a diagnostic about it points.
    pub open spec fn span(&self) -> Span<'a> {
        match self {
            Tag::Param(tag) => tag.source,
            Tag::Return(tag) => tag.source,
            Tag::Field(tag) => tag.source,
            Tag::Type(tag) => tag.source,
            Tag::Marker(tag) => tag.source,
            Tag::Deprecated(tag) => tag.source,
            Tag::Since(tag) => tag.source,
            Tag::Private(tag) => tag.source,
            Tag::Ignore(tag) => tag.source,
            Tag::Within(tag) => tag.source,
            Tag::Custom(tag) => tag.source,
        }
    }

    /// What the tag named `name` with the argument text `remainder` means.
    ///
    /// The name picks the kind; the remainder is trimmed and read by that
    /// kind's grammar. A tag that has its own grammar is placed at its trimmed
    /// argument text; a tag that is only a name (`@private`, `@ignore`, a
    /// custom tag) is placed at its name. A name that is not recognised is
    /// never an error: it gives a custom tag, which keeps the name and the
    /// remainder as they stand.
    pub open spec fn parsed(name: Span<'a>, remainder: Span<'a>) -> Result<
        Tag<'a>,
        DiagnosticModel<'a>,
    > {
        let text = remainder.trimmed();
        match kind_of_name(name@) {
            TagKind::Param => lifted(ParamTag::parsed(text), |tag| Tag::Param(tag)),
            TagKind::Return => lifted(ReturnTag::parsed(text), |tag| Tag::Return(tag)),
            TagKind::Field => lifted(FieldTag::parsed(text), |tag| Tag::Field(tag)),
            TagKind::Type => lifted(TypeTag::parsed(text), |tag| Tag::Type(tag)),
            TagKind::Marker => lifted(MarkerTag::parsed(text), |tag| Tag::Marker(tag)),
            TagKind::Within => lifted(WithinTag::parsed(text), |tag| Tag::Within(tag)),
            TagKind::Deprecated => Ok(Tag::Deprecated(DeprecatedTag::parsed(text))),
            TagKind::Since => Ok(Tag::Since(SinceTag::parsed(text))),
            TagKind::Private => Ok(Tag::Private(PrivateTag { source: name })),
            TagKind::Ignore => Ok(Tag::Ignore(IgnoreTag { source: name })),
            TagKind::Custom => Ok(Tag::Custom(CustomTag { name, text: remainder, source: name })),
        }
    }

    /// Parses one tag from the span of its name (without the `@`) and the span
    /// of what follows the name.
    pub fn parse(name: Span<'a>, remainder: Span<'a>) -> (result: Result<Tag<'a>, Diagnostic<'a>>)
        ensures
            outcome(result) == Self::parsed(name, remainder),
    {
        let text = remainder.trim();
        match TagKind::of(&name) {
            TagKind::Param => match ParamTag::parse(text) {
                Ok(tag) => Ok(Tag::Param(tag)),
                Err(diagnostic) => Err(diagnostic),
            },
            TagKind::Return => match ReturnTag::parse(text) {
                Ok(tag) => Ok(Tag::Return(tag)),
                Err(diagnostic) => Err(diagnostic),
            },
            TagKind::Field => match FieldTag::parse(text) {
                Ok(tag) => Ok(Tag::Field(tag)),
                Err(diagnostic) => Err(diagnostic),
            },
            TagKind::Type => match TypeTag::parse(text) {
                Ok(tag) => Ok(Tag::Type(tag)),
                Err(diagnostic) => Err(diagnostic),
            },
            TagKind::Marker => match MarkerTag::parse(text) {
                Ok(tag) => Ok(Tag::Marker(tag)),
                Err(diagnostic) => Err(diagnostic),
            },
            TagKind::Within => match WithinTag::try_from(text) {
                Ok(tag) => Ok(Tag::Within(tag)),
                Err(diagnostic) => Err(diagnostic),
            },
            TagKind::Deprecated => Ok(Tag::Deprecated(DeprecatedTag::parse(text))),
            TagKind::Since => Ok(Tag::Since(SinceTag::parse(text))),
            TagKind::Private => Ok(Tag::Private(PrivateTag { source: name })),
            TagKind::Ignore => Ok(Tag::Ignore(IgnoreTag { source: name })),
            TagKind::Custom => Ok(Tag::Custom(CustomTag { name, text: remainder, source: name })),
        }
    }

    /// The kind of this tag.
    pub fn tag_kind(&self) -> (kind: TagKind)
        ensures
            kind == self.kind(),
    {
        match self {
            Tag::Param(_) => TagKind::Param,
            Tag::Return(_) => TagKind::Return,
            Tag::Field(_) => TagKind::Field,
            Tag::Type(_) => TagKind::Type,
            Tag::Marker(_) => TagKind::Marker,
            Tag::Deprecated(_) => TagKind::Deprecated,
            Tag::Since(_) => TagKind::Since,
            Tag::Private(_) => TagKind::Private,
            Tag::Ignore(_) => TagKind::Ignore,
            Tag::Within(_) => TagKind::Within,
            Tag::Custom(_) => TagKind::Custom,
        }
    }

    /// The place of this tag in the text.
    pub fn source(&self) -> (span: Span<'a>)
        ensures
            span == self.span(),
    {
        match self {
            Tag::Param(tag) => tag.source,
            Tag::Return(tag) => tag.source,
            Tag::Field(tag) => tag.source,
            Tag::Type(tag) => tag.source,
            Tag::Marker(tag) => tag.source,
            Tag::Deprecated(tag) => tag.source,
            Tag::Since(tag) => tag.source,
            Tag::Private(tag) => tag.source,
            Tag::Ignore(tag) => tag.source,
            Tag::Within(tag) => tag.source,
            Tag::Custom(tag) => tag.source,
        }
    }

    /// The diagnostic that says `message` about this tag.
    pub fn diagnostic(&self, message: &str) -> (diagnostic: Diagnostic<'a>)
        ensures
            diagnostic@ == (DiagnosticModel { span: self.span(), message: message@ }),
    {
        self.source().diagnostic(message)
    }
}

} // verus!
