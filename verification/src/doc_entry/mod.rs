//! The records that tags are folded into, one kind for each kind of
//! documented item, and what their builders share.
//!
//! A builder walks the tags once, in their order. A tag that its kind of entry
//! has a use for is folded into the entry; any other tag is unused. One unused
//! tag is enough for the build to fail, and then every unused tag is reported,
//! each at its own place.

pub mod class;
pub mod function;
pub mod type_definition;

use crate::diagnostic::{
    lemma_models_push, models, Diagnostic, DiagnosticModel, Diagnostics,
};
use crate::doc_comment::DocComment;
use crate::doc_entry::class::{ClassDocEntry, ClassDocEntryModel, UNUSED_BY_CLASS};
use crate::doc_entry::function::{
    unused_by_function, FunctionDocEntry, FunctionDocEntryModel, FunctionType, UNUSED_BY_FUNCTION,
};
use crate::doc_entry::type_definition::{
    unused_by_type, TypeDocEntry, TypeDocEntryModel, UNUSED_BY_TYPE,
};
use crate::span::Span;
use crate::tags::parser::{
    description_of_comment, diagnostics_of, parse_tags, tag_texts, tags_of, ParsedComment,
};
use crate::tags::within::WithinTag;
use crate::tags::Tag;
use vstd::prelude::*;

verus! {

/// What a builder is handed for one entry: the name and the description of the
/// item, the scope that it belongs to, if one is known, its tags in the order
/// of the text, and the comment that all of this was taken from.
#[derive(Debug, PartialEq)]
pub struct DocEntryParseArguments<'a> {
    pub name: String,
    pub desc: String,
    pub within: Option<String>,
    pub tags: Vec<Tag<'a>>,
    pub source: &'a DocComment,
}

/// What a [`DocEntryParseArguments`] holds.
pub struct DocEntryArgumentsModel<'a> {
    pub name: Seq<char>,
    pub desc: Seq<char>,
    pub within: Option<Seq<char>>,
    pub tags: Seq<Tag<'a>>,
    pub source: &'a DocComment,
}

impl<'a> View for DocEntryParseArguments<'a> {
    type V = DocEntryArgumentsModel<'a>;

    open spec fn view(&self) -> DocEntryArgumentsModel<'a> {
        DocEntryArgumentsModel {
            name: self.name@,
            desc: self.desc@,
            within: text_of(self.within),
            tags: self.tags@,
            source: self.source,
        }
    }
}

/// Whether a scope is known: one is named, and its name is not empty.
pub open spec fn has_scope(within: Option<Seq<char>>) -> bool {
    within matches Some(scope) && scope.len() > 0
}

/// The characters of a string that may be missing.
pub open spec fn text_of(text: Option<String>) -> Option<Seq<char>> {
    match text {
        Some(text) => Some(text@),
        None => None,
    }
}

/// One diagnostic for each tag of `unused`, in the same order, each placed at
/// its tag and each saying `message`.
pub open spec fn unused_diagnostics<'a>(unused: Seq<Tag<'a>>, message: Seq<char>) -> Seq<
    DiagnosticModel<'a>,
> {
    Seq::new(unused.len(), |i: int| DiagnosticModel { span: unused[i].span(), message })
}

/// Reports the tags that a builder had no use for: nothing when there are
/// none, otherwise one batch with a diagnostic for each of them.
pub fn report_unused<'a>(unused: &Vec<Tag<'a>>, message: &str) -> (batch: Option<Diagnostics<'a>>)
    ensures
        batch is Some <==> unused@.len() > 0,
        batch matches Some(b) ==> b@ == unused_diagnostics(unused@, message@),
{
    let mut diagnostics: Vec<Diagnostic<'a>> = Vec::new();
    let mut i: usize = 0;
    while i < unused.len()
        invariant
            i <= unused@.len(),
            models(diagnostics@) == unused_diagnostics(unused@.take(i as int), message@),
        decreases unused@.len() - i,
    {
        let diagnostic = unused[i].diagnostic(message);
        proof {
            lemma_models_push(diagnostics@, diagnostic);
            assert(unused_diagnostics(unused@.take(i as int + 1), message@)
                =~= unused_diagnostics(unused@.take(i as int), message@).push(diagnostic@));
        }
        diagnostics.push(diagnostic);
        i += 1;
    }
    assert(unused@.take(i as int) =~= unused@);
    Diagnostics::from_vec(diagnostics)
}

/// The last `@within` tag among `tags`, if there is one.
pub open spec fn last_within<'a>(tags: Seq<Tag<'a>>) -> Option<WithinTag<'a>>
    decreases tags.len(),
{
    if tags.len() == 0 {
        None
    } else {
        match tags.last() {
            Tag::Within(within) => Some(within),
            _ => last_within(tags.drop_last()),
        }
    }
}

/// `tags` without the `@within` tags, in the same order.
pub open spec fn without_within<'a>(tags: Seq<Tag<'a>>) -> Seq<Tag<'a>>
    decreases tags.len(),
{
    if tags.len() == 0 {
        Seq::empty()
    } else if tags.last() is Within {
        without_within(tags.drop_last())
    } else {
        without_within(tags.drop_last()).push(tags.last())
    }
}

/// The scope that an item belongs to: the one that its last `@within` tag
/// names; without such a tag, the one that the caller knows from the context,
/// if any.
pub open spec fn resolved_within<'a>(tags: Seq<Tag<'a>>, default_within: Option<Seq<char>>) -> Option<
    Seq<char>,
> {
    match last_within(tags) {
        Some(within) => Some(within.name@),
        None => default_within,
    }
}

impl<'a> DocEntryParseArguments<'a> {
    /// Bundles what a builder needs, and settles the scope of the item.
    ///
    /// The `@within` tags are taken out of `tags`, since they say where the
    /// item belongs and are no part of any entry. The last of them names the
    /// scope; without one, `default_within` does.
    pub fn new(
        name: String,
        desc: String,
        default_within: Option<String>,
        tags: Vec<Tag<'a>>,
        source: &'a DocComment,
    ) -> (args: DocEntryParseArguments<'a>)
        ensures
            args@ == (DocEntryArgumentsModel {
                name: name@,
                desc: desc@,
                within: resolved_within(tags@, text_of(default_within)),
                tags: without_within(tags@),
                source,
            }),
    {
        let mut kept: Vec<Tag<'a>> = Vec::new();
        let mut named: Option<WithinTag<'a>> = None;
        let mut i: usize = 0;
        while i < tags.len()
            invariant
                i <= tags@.len(),
                kept@ == without_within(tags@.take(i as int)),
                named == last_within(tags@.take(i as int)),
            decreases tags@.len() - i,
        {
            assert(tags@.take(i as int + 1).drop_last() =~= tags@.take(i as int));
            let tag = tags[i];
            match tag {
                Tag::Within(within) => named = Some(within),
                _ => kept.push(tag),
            }
            i += 1;
        }
        assert(tags@.take(i as int) =~= tags@);
        let within = match named {
            Some(within) => Some(within.name.as_str().to_owned()),
            None => default_within,
        };
        DocEntryParseArguments { name, desc, within, tags: kept, source }
    }
}

/// The kinds of entry, each with what its builder needs to be told.
#[derive(Clone, Copy, Debug, PartialEq, Eq, Structural)]
pub enum DocEntryKind {
    Function(FunctionType),
    Type,
    Class,
}

/// The record of one documented item.
#[derive(Debug, PartialEq)]
pub enum DocEntry<'a> {
    Function(FunctionDocEntry<'a>),
    Type(TypeDocEntry<'a>),
    Class(ClassDocEntry),
}

/// What a [`DocEntry`] holds.
pub enum DocEntryModel<'a> {
    Function(FunctionDocEntryModel<'a>),
    Type(TypeDocEntryModel<'a>),
    Class(ClassDocEntryModel),
}

impl<'a> View for DocEntry<'a> {
    type V = DocEntryModel<'a>;

    open spec fn view(&self) -> DocEntryModel<'a> {
        match self {
            DocEntry::Function(entry) => DocEntryModel::Function(entry@),
            DocEntry::Type(entry) => DocEntryModel::Type(entry@),
            DocEntry::Class(entry) => DocEntryModel::Class(entry@),
        }
    }
}

/// Why no entry could be made of a comment.
#[derive(Debug, PartialEq)]
pub enum BuildError<'a> {
    /// The entry needs the scope that its item belongs to, and neither a
    /// `@within` tag nor the caller names one: none is given, or the one
    /// given is the empty name.
    MissingScope,
    /// Tags did not parse, or were of no use to the entry.
    Diagnostics(Diagnostics<'a>),
}

/// The arguments that the comment of `source` gives a builder: its
/// description and its tags, with the scope settled.
pub open spec fn arguments_of_comment<'a>(
    name: Seq<char>,
    default_within: Option<Seq<char>>,
    source: &'a DocComment,
) -> DocEntryArgumentsModel<'a> {
    let comment = Span::covering(&source.comment);
    let tags = tags_of(comment, tag_texts(comment@, 0));
    DocEntryArgumentsModel {
        name,
        desc: description_of_comment(comment)@,
        within: resolved_within(tags, default_within),
        tags: without_within(tags),
        source,
    }
}

/// What is reported of the tags in the comment of `source` that do not parse.
pub open spec fn diagnostics_of_comment<'a>(source: &'a DocComment) -> Seq<DiagnosticModel<'a>> {
    let comment = Span::covering(&source.comment);
    diagnostics_of(comment, tag_texts(comment@, 0))
}

impl<'a> DocEntry<'a> {
    /// Whether an entry of this kind must know the scope of its item.
    pub open spec fn needs_scope(kind: DocEntryKind) -> bool {
        !(kind is Class)
    }

    /// The tags among `tags` that an entry of this kind has no use for.
    pub open spec fn unused(kind: DocEntryKind, tags: Seq<Tag<'a>>) -> Seq<Tag<'a>> {
        match kind {
            DocEntryKind::Function(_) => unused_by_function(tags),
            DocEntryKind::Type => unused_by_type(tags),
            DocEntryKind::Class => tags,
        }
    }

    /// What is said of a tag that an entry of this kind has no use for.
    pub open spec fn unused_message(kind: DocEntryKind) -> Seq<char> {
        match kind {
            DocEntryKind::Function(_) => UNUSED_BY_FUNCTION@,
            DocEntryKind::Type => UNUSED_BY_TYPE@,
            DocEntryKind::Class => UNUSED_BY_CLASS@,
        }
    }

    /// The entry of this kind that `args` describe.
    pub open spec fn built(kind: DocEntryKind, args: DocEntryArgumentsModel<'a>) -> DocEntryModel<
        'a,
    > {
        match kind {
            DocEntryKind::Function(function_type) => DocEntryModel::Function(
                FunctionDocEntry::built(args, function_type),
            ),
            DocEntryKind::Type => DocEntryModel::Type(TypeDocEntry::built(args)),
            DocEntryKind::Class => DocEntryModel::Class(ClassDocEntry::built(args)),
        }
    }

    /// Everything that is reported of a comment for an entry of this kind:
    /// first the tags that do not parse, then the tags of no use.
    pub open spec fn reports(
        kind: DocEntryKind,
        name: Seq<char>,
        default_within: Option<Seq<char>>,
        source: &'a DocComment,
    ) -> Seq<DiagnosticModel<'a>> {
        diagnostics_of_comment(source) + unused_diagnostics(
            Self::unused(kind, arguments_of_comment(name, default_within, source).tags),
            Self::unused_message(kind),
        )
    }

    /// Builds the entry of the given kind from `args`, with the builder of
    /// that kind.
    pub fn parse(kind: DocEntryKind, args: DocEntryParseArguments<'a>) -> (result: Result<
        DocEntry<'a>,
        Diagnostics<'a>,
    >)
        requires
            Self::needs_scope(kind) ==> (args.within matches Some(scope) && scope@.len() > 0),
        ensures
            result is Ok <==> Self::unused(kind, args.tags@).len() == 0,
            result matches Ok(entry) ==> entry@ == Self::built(kind, args@),
            result matches Err(batch) ==> batch@ == unused_diagnostics(
                Self::unused(kind, args.tags@),
                Self::unused_message(kind),
            ),
    {
        match kind {
            DocEntryKind::Function(function_type) => match FunctionDocEntry::parse(
                args,
                function_type,
            ) {
                Ok(entry) => Ok(DocEntry::Function(entry)),
                Err(batch) => Err(batch),
            },
            DocEntryKind::Type => match TypeDocEntry::parse(args) {
                Ok(entry) => Ok(DocEntry::Type(entry)),
                Err(batch) => Err(batch),
            },
            DocEntryKind::Class => match ClassDocEntry::parse(args) {
                Ok(entry) => Ok(DocEntry::Class(entry)),
                Err(batch) => Err(batch),
            },
        }
    }

    /// Makes the entry of the given kind of one comment: cuts the comment
    /// into its description and tags, settles the scope, folds the tags, and
    /// gathers all that went wrong into one batch.
    ///
    /// A missing scope, which an empty name is too, is told apart from
    /// everything else and comes first.
    /// Otherwise the entry is handed out only when every tag parsed and was of
    /// use; if not, the batch holds the diagnostics of the tags that did not
    /// parse, followed by those of the tags of no use.
    pub fn from_comment(
        kind: DocEntryKind,
        name: String,
        default_within: Option<String>,
        source: &'a DocComment,
    ) -> (result: Result<DocEntry<'a>, BuildError<'a>>)
        ensures
            match result {
                Ok(entry) => {
                    &&& Self::needs_scope(kind) ==> has_scope(
                        arguments_of_comment(name@, text_of(default_within), source).within,
                    )
                    &&& Self::reports(kind, name@, text_of(default_within), source).len() == 0
                    &&& entry@ == Self::built(
                        kind,
                        arguments_of_comment(name@, text_of(default_within), source),
                    )
                },
                Err(BuildError::MissingScope) => {
                    &&& Self::needs_scope(kind)
                    &&& !has_scope(
                        arguments_of_comment(name@, text_of(default_within), source).within,
                    )
                },
                Err(BuildError::Diagnostics(batch)) => {
                    &&& Self::needs_scope(kind) ==> has_scope(
                        arguments_of_comment(name@, text_of(default_within), source).within,
                    )
                    &&& batch@.len() > 0
                    &&& batch@ == Self::reports(kind, name@, text_of(default_within), source)
                },
            },
    {
        let ParsedComment { desc, tags, diagnostics } = parse_tags(Span::whole(&source.comment));
        let args = DocEntryParseArguments::new(
            name,
            desc.as_str().to_owned(),
            default_within,
            tags,
            source,
        );
        let needs_scope = match kind {
            DocEntryKind::Class => false,
            _ => true,
        };
        let scope_known = match &args.within {
            Some(scope) => !scope.as_str().is_empty(),
            None => false,
        };
        if needs_scope && !scope_known {
            return Err(BuildError::MissingScope);
        }
        let ghost unused = unused_diagnostics(
            Self::unused(kind, args.tags@),
            Self::unused_message(kind),
        );
        let built = DocEntry::parse(kind, args);
        match Diagnostics::collect(diagnostics, built) {
            Ok(entry) => {
                assert(models(diagnostics@) + unused =~= Seq::empty());
                Ok(entry)
            },
            Err(batch) => Err(BuildError::Diagnostics(batch)),
        }
    }
}

/// An entry that needs a scope is only ever made with one: where the
/// arguments name a scope, the function entry or type entry made of them
/// holds that name, and it is not empty.
pub proof fn lemma_built_entry_keeps_its_scope<'a>(
    kind: DocEntryKind,
    args: DocEntryArgumentsModel<'a>,
)
    requires
        has_scope(args.within),
    ensures
        DocEntry::built(kind, args) matches DocEntryModel::Function(entry) ==> Some(entry.within)
            == args.within && entry.within.len() > 0,
        DocEntry::built(kind, args) matches DocEntryModel::Type(entry) ==> Some(entry.within)
            == args.within && entry.within.len() > 0,
{
}

} // verus!
