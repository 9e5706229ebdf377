use crate::diagnostic::{DiagnosticModel, Diagnostics};
use crate::doc_comment::DocComment;
use crate::doc_entry::{
    has_scope, report_unused, unused_diagnostics, DocEntryArgumentsModel, DocEntryParseArguments,
};
use crate::tags::deprecated::DeprecatedTag;
use crate::tags::marker::MarkerTag;
use crate::tags::param::ParamTag;
use crate::tags::return_tag::ReturnTag;
use crate::tags::since::SinceTag;
use crate::tags::Tag;
use vstd::prelude::*;

verus! {

/// Used to separate functions (called with a dot) from methods (called with a
/// colon).
#[derive(Clone, Copy, Debug, PartialEq, Eq, Structural)]
pub enum FunctionType {
    Method,
    Static,
}

/// A doc entry for a function or method.
#[derive(Debug, PartialEq)]
pub struct FunctionDocEntry<'a> {
    pub name: String,
    pub desc: String,
    pub within: String,
    pub params: Vec<ParamTag<'a>>,
    pub returns: Vec<ReturnTag<'a>>,
    pub markers: Vec<MarkerTag<'a>>,
    pub function_type: FunctionType,
    pub since: Option<String>,
    pub deprecated: Option<DeprecatedTag<'a>>,
    pub source: &'a DocComment,
}

/// What a [`FunctionDocEntry`] holds.
pub struct FunctionDocEntryModel<'a> {
    pub name: Seq<char>,
    pub desc: Seq<char>,
    pub within: Seq<char>,
    pub params: Seq<ParamTag<'a>>,
    pub returns: Seq<ReturnTag<'a>>,
    pub markers: Seq<MarkerTag<'a>>,
    pub function_type: FunctionType,
    pub since: Option<Seq<char>>,
    pub deprecated: Option<DeprecatedTag<'a>>,
    pub source: &'a DocComment,
}

impl<'a> View for FunctionDocEntry<'a> {
    type V = FunctionDocEntryModel<'a>;

    open spec fn view(&self) -> FunctionDocEntryModel<'a> {
        FunctionDocEntryModel {
            name: self.name@,
            desc: self.desc@,
            within: self.within@,
            params: self.params@,
            returns: self.returns@,
            markers: self.markers@,
            function_type: self.function_type,
            since: match self.since {
                Some(version) => Some(version@),
                None => None,
            },
            deprecated: self.deprecated,
            source: self.source,
        }
    }
}

pub const UNUSED_BY_FUNCTION: &'static str = "this tag is unused by function doc entries";

/// Whether a function entry has a use for `tag`.
pub open spec fn used_by_function(tag: Tag) -> bool {
    tag is Param || tag is Return || tag is Marker || tag is Deprecated || tag is Since
}

/// The `@param` tags among `tags`, in their order.
pub open spec fn params_of<'a>(tags: Seq<Tag<'a>>) -> Seq<ParamTag<'a>>
    decreases tags.len(),
{
    if tags.len() == 0 {
        Seq::empty()
    } else {
        match tags.last() {
            Tag::Param(param) => params_of(tags.drop_last()).push(param),
            _ => params_of(tags.drop_last()),
        }
    }
}

/// The `@return` tags among `tags`, in their order.
pub open spec fn returns_of<'a>(tags: Seq<Tag<'a>>) -> Seq<ReturnTag<'a>>
    decreases tags.len(),
{
    if tags.len() == 0 {
        Seq::empty()
    } else {
        match tags.last() {
            Tag::Return(return_tag) => returns_of(tags.drop_last()).push(return_tag),
            _ => returns_of(tags.drop_last()),
        }
    }
}

/// The `@marker` tags among `tags`, in their order.
pub open spec fn markers_of<'a>(tags: Seq<Tag<'a>>) -> Seq<MarkerTag<'a>>
    decreases tags.len(),
{
    if tags.len() == 0 {
        Seq::empty()
    } else {
        match tags.last() {
            Tag::Marker(marker) => markers_of(tags.drop_last()).push(marker),
            _ => markers_of(tags.drop_last()),
        }
    }
}

/// The last `@deprecated` tag among `tags`, if there is one.
pub open spec fn last_deprecated<'a>(tags: Seq<Tag<'a>>) -> Option<DeprecatedTag<'a>>
    decreases tags.len(),
{
    if tags.len() == 0 {
        None
    } else {
        match tags.last() {
            Tag::Deprecated(deprecated) => Some(deprecated),
            _ => last_deprecated(tags.drop_last()),
        }
    }
}

/// The last `@since` tag among `tags`, if there is one.
pub open spec fn last_since<'a>(tags: Seq<Tag<'a>>) -> Option<SinceTag<'a>>
    decreases tags.len(),
{
    if tags.len() == 0 {
        None
    } else {
        match tags.last() {
            Tag::Since(since) => Some(since),
            _ => last_since(tags.drop_last()),
        }
    }
}

/// The tags among `tags` that a function entry has no use for, in their
/// order.
pub open spec fn unused_by_function<'a>(tags: Seq<Tag<'a>>) -> Seq<Tag<'a>>
    decreases tags.len(),
{
    if tags.len() == 0 {
        Seq::empty()
    } else if used_by_function(tags.last()) {
        unused_by_function(tags.drop_last())
    } else {
        unused_by_function(tags.drop_last()).push(tags.last())
    }
}

impl<'a> FunctionDocEntry<'a> {
    /// The entry that `args` describe, where every tag is of use.
    ///
    /// Parameters, returned values and markers are kept in the order of the
    /// tags, with nothing left out where a tag is repeated. Of several
    /// `@deprecated` tags the last one counts, and so of several `@since`
    /// tags.
    pub open spec fn built(
        args: DocEntryArgumentsModel<'a>,
        function_type: FunctionType,
    ) -> FunctionDocEntryModel<'a>
        recommends
            has_scope(args.within),
    {
        FunctionDocEntryModel {
            name: args.name,
            desc: args.desc,
            within: args.within->Some_0,
            params: params_of(args.tags),
            returns: returns_of(args.tags),
            markers: markers_of(args.tags),
            function_type,
            since: match last_since(args.tags) {
                Some(since) => Some(since.version@),
                None => None,
            },
            deprecated: last_deprecated(args.tags),
            source: args.source,
        }
    }

    /// Builds the entry of a function or method from `args`.
    ///
    /// The scope that the function belongs to must be known, and its name may
    /// not be empty: no entry is made without a scope. The build fails when at
    /// least one tag is of no use to a function entry; the batch then holds
    /// one diagnostic for each such tag, in the order of the tags.
    pub fn parse(args: DocEntryParseArguments<'a>, function_type: FunctionType) -> (result: Result<
        FunctionDocEntry<'a>,
        Diagnostics<'a>,
    >)
        requires
            args.within matches Some(scope) && scope@.len() > 0,
        ensures
            result is Ok <==> unused_by_function(args.tags@).len() == 0,
            result matches Ok(entry) ==> entry@ == Self::built(args@, function_type)
                && entry.within@.len() > 0,
            result matches Err(batch) ==> batch@ == unused_diagnostics(
                unused_by_function(args.tags@),
                UNUSED_BY_FUNCTION@,
            ),
    {
        let DocEntryParseArguments { name, desc, within, tags, source } = args;
        let within = within.unwrap();
        let mut params: Vec<ParamTag<'a>> = Vec::new();
        let mut returned: Vec<ReturnTag<'a>> = Vec::new();
        let mut markers: Vec<MarkerTag<'a>> = Vec::new();
        let mut unused_tags: Vec<Tag<'a>> = Vec::new();
        let mut deprecated: Option<DeprecatedTag<'a>> = None;
        let mut since: Option<String> = None;

        let mut i: usize = 0;
        while i < tags.len()
            invariant
                i <= tags@.len(),
                params@ == params_of(tags@.take(i as int)),
                returned@ == returns_of(tags@.take(i as int)),
                markers@ == markers_of(tags@.take(i as int)),
                unused_tags@ == unused_by_function(tags@.take(i as int)),
                deprecated == last_deprecated(tags@.take(i as int)),
                since is Some <==> last_since(tags@.take(i as int)) is Some,
                since matches Some(version) ==> version@ == last_since(
                    tags@.take(i as int),
                )->Some_0.version@,
            decreases tags@.len() - i,
        {
            assert(tags@.take(i as int + 1).drop_last() =~= tags@.take(i as int));
            let tag = tags[i];
            match tag {
                Tag::Param(param) => params.push(param),
                Tag::Return(return_tag) => returned.push(return_tag),
                Tag::Marker(marker) => markers.push(marker),
                Tag::Deprecated(deprecated_tag) => deprecated = Some(deprecated_tag),
                Tag::Since(since_tag) => since = Some(since_tag.version.as_str().to_owned()),
                _ => unused_tags.push(tag),
            }
            i += 1;
        }
        assert(tags@.take(i as int) =~= tags@);

        match report_unused(&unused_tags, UNUSED_BY_FUNCTION) {
            Some(batch) => Err(batch),
            None => Ok(
                FunctionDocEntry {
                    name,
                    desc,
                    params,
                    returns: returned,
                    markers,
                    function_type,
                    within,
                    deprecated,
                    source,
                    since,
                },
            ),
        }
    }
}

/// The parameters, returned values and markers of a function entry are the
/// `@param`, `@return` and `@marker` tags that were given: all of them, in the
/// order given, so that each list is as long as there are tags of its kind.
pub proof fn lemma_function_lists_keep_every_tag<'a>(
    args: DocEntryArgumentsModel<'a>,
    function_type: FunctionType,
)
    ensures
        FunctionDocEntry::built(args, function_type).params == args.tags.filter(
            |tag: Tag<'a>| tag is Param,
        ).map_values(|tag: Tag<'a>| tag->Param_0),
        FunctionDocEntry::built(args, function_type).returns == args.tags.filter(
            |tag: Tag<'a>| tag is Return,
        ).map_values(|tag: Tag<'a>| tag->Return_0),
        FunctionDocEntry::built(args, function_type).markers == args.tags.filter(
            |tag: Tag<'a>| tag is Marker,
        ).map_values(|tag: Tag<'a>| tag->Marker_0),
{
    lemma_lists_are_filters(args.tags);
}

/// The lists of a function entry, as the tags of each kind in their order.
pub proof fn lemma_lists_are_filters<'a>(tags: Seq<Tag<'a>>)
    ensures
        params_of(tags) == tags.filter(|tag: Tag<'a>| tag is Param).map_values(
            |tag: Tag<'a>| tag->Param_0,
        ),
        returns_of(tags) == tags.filter(|tag: Tag<'a>| tag is Return).map_values(
            |tag: Tag<'a>| tag->Return_0,
        ),
        markers_of(tags) == tags.filter(|tag: Tag<'a>| tag is Marker).map_values(
            |tag: Tag<'a>| tag->Marker_0,
        ),
    decreases tags.len(),
{
    reveal(Seq::filter);
    let is_param = |tag: Tag<'a>| tag is Param;
    let is_return = |tag: Tag<'a>| tag is Return;
    let is_marker = |tag: Tag<'a>| tag is Marker;
    let param = |tag: Tag<'a>| tag->Param_0;
    let return_tag = |tag: Tag<'a>| tag->Return_0;
    let marker = |tag: Tag<'a>| tag->Marker_0;
    if tags.len() == 0 {
        assert(params_of(tags) =~= tags.filter(is_param).map_values(param));
        assert(returns_of(tags) =~= tags.filter(is_return).map_values(return_tag));
        assert(markers_of(tags) =~= tags.filter(is_marker).map_values(marker));
    } else {
        let before = tags.drop_last();
        lemma_lists_are_filters(before);
        assert(tags.filter(is_param).map_values(param) =~= if is_param(tags.last()) {
            before.filter(is_param).map_values(param).push(param(tags.last()))
        } else {
            before.filter(is_param).map_values(param)
        });
        assert(tags.filter(is_return).map_values(return_tag) =~= if is_return(tags.last()) {
            before.filter(is_return).map_values(return_tag).push(return_tag(tags.last()))
        } else {
            before.filter(is_return).map_values(return_tag)
        });
        assert(tags.filter(is_marker).map_values(marker) =~= if is_marker(tags.last()) {
            before.filter(is_marker).map_values(marker).push(marker(tags.last()))
        } else {
            before.filter(is_marker).map_values(marker)
        });
    }
}

/// A `@param` tag that is given twice is kept twice, in the order given.
pub proof fn lemma_param_given_twice_is_kept_twice<'a>(
    tags: Seq<Tag<'a>>,
    first: ParamTag<'a>,
    second: ParamTag<'a>,
)
    ensures
        params_of(tags.push(Tag::Param(first)).push(Tag::Param(second))) == params_of(tags).push(
            first,
        ).push(second),
{
    let once = tags.push(Tag::Param(first));
    let twice = once.push(Tag::Param(second));
    assert(once.drop_last() =~= tags);
    assert(twice.drop_last() =~= once);
    assert(params_of(once) == params_of(tags).push(first));
    assert(params_of(twice) == params_of(once).push(second));
}

/// The tags that a function entry has no use for are exactly the tags of
/// another kind than `@param`, `@return`, `@marker`, `@deprecated` and
/// `@since`, in the order given.
pub proof fn lemma_unused_by_function_is_filter<'a>(tags: Seq<Tag<'a>>)
    ensures
        unused_by_function(tags) == tags.filter(|tag: Tag<'a>| !used_by_function(tag)),
    decreases tags.len(),
{
    reveal(Seq::filter);
    if tags.len() > 0 {
        lemma_unused_by_function_is_filter(tags.drop_last());
    }
}

/// One tag that a function entry has no use for is enough for the build to
/// fail, and the batch then holds the diagnostic that points at that tag.
pub proof fn lemma_unused_tag_fails_function<'a>(tags: Seq<Tag<'a>>, i: int)
    requires
        0 <= i < tags.len(),
        !used_by_function(tags[i]),
    ensures
        unused_by_function(tags).len() > 0,
        unused_diagnostics(unused_by_function(tags), UNUSED_BY_FUNCTION@).contains(
            DiagnosticModel { span: tags[i].span(), message: UNUSED_BY_FUNCTION@ },
        ),
    decreases tags.len(),
{
    let unused = unused_by_function(tags);
    let reports = unused_diagnostics(unused, UNUSED_BY_FUNCTION@);
    let report = DiagnosticModel { span: tags[i].span(), message: UNUSED_BY_FUNCTION@ };
    if i == tags.len() - 1 {
        let j = unused.len() - 1;
        assert(unused[j] == tags[i]);
        assert(reports[j] == report);
    } else {
        let before = tags.drop_last();
        lemma_unused_tag_fails_function(before, i);
        let earlier = unused_diagnostics(unused_by_function(before), UNUSED_BY_FUNCTION@);
        let j = choose|j: int| 0 <= j < earlier.len() && earlier[j] == report;
        assert(unused[j] == unused_by_function(before)[j]);
        assert(reports[j] == report);
    }
}

/// Where every tag is of use to a function entry, no tag is unused, and the
/// build succeeds.
pub proof fn lemma_all_used_builds_function<'a>(tags: Seq<Tag<'a>>)
    requires
        forall|i: int| 0 <= i < tags.len() ==> used_by_function(#[trigger] tags[i]),
    ensures
        unused_by_function(tags).len() == 0,
    decreases tags.len(),
{
    if tags.len() > 0 {
        lemma_all_used_builds_function(tags.drop_last());
    }
}

/// Of several `@deprecated` tags a function entry stores the last one, not the
/// first, and of several `@since` tags the version of the last one.
pub proof fn lemma_function_stores_last_occurrence<'a>(
    args: DocEntryArgumentsModel<'a>,
    function_type: FunctionType,
    i: int,
)
    requires
        0 <= i < args.tags.len(),
    ensures
        args.tags[i] is Deprecated && (forall|j: int|
            i < j < args.tags.len() ==> !(args.tags[j] is Deprecated))
            ==> FunctionDocEntry::built(args, function_type).deprecated == Some(
            args.tags[i]->Deprecated_0,
        ),
        args.tags[i] is Since && (forall|j: int| i < j < args.tags.len() ==> !(args.tags[j] is Since))
            ==> FunctionDocEntry::built(args, function_type).since == Some(
            args.tags[i]->Since_0.version@,
        ),
{
    lemma_last_occurrence_wins(args.tags, i);
}

/// The last tag of its kind is the one that [`last_deprecated`] and
/// [`last_since`] pick, whatever stands before it.
pub proof fn lemma_last_occurrence_wins<'a>(tags: Seq<Tag<'a>>, i: int)
    requires
        0 <= i < tags.len(),
    ensures
        tags[i] is Deprecated && (forall|j: int| i < j < tags.len() ==> !(tags[j] is Deprecated))
            ==> last_deprecated(tags) == Some(tags[i]->Deprecated_0),
        tags[i] is Since && (forall|j: int| i < j < tags.len() ==> !(tags[j] is Since))
            ==> last_since(tags) == Some(tags[i]->Since_0),
    decreases tags.len(),
{
    if i < tags.len() - 1 {
        lemma_last_occurrence_wins(tags.drop_last(), i);
    }
}

/// Without a `@deprecated` tag nothing is stored as the deprecation; without
/// a `@since` tag nothing as the version.
pub proof fn lemma_absent_stays_absent<'a>(tags: Seq<Tag<'a>>)
    ensures
        last_deprecated(tags) is None <==> forall|i: int|
            0 <= i < tags.len() ==> !(#[trigger] tags[i] is Deprecated),
        last_since(tags) is None <==> forall|i: int|
            0 <= i < tags.len() ==> !(#[trigger] tags[i] is Since),
    decreases tags.len(),
{
    if tags.len() > 0 {
        let before = tags.drop_last();
        lemma_absent_stays_absent(before);
        assert forall|i: int| 0 <= i < before.len() implies before[i] == tags[i] by {}
        if !(tags.last() is Deprecated) && last_deprecated(before) is Some {
            let i = choose|i: int| 0 <= i < before.len() && #[trigger] before[i] is Deprecated;
            assert(tags[i] is Deprecated);
        }
        if !(tags.last() is Since) && last_since(before) is Some {
            let i = choose|i: int| 0 <= i < before.len() && #[trigger] before[i] is Since;
            assert(tags[i] is Since);
        }
    }
}

} // verus!
