use crate::diagnostic::{DiagnosticModel, Diagnostics};
use crate::doc_comment::{DocComment, OutputSource, Stmt, TokenType, TypeField, TypeInfo};
use crate::doc_entry::{
    has_scope, report_unused, unused_diagnostics, DocEntryArgumentsModel, DocEntryParseArguments,
};
use crate::span::{trimmed_copy, SourceText, Span};
use crate::tags::custom::CustomTag;
use crate::tags::field::FieldTag;
use crate::tags::type_tag::TypeTag;
use crate::tags::Tag;
use crate::text::{find_char, lemma_find_char_bounds, trimmed};
use vstd::prelude::*;

verus! {

/// One field of a documented table type. A field that the declaration itself
/// shows and a field that an `@field` tag adds have the same shape.
#[derive(Debug, PartialEq)]
pub struct Field {
    pub name: String,
    pub lua_type: String,
    pub desc: String,
}

/// What a [`Field`] holds.
pub struct FieldModel {
    pub name: Seq<char>,
    pub lua_type: Seq<char>,
    pub desc: Seq<char>,
}

impl View for Field {
    type V = FieldModel;

    open spec fn view(&self) -> FieldModel {
        FieldModel { name: self.name@, lua_type: self.lua_type@, desc: self.desc@ }
    }
}

/// The models of a sequence of fields, in the same order.
pub open spec fn field_models(fields: Seq<Field>) -> Seq<FieldModel> {
    Seq::new(fields.len(), |i: int| fields[i]@)
}

impl Field {
    /// The field that an `@field` tag describes.
    pub open spec fn of_tag(field_tag: FieldTag) -> FieldModel {
        FieldModel {
            name: field_tag.name@,
            lua_type: field_tag.lua_type@,
            desc: field_tag.desc@,
        }
    }

}

impl<'a> From<FieldTag<'a>> for Field {
    /// Takes the texts of an `@field` tag.
    fn from(field_tag: FieldTag<'a>) -> (field: Field)
        ensures
            field@ == Field::of_tag(field_tag),
    {
        Field {
            name: field_tag.name.as_str().to_owned(),
            lua_type: field_tag.lua_type.as_str().to_owned(),
            desc: field_tag.desc.as_str().to_owned(),
        }
    }
}

/// A field holds `String`s, of which specifications can make no value: what
/// the conversion returns is stated on `from` itself, over [`Field::of_tag`].
impl<'a> vstd::std_specs::convert::FromSpecImpl<FieldTag<'a>> for Field {
    open spec fn obeys_from_spec() -> bool {
        false
    }

    open spec fn from_spec(field_tag: FieldTag<'a>) -> Field {
        arbitrary()
    }
}

/// The name that the key of a field shows: the text of the first identifier
/// among the tokens at or after `from`, or nothing where there is none.
pub open spec fn key_name(key: Seq<TokenType>, from: int) -> Seq<char>
    decreases key.len() - from,
{
    if from < 0 || from >= key.len() {
        Seq::empty()
    } else {
        match key[from] {
            TokenType::Identifier { identifier } => identifier@,
            _ => key_name(key, from + 1),
        }
    }
}

/// Whether a line starts at `at`: at the start of the text and behind every
/// line feed.
pub open spec fn is_line_start(s: Seq<char>, at: int) -> bool {
    at == 0 || (0 < at <= s.len() && s[at - 1] == '\n')
}

/// The line that starts at `at`, trimmed.
pub open spec fn line_at(s: Seq<char>, at: int) -> Seq<char> {
    trimmed(s.subrange(at, find_char(s, '\n', at)))
}

/// The lines of `s` that start at or after `from`, each trimmed. A line feed
/// ends a line; the end of the text ends the last one, and starts no further
/// line behind a final line feed.
pub open spec fn lines_from(s: Seq<char>, from: int) -> Seq<Seq<char>>
    decreases s.len() - from,
{
    if from < 0 || from >= s.len() {
        Seq::empty()
    } else if is_line_start(s, from) {
        seq![line_at(s, from)] + lines_from(s, from + 1)
    } else {
        lines_from(s, from + 1)
    }
}

/// The trimmed lines of a token that is a comment; none for any other token.
pub open spec fn lines_of_token(token: TokenType) -> Seq<Seq<char>> {
    match token {
        TokenType::SingleLineComment { comment } => lines_from(comment@, 0),
        TokenType::MultiLineComment { comment, .. } => lines_from(comment@, 0),
        _ => Seq::empty(),
    }
}

/// The trimmed lines of all comments among `trivia`, in their order.
pub open spec fn comment_lines(trivia: Seq<TokenType>) -> Seq<Seq<char>>
    decreases trivia.len(),
{
    if trivia.len() == 0 {
        Seq::empty()
    } else {
        comment_lines(trivia.drop_last()) + lines_of_token(trivia.last())
    }
}

/// `lines` with one line feed between each two of them.
pub open spec fn joined_lines(lines: Seq<Seq<char>>) -> Seq<char>
    decreases lines.len(),
{
    if lines.len() == 0 {
        Seq::empty()
    } else if lines.len() == 1 {
        lines[0]
    } else {
        joined_lines(lines.drop_last()) + seq!['\n'] + lines.last()
    }
}

/// The description that the comments in front of a field's key give: their
/// lines, each trimmed, joined by line feeds, and the whole trimmed. It is
/// empty where there is no comment.
pub open spec fn field_description(trivia: Seq<TokenType>) -> Seq<char> {
    trimmed(joined_lines(comment_lines(trivia)))
}

/// The field that one field of a table type declaration shows: the name
/// that its key shows, the text of its type without the white space around
/// it, and the description that the comments in front of the key give.
pub open spec fn structural_field(field: TypeField) -> FieldModel {
    FieldModel {
        name: key_name(field.key@, 0),
        lua_type: trimmed(field.value@),
        desc: field_description(field.leading_trivia@),
    }
}

/// The fields that the fields of a table type declaration show, in their
/// order.
pub open spec fn structural_fields(fields: Seq<TypeField>) -> Seq<FieldModel> {
    Seq::new(fields.len(), |i: int| structural_field(fields[i]))
}

/// The fields that the documented statement itself shows: those of the table
/// type of an exported type declaration, and none for anything else.
pub open spec fn declared_fields(stmt: Option<Stmt>) -> Seq<FieldModel> {
    match stmt {
        Some(Stmt::ExportedTypeDeclaration(TypeInfo::Table { fields })) => structural_fields(
            fields@,
        ),
        _ => Seq::empty(),
    }
}

/// Over a stretch in which no line starts, the lines that follow are the same.
pub proof fn lemma_skip_inside_line(s: Seq<char>, from: int, to: int)
    requires
        0 <= from <= to <= s.len(),
        forall|at: int| from <= at < to ==> !is_line_start(s, at),
    ensures
        lines_from(s, from) == lines_from(s, to),
    decreases to - from,
{
    if from < to {
        lemma_skip_inside_line(s, from + 1, to);
    }
}

/// The name that the key of a field shows.
pub fn name_of_key(key: &Vec<TokenType>) -> (name: String)
    ensures
        name@ == key_name(key@, 0),
{
    let mut i: usize = 0;
    while i < key.len()
        invariant
            i <= key@.len(),
            key_name(key@, 0) == key_name(key@, i as int),
        decreases key@.len() - i,
    {
        match &key[i] {
            TokenType::Identifier { identifier } => {
                return identifier.clone();
            },
            _ => {},
        }
        i += 1;
    }
    String::new()
}

/// Adds the trimmed lines of `comment` to the lines joined so far.
fn join_comment_lines(
    joined: String,
    started: bool,
    comment: &str,
    Ghost(before): Ghost<Seq<Seq<char>>>,
) -> (result: (String, bool))
    requires
        joined@ == joined_lines(before),
        started == (before.len() > 0),
    ensures
        result.0@ == joined_lines(before + lines_from(comment@, 0)),
        result.1 == ((before + lines_from(comment@, 0)).len() > 0),
{
    let text = SourceText::new(comment);
    let span = Span::whole(&text);
    let n = span.len();
    let mut joined = joined;
    let mut started = started;
    let mut at: usize = 0;
    let ghost mut done = before;
    while at < n
        invariant
            at <= n,
            n == span@.len(),
            span@ == comment@,
            at < n ==> is_line_start(span@, at as int),
            before + lines_from(span@, 0) == done + lines_from(span@, at as int),
            joined@ == joined_lines(done),
            started == (done.len() > 0),
        decreases n - at,
    {
        let end = span.find_char('\n', at);
        let line = span.slice(at, end).trim();
        if started {
            joined.append("\n");
        }
        joined.append(line.as_str());
        started = true;
        let next = if end < n {
            end + 1
        } else {
            n
        };
        proof {
            reveal_strlit("\n");
            assert("\n"@ =~= seq!['\n']);
            lemma_find_char_bounds(span@, '\n', at as int);
            lemma_skip_inside_line(span@, at + 1, next as int);
            assert(done.push(line@).drop_last() =~= done);
            assert(done + (seq![line@] + lines_from(span@, next as int)) =~= done.push(line@)
                + lines_from(span@, next as int));
            done = done.push(line@);
        }
        at = next;
    }
    assert(done + lines_from(span@, at as int) =~= done);
    (joined, started)
}

/// The description that the comments in front of a field's key give.
pub fn description_of_trivia(trivia: &Vec<TokenType>) -> (desc: String)
    ensures
        desc@ == field_description(trivia@),
{
    let mut joined = String::new();
    let mut started = false;
    let mut i: usize = 0;
    while i < trivia.len()
        invariant
            i <= trivia@.len(),
            joined@ == joined_lines(comment_lines(trivia@.take(i as int))),
            started == (comment_lines(trivia@.take(i as int)).len() > 0),
        decreases trivia@.len() - i,
    {
        assert(trivia@.take(i as int + 1).drop_last() =~= trivia@.take(i as int));
        let ghost before = comment_lines(trivia@.take(i as int));
        match &trivia[i] {
            TokenType::SingleLineComment { comment } => {
                let (text, any) = join_comment_lines(joined, started, comment.as_str(), Ghost(before));
                joined = text;
                started = any;
            },
            TokenType::MultiLineComment { comment } => {
                let (text, any) = join_comment_lines(joined, started, comment.as_str(), Ghost(before));
                joined = text;
                started = any;
            },
            _ => {
                assert(before + Seq::<Seq<char>>::empty() =~= before);
            },
        }
        i += 1;
    }
    assert(trivia@.take(i as int) =~= trivia@);
    trimmed_copy(joined.as_str())
}

/// The fields that the documented statement itself shows.
pub fn fields_of_statement(stmt: &Option<Stmt>) -> (fields: Vec<Field>)
    ensures
        field_models(fields@) == declared_fields(*stmt),
{
    let mut fields: Vec<Field> = Vec::new();
    match stmt {
        Some(Stmt::ExportedTypeDeclaration(TypeInfo::Table { fields: type_fields })) => {
            let mut i: usize = 0;
            while i < type_fields.len()
                invariant
                    i <= type_fields@.len(),
                    field_models(fields@) == structural_fields(type_fields@.take(i as int)),
                decreases type_fields@.len() - i,
            {
                let type_field = &type_fields[i];
                let field = Field {
                    name: name_of_key(&type_field.key),
                    lua_type: trimmed_copy(type_field.value.as_str()),
                    desc: description_of_trivia(&type_field.leading_trivia),
                };
                proof {
                    assert(field_models(fields@.push(field)) =~= field_models(fields@).push(field@));
                    assert(structural_fields(type_fields@.take(i as int + 1))
                        =~= structural_fields(type_fields@.take(i as int)).push(
                        structural_field(type_fields@[i as int]),
                    ));
                }
                fields.push(field);
                i += 1;
            }
            assert(type_fields@.take(i as int) =~= type_fields@);
        },
        _ => {
            assert(field_models(fields@) =~= Seq::empty());
        },
    }
    fields
}

/// A doc entry for a type.
#[derive(Debug, PartialEq)]
pub struct TypeDocEntry<'a> {
    pub name: String,
    pub desc: String,
    pub lua_type: Option<String>,
    pub fields: Vec<Field>,
    pub tags: Vec<CustomTag<'a>>,
    pub private: bool,
    pub ignore: bool,
    pub output_source: OutputSource,
    pub source: &'a DocComment,
    pub within: String,
}

/// What a [`TypeDocEntry`] holds.
pub struct TypeDocEntryModel<'a> {
    pub name: Seq<char>,
    pub desc: Seq<char>,
    pub lua_type: Option<Seq<char>>,
    pub fields: Seq<FieldModel>,
    pub tags: Seq<CustomTag<'a>>,
    pub private: bool,
    pub ignore: bool,
    pub output_source: OutputSource,
    pub source: &'a DocComment,
    pub within: Seq<char>,
}

impl<'a> View for TypeDocEntry<'a> {
    type V = TypeDocEntryModel<'a>;

    open spec fn view(&self) -> TypeDocEntryModel<'a> {
        TypeDocEntryModel {
            name: self.name@,
            desc: self.desc@,
            lua_type: match self.lua_type {
                Some(lua_type) => Some(lua_type@),
                None => None,
            },
            fields: field_models(self.fields@),
            tags: self.tags@,
            private: self.private,
            ignore: self.ignore,
            output_source: self.output_source,
            source: self.source,
            within: self.within@,
        }
    }
}

pub const UNUSED_BY_TYPE: &'static str = "this tag is unused by type doc entries";

/// Whether a type entry has a use for `tag`.
pub open spec fn used_by_type(tag: Tag) -> bool {
    tag is Type || tag is Field || tag is Custom || tag is Private || tag is Ignore
}

/// The last `@type` tag among `tags`, if there is one.
pub open spec fn last_type<'a>(tags: Seq<Tag<'a>>) -> Option<TypeTag<'a>>
    decreases tags.len(),
{
    if tags.len() == 0 {
        None
    } else {
        match tags.last() {
            Tag::Type(type_tag) => Some(type_tag),
            _ => last_type(tags.drop_last()),
        }
    }
}

/// The fields that the `@field` tags among `tags` describe, in their order.
pub open spec fn fields_of<'a>(tags: Seq<Tag<'a>>) -> Seq<FieldModel>
    decreases tags.len(),
{
    if tags.len() == 0 {
        Seq::empty()
    } else {
        match tags.last() {
            Tag::Field(field_tag) => fields_of(tags.drop_last()).push(Field::of_tag(field_tag)),
            _ => fields_of(tags.drop_last()),
        }
    }
}

/// The custom tags among `tags`, in their order.
pub open spec fn customs_of<'a>(tags: Seq<Tag<'a>>) -> Seq<CustomTag<'a>>
    decreases tags.len(),
{
    if tags.len() == 0 {
        Seq::empty()
    } else {
        match tags.last() {
            Tag::Custom(custom) => customs_of(tags.drop_last()).push(custom),
            _ => customs_of(tags.drop_last()),
        }
    }
}

/// Whether `tags` hold an `@private` tag.
pub open spec fn has_private<'a>(tags: Seq<Tag<'a>>) -> bool {
    exists|i: int| 0 <= i < tags.len() && tags[i] is Private
}

/// Whether `tags` hold an `@ignore` tag.
pub open spec fn has_ignore<'a>(tags: Seq<Tag<'a>>) -> bool {
    exists|i: int| 0 <= i < tags.len() && tags[i] is Ignore
}

/// The tags among `tags` that a type entry has no use for, in their order.
pub open spec fn unused_by_type<'a>(tags: Seq<Tag<'a>>) -> Seq<Tag<'a>>
    decreases tags.len(),
{
    if tags.len() == 0 {
        Seq::empty()
    } else if used_by_type(tags.last()) {
        unused_by_type(tags.drop_last())
    } else {
        unused_by_type(tags.drop_last()).push(tags.last())
    }
}

impl<'a> TypeDocEntry<'a> {
    /// The entry that `args` describe, where every tag is of use.
    ///
    /// The fields that the documented statement shows come first, then those
    /// of the `@field` tags, in the order of the tags. Of several `@type` tags
    /// the last one counts. `@private` and `@ignore` set their flag however
    /// often they occur.
    pub open spec fn built(args: DocEntryArgumentsModel<'a>) -> TypeDocEntryModel<'a>
        recommends
            has_scope(args.within),
    {
        TypeDocEntryModel {
            name: args.name,
            desc: args.desc,
            lua_type: match last_type(args.tags) {
                Some(type_tag) => Some(type_tag.lua_type@),
                None => None,
            },
            fields: declared_fields(args.source.stmt) + fields_of(args.tags),
            tags: customs_of(args.tags),
            private: has_private(args.tags),
            ignore: has_ignore(args.tags),
            output_source: args.source.output_source,
            source: args.source,
            within: args.within->Some_0,
        }
    }

    /// Builds the entry of a type from `args`.
    ///
    /// The scope that the type belongs to must be known, and its name may not
    /// be empty: no entry is made without a scope. The build fails when at
    /// least one tag is of no use to a type entry; the batch then holds one
    /// diagnostic for each such tag, in the order of the tags.
    pub fn parse(args: DocEntryParseArguments<'a>) -> (result: Result<
        TypeDocEntry<'a>,
        Diagnostics<'a>,
    >)
        requires
            args.within matches Some(scope) && scope@.len() > 0,
        ensures
            result is Ok <==> unused_by_type(args.tags@).len() == 0,
            result matches Ok(entry) ==> entry@ == Self::built(args@) && entry.within@.len() > 0,
            result matches Err(batch) ==> batch@ == unused_diagnostics(
                unused_by_type(args.tags@),
                UNUSED_BY_TYPE@,
            ),
    {
        let DocEntryParseArguments { name, desc, within, tags, source } = args;
        let mut fields = fields_of_statement(&source.stmt);
        let mut lua_type: Option<String> = None;
        let mut custom_tags: Vec<CustomTag<'a>> = Vec::new();
        let mut private = false;
        let mut ignore = false;
        let mut unused_tags: Vec<Tag<'a>> = Vec::new();

        let mut i: usize = 0;
        while i < tags.len()
            invariant
                i <= tags@.len(),
                field_models(fields@) == declared_fields(source.stmt) + fields_of(
                    tags@.take(i as int),
                ),
                custom_tags@ == customs_of(tags@.take(i as int)),
                private == has_private(tags@.take(i as int)),
                ignore == has_ignore(tags@.take(i as int)),
                unused_tags@ == unused_by_type(tags@.take(i as int)),
                lua_type is Some <==> last_type(tags@.take(i as int)) is Some,
                lua_type matches Some(text) ==> text@ == last_type(
                    tags@.take(i as int),
                )->Some_0.lua_type@,
            decreases tags@.len() - i,
        {
            let ghost before = tags@.take(i as int);
            let ghost after = tags@.take(i as int + 1);
            assert(after.drop_last() =~= before);
            assert(after.last() == tags@[i as int]);
            proof {
                lemma_flags_push(before, tags@[i as int]);
                assert(after =~= before.push(tags@[i as int]));
            }
            let tag = tags[i];
            match tag {
                Tag::Type(type_tag) => {
                    lua_type = Some(type_tag.lua_type.as_str().to_owned());
                },
                Tag::Field(field_tag) => {
                    let field = Field::from(field_tag);
                    assert(field_models(fields@.push(field)) =~= field_models(fields@).push(
                        field@,
                    ));
                    assert((declared_fields(source.stmt) + fields_of(before)).push(field@)
                        =~= declared_fields(source.stmt) + fields_of(before).push(field@));
                    fields.push(field);
                },
                Tag::Custom(custom_tag) => custom_tags.push(custom_tag),
                Tag::Private(_) => private = true,
                Tag::Ignore(_) => ignore = true,
                _ => unused_tags.push(tag),
            }
            i += 1;
        }
        assert(tags@.take(i as int) =~= tags@);

        match report_unused(&unused_tags, UNUSED_BY_TYPE) {
            Some(batch) => Err(batch),
            None => Ok(
                TypeDocEntry {
                    name,
                    desc,
                    source,
                    fields,
                    lua_type,
                    within: within.unwrap(),
                    tags: custom_tags,
                    private,
                    ignore,
                    output_source: source.output_source.clone(),
                },
            ),
        }
    }
}

/// A flag is set after one more tag if it was set before or the tag sets it.
pub proof fn lemma_flags_push<'a>(tags: Seq<Tag<'a>>, last: Tag<'a>)
    ensures
        has_private(tags.push(last)) == (has_private(tags) || last is Private),
        has_ignore(tags.push(last)) == (has_ignore(tags) || last is Ignore),
{
    let longer = tags.push(last);
    if has_private(tags) {
        let i = choose|i: int| 0 <= i < tags.len() && tags[i] is Private;
        assert(longer[i] is Private);
    }
    if last is Private {
        assert(longer[tags.len() as int] is Private);
    }
    if has_private(longer) {
        let i = choose|i: int| 0 <= i < longer.len() && longer[i] is Private;
        if i < tags.len() {
            assert(tags[i] is Private);
        }
    }
    if has_ignore(tags) {
        let i = choose|i: int| 0 <= i < tags.len() && tags[i] is Ignore;
        assert(longer[i] is Ignore);
    }
    if last is Ignore {
        assert(longer[tags.len() as int] is Ignore);
    }
    if has_ignore(longer) {
        let i = choose|i: int| 0 <= i < longer.len() && longer[i] is Ignore;
        if i < tags.len() {
            assert(tags[i] is Ignore);
        }
    }
}

/// The fields of the `@field` tags, as those tags in their order.
pub proof fn lemma_fields_of_is_filter<'a>(tags: Seq<Tag<'a>>)
    ensures
        fields_of(tags) == tags.filter(|tag: Tag<'a>| tag is Field).map_values(
            |tag: Tag<'a>| Field::of_tag(tag->Field_0),
        ),
        customs_of(tags) == tags.filter(|tag: Tag<'a>| tag is Custom).map_values(
            |tag: Tag<'a>| tag->Custom_0,
        ),
    decreases tags.len(),
{
    reveal(Seq::filter);
    let is_field = |tag: Tag<'a>| tag is Field;
    let field = |tag: Tag<'a>| Field::of_tag(tag->Field_0);
    let is_custom = |tag: Tag<'a>| tag is Custom;
    let custom = |tag: Tag<'a>| tag->Custom_0;
    if tags.len() == 0 {
        assert(fields_of(tags) =~= tags.filter(is_field).map_values(field));
        assert(customs_of(tags) =~= tags.filter(is_custom).map_values(custom));
    } else {
        let before = tags.drop_last();
        lemma_fields_of_is_filter(before);
        assert(tags.filter(is_field).map_values(field) =~= if is_field(tags.last()) {
            before.filter(is_field).map_values(field).push(field(tags.last()))
        } else {
            before.filter(is_field).map_values(field)
        });
        assert(tags.filter(is_custom).map_values(custom) =~= if is_custom(tags.last()) {
            before.filter(is_custom).map_values(custom).push(custom(tags.last()))
        } else {
            before.filter(is_custom).map_values(custom)
        });
    }
}

/// The fields of a type entry are those that the declaration shows, followed
/// by one for each `@field` tag in the order given: the tags add to what the
/// declaration shows and replace nothing of it.
pub proof fn lemma_field_tags_add_to_declared_fields<'a>(args: DocEntryArgumentsModel<'a>)
    ensures
        TypeDocEntry::built(args).fields.len() == declared_fields(args.source.stmt).len()
            + args.tags.filter(|tag: Tag<'a>| tag is Field).len(),
        TypeDocEntry::built(args).fields.take(declared_fields(args.source.stmt).len() as int)
            == declared_fields(args.source.stmt),
        TypeDocEntry::built(args).fields.skip(declared_fields(args.source.stmt).len() as int)
            == args.tags.filter(|tag: Tag<'a>| tag is Field).map_values(
            |tag: Tag<'a>| Field::of_tag(tag->Field_0),
        ),
{
    lemma_fields_of_is_filter(args.tags);
    let declared = declared_fields(args.source.stmt);
    let fields = TypeDocEntry::built(args).fields;
    assert(fields.take(declared.len() as int) =~= declared);
    assert(fields.skip(declared.len() as int) =~= fields_of(args.tags));
}

/// `@private` and `@ignore` set the flag of a type entry by being there: the
/// flag is set where the tag occurs at least once, and occurring again changes
/// nothing.
pub proof fn lemma_type_flags_set_by_presence<'a>(args: DocEntryArgumentsModel<'a>)
    ensures
        TypeDocEntry::built(args).private <==> args.tags.filter(
            |tag: Tag<'a>| tag is Private,
        ).len() >= 1,
        TypeDocEntry::built(args).ignore <==> args.tags.filter(
            |tag: Tag<'a>| tag is Ignore,
        ).len() >= 1,
{
    lemma_flags_set_by_presence(args.tags);
}

/// A flag is set exactly where its tag occurs at least once.
pub proof fn lemma_flags_set_by_presence<'a>(tags: Seq<Tag<'a>>)
    ensures
        has_private(tags) <==> tags.filter(|tag: Tag<'a>| tag is Private).len() >= 1,
        has_ignore(tags) <==> tags.filter(|tag: Tag<'a>| tag is Ignore).len() >= 1,
    decreases tags.len(),
{
    reveal(Seq::filter);
    if tags.len() > 0 {
        let before = tags.drop_last();
        lemma_flags_set_by_presence(before);
        lemma_flags_push(before, tags.last());
        assert(before.push(tags.last()) =~= tags);
    }
}

/// Of several `@type` tags the last one gives the declared type.
pub proof fn lemma_last_type_wins<'a>(tags: Seq<Tag<'a>>, i: int)
    requires
        0 <= i < tags.len(),
        tags[i] is Type,
        forall|j: int| i < j < tags.len() ==> !(tags[j] is Type),
    ensures
        last_type(tags) == Some(tags[i]->Type_0),
    decreases tags.len(),
{
    if i < tags.len() - 1 {
        lemma_last_type_wins(tags.drop_last(), i);
    }
}

/// The tags that a type entry has no use for are exactly the tags of another
/// kind than `@type`, `@field`, `@private`, `@ignore` and the custom tags, in
/// the order given.
pub proof fn lemma_unused_by_type_is_filter<'a>(tags: Seq<Tag<'a>>)
    ensures
        unused_by_type(tags) == tags.filter(|tag: Tag<'a>| !used_by_type(tag)),
    decreases tags.len(),
{
    reveal(Seq::filter);
    if tags.len() > 0 {
        lemma_unused_by_type_is_filter(tags.drop_last());
    }
}

/// One tag that a type entry has no use for is enough for the build to fail,
/// and the batch then holds the diagnostic that points at that tag.
pub proof fn lemma_unused_tag_fails_type<'a>(tags: Seq<Tag<'a>>, i: int)
    requires
        0 <= i < tags.len(),
        !used_by_type(tags[i]),
    ensures
        unused_by_type(tags).len() > 0,
        unused_diagnostics(unused_by_type(tags), UNUSED_BY_TYPE@).contains(
            DiagnosticModel { span: tags[i].span(), message: UNUSED_BY_TYPE@ },
        ),
    decreases tags.len(),
{
    let unused = unused_by_type(tags);
    let reports = unused_diagnostics(unused, UNUSED_BY_TYPE@);
    let report = DiagnosticModel { span: tags[i].span(), message: UNUSED_BY_TYPE@ };
    if i == tags.len() - 1 {
        let j = unused.len() - 1;
        assert(unused[j] == tags[i]);
        assert(reports[j] == report);
    } else {
        let before = tags.drop_last();
        lemma_unused_tag_fails_type(before, i);
        let earlier = unused_diagnostics(unused_by_type(before), UNUSED_BY_TYPE@);
        let j = choose|j: int| 0 <= j < earlier.len() && earlier[j] == report;
        assert(unused[j] == unused_by_type(before)[j]);
        assert(reports[j] == report);
    }
}

} // verus!
