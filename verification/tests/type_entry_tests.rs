use doc_tags::doc_comment::{DocComment, OutputSource, Stmt, TokenType, TypeField, TypeInfo};
use doc_tags::doc_entry::type_definition::{
    description_of_trivia, fields_of_statement, name_of_key, Field, TypeDocEntry,
};
use doc_tags::doc_entry::DocEntryParseArguments;
use doc_tags::span::{trimmed_copy, SourceText, Span};
use doc_tags::tags::field::FieldTag;
use doc_tags::tags::parser::parse_tags;

fn identifier(text: &str) -> TokenType {
    TokenType::Identifier { identifier: text.to_string() }
}

fn single(text: &str) -> TokenType {
    TokenType::SingleLineComment { comment: text.to_string() }
}

fn multi(text: &str) -> TokenType {
    TokenType::MultiLineComment { comment: text.to_string() }
}

fn field(name: &str, lua_type: &str, desc: &str) -> Field {
    Field { name: name.to_string(), lua_type: lua_type.to_string(), desc: desc.to_string() }
}

fn table(fields: Vec<TypeField>) -> Option<Stmt> {
    Some(Stmt::ExportedTypeDeclaration(TypeInfo::Table { fields }))
}

fn field_x() -> TypeField {
    TypeField {
        key: vec![identifier("x")],
        leading_trivia: vec![TokenType::Other, single(" the x value"), TokenType::Other],
        value: "number".to_string(),
    }
}

fn comment(text: &str, stmt: Option<Stmt>) -> DocComment {
    DocComment {
        comment: SourceText::new(text),
        stmt,
        output_source: OutputSource { path: "src/point.lua".to_string(), line: 3 },
    }
}

fn arguments<'a>(doc: &'a DocComment) -> DocEntryParseArguments<'a> {
    let parsed = parse_tags(Span::whole(&doc.comment));
    assert!(parsed.diagnostics.is_empty());
    DocEntryParseArguments {
        name: "Point".to_string(),
        desc: "A point.".to_string(),
        within: Some("Geometry".to_string()),
        tags: parsed.tags,
        source: doc,
    }
}

#[test]
fn field_from_a_field_tag() {
    let source = SourceText::new("y string -- the y value");
    let tag = FieldTag::parse(Span::whole(&source)).unwrap();
    assert_eq!(Field::from(tag), field("y", "string", "the y value"));
}

#[test]
fn key_name_is_the_first_identifier() {
    assert_eq!(name_of_key(&vec![identifier("x")]), "x");
    assert_eq!(name_of_key(&vec![TokenType::Other, identifier("a"), identifier("b")]), "a");
    assert_eq!(name_of_key(&vec![TokenType::Other, single("x")]), "");
    assert_eq!(name_of_key(&Vec::new()), "");
}

#[test]
fn description_of_a_single_comment() {
    assert_eq!(description_of_trivia(&vec![single(" the x value")]), "the x value");
}

#[test]
fn description_joins_the_comment_lines() {
    let trivia = vec![
        TokenType::Other,
        single(" first line  "),
        TokenType::Other,
        single("second line"),
        multi("\n    third\n    fourth  \n"),
    ];
    assert_eq!(description_of_trivia(&trivia), "first line\nsecond line\n\nthird\nfourth");
}

#[test]
fn description_keeps_empty_lines_inside() {
    assert_eq!(description_of_trivia(&vec![multi("a\n\n\n  b")]), "a\n\n\nb");
    assert_eq!(description_of_trivia(&vec![single("a"), single(""), single("b")]), "a\nb");
    assert_eq!(description_of_trivia(&vec![single("a"), single(" "), single("b")]), "a\n\nb");
}

#[test]
fn description_is_trimmed_as_a_whole() {
    assert_eq!(description_of_trivia(&vec![multi("\n\n  text\n\n")]), "text");
    assert_eq!(description_of_trivia(&vec![single("  "), single("x"), single("  ")]), "x");
}

#[test]
fn description_handles_carriage_returns() {
    assert_eq!(description_of_trivia(&vec![multi("one\r\ntwo\r\n")]), "one\ntwo");
}

#[test]
fn description_without_comments_is_empty() {
    assert_eq!(description_of_trivia(&Vec::new()), "");
    assert_eq!(description_of_trivia(&vec![TokenType::Other, identifier("x")]), "");
    assert_eq!(description_of_trivia(&vec![single("")]), "");
}

#[test]
fn a_table_field_with_a_comment_gives_one_field() {
    let doc = comment("A point.", table(vec![field_x()]));
    let entry = TypeDocEntry::parse(arguments(&doc)).unwrap();
    assert_eq!(entry.fields, vec![field("x", "number", "the x value")]);
}

#[test]
fn an_explicit_field_tag_adds_a_second_field() {
    let doc = comment("A point.\n@field y string -- the y value\n", table(vec![field_x()]));
    let entry = TypeDocEntry::parse(arguments(&doc)).unwrap();
    assert_eq!(
        entry.fields,
        vec![field("x", "number", "the x value"), field("y", "string", "the y value")]
    );
}

#[test]
fn fields_are_declared_fields_then_field_tags() {
    let declared = vec![
        field_x(),
        TypeField { key: vec![identifier("z")], leading_trivia: vec![], value: "Vector3".to_string() },
        TypeField {
            key: vec![TokenType::Other],
            leading_trivia: vec![multi(" indexer ")],
            value: "any".to_string(),
        },
    ];
    let doc = comment("@field a A -- the a\n@private\n@field x X\n", table(declared));
    let entry = TypeDocEntry::parse(arguments(&doc)).unwrap();
    assert_eq!(
        entry.fields,
        vec![
            field("x", "number", "the x value"),
            field("z", "Vector3", ""),
            field("", "any", "indexer"),
            field("a", "A", "the a"),
            field("x", "X", ""),
        ]
    );
    assert_eq!(entry.fields.len(), 3 + 2);
}

#[test]
fn only_exported_table_types_show_fields() {
    assert!(fields_of_statement(&None).is_empty());
    assert!(fields_of_statement(&Some(Stmt::Other)).is_empty());
    assert!(fields_of_statement(&Some(Stmt::ExportedTypeDeclaration(TypeInfo::Other))).is_empty());
    assert!(fields_of_statement(&table(Vec::new())).is_empty());
    assert_eq!(fields_of_statement(&table(vec![field_x()])), vec![field("x", "number", "the x value")]);
}

#[test]
fn field_tags_alone_give_the_fields() {
    let doc = comment("@field y string -- the y value\n", Some(Stmt::Other));
    let entry = TypeDocEntry::parse(arguments(&doc)).unwrap();
    assert_eq!(entry.fields, vec![field("y", "string", "the y value")]);
}

#[test]
fn type_entry_without_tags() {
    let doc = comment("A point.", None);
    let entry = TypeDocEntry::parse(arguments(&doc)).unwrap();
    assert_eq!(entry.name, "Point");
    assert_eq!(entry.desc, "A point.");
    assert_eq!(entry.within, "Geometry");
    assert_eq!(entry.lua_type, None);
    assert!(entry.fields.is_empty());
    assert!(entry.tags.is_empty());
    assert!(!entry.private);
    assert!(!entry.ignore);
    assert_eq!(entry.output_source, OutputSource { path: "src/point.lua".to_string(), line: 3 });
    assert!(std::ptr::eq(entry.source, &doc));
}

#[test]
fn the_last_type_tag_wins() {
    let doc = comment("@type { x: number }\n@type Vector2\n", None);
    let entry = TypeDocEntry::parse(arguments(&doc)).unwrap();
    assert_eq!(entry.lua_type, Some("Vector2".to_string()));
}

#[test]
fn private_and_ignore_set_their_flags() {
    let doc = comment("@private\n", None);
    let entry = TypeDocEntry::parse(arguments(&doc)).unwrap();
    assert!(entry.private);
    assert!(!entry.ignore);
    let doc = comment("@ignore\n", None);
    let entry = TypeDocEntry::parse(arguments(&doc)).unwrap();
    assert!(!entry.private);
    assert!(entry.ignore);
}

#[test]
fn flags_given_often_are_still_set() {
    let doc = comment("@private\n@ignore\n@private\n@private\n@ignore\n", None);
    let entry = TypeDocEntry::parse(arguments(&doc)).unwrap();
    assert!(entry.private);
    assert!(entry.ignore);
}

#[test]
fn custom_tags_are_kept_in_order() {
    let doc = comment("@external Roact https://roact\n@private\n@tag utility\n", None);
    let entry = TypeDocEntry::parse(arguments(&doc)).unwrap();
    let names: Vec<&str> = entry.tags.iter().map(|tag| tag.name.as_str()).collect();
    let texts: Vec<&str> = entry.tags.iter().map(|tag| tag.text.as_str()).collect();
    assert_eq!(names, vec!["external", "tag"]);
    assert_eq!(texts, vec![" Roact https://roact\n", " utility\n"]);
}

#[test]
fn every_tag_without_use_fails_a_type_entry() {
    let doc = comment(
        "@field y string\n@param a A\n@private\n@return R\n@marker m\n@since 1\n@deprecated\n@within W\n",
        table(vec![field_x()]),
    );
    let batch = TypeDocEntry::parse(arguments(&doc)).unwrap_err().into_vec();
    let places: Vec<&str> = batch.iter().map(|diagnostic| diagnostic.span.as_str()).collect();
    assert_eq!(places, vec!["a A", "R", "m", "1", "", "W"]);
    for diagnostic in &batch {
        assert_eq!(diagnostic.message, "this tag is unused by type doc entries");
    }
}

#[test]
fn the_type_text_of_a_declared_field_is_trimmed() {
    let declared = vec![
        TypeField {
            key: vec![identifier("x")],
            leading_trivia: vec![],
            value: "number ".to_string(),
        },
        TypeField {
            key: vec![identifier("y")],
            leading_trivia: vec![],
            value: "  { a: string }\n".to_string(),
        },
    ];
    let doc = comment("", table(declared));
    let entry = TypeDocEntry::parse(arguments(&doc)).unwrap();
    assert_eq!(entry.fields, vec![field("x", "number", ""), field("y", "{ a: string }", "")]);
}

#[test]
fn a_declared_field_reads_as_its_field_tag_would() {
    let declared = vec![TypeField {
        key: vec![identifier("x")],
        leading_trivia: vec![],
        value: "number ".to_string(),
    }];
    let source = SourceText::new("x number");
    let tag = FieldTag::parse(Span::whole(&source)).unwrap();
    assert_eq!(fields_of_statement(&table(declared)), vec![Field::from(tag)]);
}

#[test]
fn trimmed_copy_cuts_both_ends() {
    assert_eq!(trimmed_copy("  a b \n"), "a b");
    assert_eq!(trimmed_copy("a"), "a");
    assert_eq!(trimmed_copy(" \t "), "");
    assert_eq!(trimmed_copy(""), "");
}
