use doc_tags::doc_comment::{DocComment, OutputSource, Stmt, TokenType, TypeField, TypeInfo};
use doc_tags::doc_entry::class::ClassDocEntry;
use doc_tags::doc_entry::function::FunctionType;
use doc_tags::doc_entry::{
    report_unused, BuildError, DocEntry, DocEntryKind, DocEntryParseArguments,
};
use doc_tags::span::{SourceText, Span};
use doc_tags::tags::parser::parse_tags;
use doc_tags::tags::TagKind;

fn comment(text: &str) -> DocComment {
    DocComment {
        comment: SourceText::new(text),
        stmt: None,
        output_source: OutputSource { path: "a.lua".to_string(), line: 1 },
    }
}

#[test]
fn output_source_clone_is_equal() {
    let source = OutputSource { path: "some/file.lua".to_string(), line: 40 };
    assert_eq!(source.clone(), source);
}

#[test]
fn report_unused_of_nothing_is_nothing() {
    assert!(report_unused(&Vec::new(), "message").is_none());
}

#[test]
fn report_unused_reports_each_tag() {
    let doc = comment("@private\n@since 2\n");
    let parsed = parse_tags(Span::whole(&doc.comment));
    let batch = report_unused(&parsed.tags, "no use").unwrap().into_vec();
    assert_eq!(batch.len(), 2);
    assert_eq!(batch[0].span.as_str(), "private");
    assert_eq!(batch[0].message, "no use");
    assert_eq!(batch[1].span.as_str(), "2");
    assert_eq!(batch[1].message, "no use");
}

#[test]
fn class_entry_is_name_and_description() {
    let doc = comment("");
    let args = DocEntryParseArguments {
        name: "Inventory".to_string(),
        desc: "Holds items.".to_string(),
        within: None,
        tags: Vec::new(),
        source: &doc,
    };
    let entry = ClassDocEntry::parse(args).unwrap();
    assert_eq!(
        entry,
        ClassDocEntry { name: "Inventory".to_string(), desc: "Holds items.".to_string() }
    );
}

#[test]
fn class_entry_has_no_use_for_any_tag() {
    let doc = comment("@private\n@param a A\n@custom\n");
    let parsed = parse_tags(Span::whole(&doc.comment));
    let args = DocEntryParseArguments {
        name: "Inventory".to_string(),
        desc: String::new(),
        within: None,
        tags: parsed.tags,
        source: &doc,
    };
    let batch = ClassDocEntry::parse(args).unwrap_err().into_vec();
    let places: Vec<&str> = batch.iter().map(|diagnostic| diagnostic.span.as_str()).collect();
    assert_eq!(places, vec!["private", "a A", "custom"]);
    for diagnostic in &batch {
        assert_eq!(diagnostic.message, "this tag is unused by class doc entries");
    }
}

#[test]
fn arguments_take_the_scope_from_the_within_tag() {
    let doc = comment("@param a A\n@within Inventory\n@return R\n");
    let parsed = parse_tags(Span::whole(&doc.comment));
    let args = DocEntryParseArguments::new(
        "add".to_string(),
        "Adds.".to_string(),
        Some("Fallback".to_string()),
        parsed.tags,
        &doc,
    );
    assert_eq!(args.name, "add");
    assert_eq!(args.desc, "Adds.");
    assert_eq!(args.within, Some("Inventory".to_string()));
    let kinds: Vec<TagKind> = args.tags.iter().map(|tag| tag.tag_kind()).collect();
    assert_eq!(kinds, vec![TagKind::Param, TagKind::Return]);
    assert!(std::ptr::eq(args.source, &doc));
}

#[test]
fn the_last_within_tag_names_the_scope() {
    let doc = comment("@within First\n@private\n@within Second\n");
    let parsed = parse_tags(Span::whole(&doc.comment));
    let args =
        DocEntryParseArguments::new(String::new(), String::new(), None, parsed.tags, &doc);
    assert_eq!(args.within, Some("Second".to_string()));
    assert_eq!(args.tags.len(), 1);
}

#[test]
fn without_a_within_tag_the_default_names_the_scope() {
    let doc = comment("@private\n");
    let parsed = parse_tags(Span::whole(&doc.comment));
    let args = DocEntryParseArguments::new(
        String::new(),
        String::new(),
        Some("Fallback".to_string()),
        parsed.tags,
        &doc,
    );
    assert_eq!(args.within, Some("Fallback".to_string()));
    let parsed = parse_tags(Span::whole(&doc.comment));
    let args =
        DocEntryParseArguments::new(String::new(), String::new(), None, parsed.tags, &doc);
    assert_eq!(args.within, None);
}

#[test]
fn parse_picks_the_builder_of_the_kind() {
    let doc = comment("");
    let args = |within: Option<&str>| DocEntryParseArguments {
        name: "n".to_string(),
        desc: "d".to_string(),
        within: within.map(|scope| scope.to_string()),
        tags: Vec::new(),
        source: &doc,
    };
    match DocEntry::parse(DocEntryKind::Function(FunctionType::Method), args(Some("S"))) {
        Ok(DocEntry::Function(entry)) => {
            assert_eq!(entry.function_type, FunctionType::Method);
            assert_eq!(entry.within, "S");
        }
        other => panic!("not a function entry: {:?}", other),
    }
    match DocEntry::parse(DocEntryKind::Type, args(Some("S"))) {
        Ok(DocEntry::Type(entry)) => assert_eq!(entry.within, "S"),
        other => panic!("not a type entry: {:?}", other),
    }
    match DocEntry::parse(DocEntryKind::Class, args(None)) {
        Ok(DocEntry::Class(entry)) => assert_eq!(entry.name, "n"),
        other => panic!("not a class entry: {:?}", other),
    }
}

#[test]
fn from_comment_builds_a_function_entry() {
    let doc = comment(
        "Adds two numbers.\n\n@within Math\n@param a number -- first\n@param b number -- second\n@return number\n@since 1.1\n",
    );
    let entry = DocEntry::from_comment(
        DocEntryKind::Function(FunctionType::Static),
        "add".to_string(),
        None,
        &doc,
    );
    match entry {
        Ok(DocEntry::Function(entry)) => {
            assert_eq!(entry.name, "add");
            assert_eq!(entry.desc, "Adds two numbers.");
            assert_eq!(entry.within, "Math");
            assert_eq!(entry.params.len(), 2);
            assert_eq!(entry.params[1].desc.as_str(), "second");
            assert_eq!(entry.returns.len(), 1);
            assert_eq!(entry.since, Some("1.1".to_string()));
            assert_eq!(entry.deprecated, None);
        }
        other => panic!("not a function entry: {:?}", other),
    }
}

#[test]
fn from_comment_builds_a_type_entry() {
    let doc = DocComment {
        comment: SourceText::new("A point.\n@field y string -- the y value\n@ignore\n"),
        stmt: Some(Stmt::ExportedTypeDeclaration(TypeInfo::Table {
            fields: vec![TypeField {
                key: vec![TokenType::Identifier { identifier: "x".to_string() }],
                leading_trivia: vec![TokenType::SingleLineComment {
                    comment: " the x value".to_string(),
                }],
                value: "number".to_string(),
            }],
        })),
        output_source: OutputSource { path: "point.lua".to_string(), line: 9 },
    };
    let entry = DocEntry::from_comment(
        DocEntryKind::Type,
        "Point".to_string(),
        Some("Geometry".to_string()),
        &doc,
    );
    match entry {
        Ok(DocEntry::Type(entry)) => {
            assert_eq!(entry.desc, "A point.");
            assert_eq!(entry.within, "Geometry");
            assert_eq!(entry.fields.len(), 2);
            assert_eq!(entry.fields[0].name, "x");
            assert_eq!(entry.fields[0].desc, "the x value");
            assert_eq!(entry.fields[1].name, "y");
            assert!(entry.ignore);
            assert!(!entry.private);
            assert_eq!(entry.output_source.line, 9);
        }
        other => panic!("not a type entry: {:?}", other),
    }
}

#[test]
fn from_comment_builds_a_class_entry_without_a_scope() {
    let doc = comment("  Holds items.  ");
    let entry = DocEntry::from_comment(DocEntryKind::Class, "Inventory".to_string(), None, &doc);
    assert_eq!(
        entry,
        Ok(DocEntry::Class(ClassDocEntry {
            name: "Inventory".to_string(),
            desc: "Holds items.".to_string()
        }))
    );
}

#[test]
fn a_missing_scope_is_told_apart() {
    let doc = comment("Adds.\n@param a number\n");
    let function = DocEntry::from_comment(
        DocEntryKind::Function(FunctionType::Static),
        "add".to_string(),
        None,
        &doc,
    );
    assert_eq!(function, Err(BuildError::MissingScope));
    let type_entry = DocEntry::from_comment(DocEntryKind::Type, "T".to_string(), None, &doc);
    assert_eq!(type_entry, Err(BuildError::MissingScope));
}

#[test]
fn a_malformed_within_tag_names_no_scope() {
    let doc = comment("Adds.\n@within\n");
    let entry = DocEntry::from_comment(
        DocEntryKind::Function(FunctionType::Static),
        "add".to_string(),
        None,
        &doc,
    );
    assert_eq!(entry, Err(BuildError::MissingScope));
}

#[test]
fn from_comment_gathers_parsing_and_building_diagnostics() {
    let doc = comment(
        "Adds.\n@private\n@param\n@param a number\n@field x number\n@return\n@within Math\n",
    );
    let entry = DocEntry::from_comment(
        DocEntryKind::Function(FunctionType::Static),
        "add".to_string(),
        None,
        &doc,
    );
    match entry {
        Err(BuildError::Diagnostics(batch)) => {
            let messages: Vec<String> =
                batch.into_vec().into_iter().map(|diagnostic| diagnostic.message).collect();
            assert_eq!(
                messages,
                vec![
                    "expected a parameter name",
                    "expected a return type",
                    "this tag is unused by function doc entries",
                    "this tag is unused by function doc entries",
                ]
            );
        }
        other => panic!("not a batch of diagnostics: {:?}", other),
    }
}

#[test]
fn one_malformed_tag_is_enough_to_fail() {
    let doc = comment("@within Math\n@param a number\n@return\n");
    let entry = DocEntry::from_comment(
        DocEntryKind::Function(FunctionType::Static),
        "add".to_string(),
        None,
        &doc,
    );
    match entry {
        Err(BuildError::Diagnostics(batch)) => {
            assert_eq!(batch.len(), 1);
            assert_eq!(batch.get(0).message, "expected a return type");
            assert_eq!(batch.get(0).span.line(), 2);
        }
        other => panic!("not a batch of diagnostics: {:?}", other),
    }
}

#[test]
fn an_empty_scope_is_a_missing_scope() {
    let doc = comment("Adds.\n@param a number\n");
    let function = DocEntry::from_comment(
        DocEntryKind::Function(FunctionType::Static),
        "add".to_string(),
        Some(String::new()),
        &doc,
    );
    assert_eq!(function, Err(BuildError::MissingScope));
    let type_entry =
        DocEntry::from_comment(DocEntryKind::Type, "T".to_string(), Some(String::new()), &doc);
    assert_eq!(type_entry, Err(BuildError::MissingScope));
    let empty = comment("");
    let function = DocEntry::from_comment(
        DocEntryKind::Function(FunctionType::Method),
        "add".to_string(),
        Some(String::new()),
        &empty,
    );
    assert_eq!(function, Err(BuildError::MissingScope));
}

#[test]
fn a_within_tag_makes_up_for_an_empty_default() {
    let doc = comment("Adds.\n@within Math\n");
    let entry = DocEntry::from_comment(
        DocEntryKind::Function(FunctionType::Static),
        "add".to_string(),
        Some(String::new()),
        &doc,
    );
    match entry {
        Ok(DocEntry::Function(entry)) => assert_eq!(entry.within, "Math"),
        other => panic!("not a function entry: {:?}", other),
    }
}

#[test]
fn a_class_entry_needs_no_scope_even_if_empty() {
    let doc = comment("Holds items.");
    let entry = DocEntry::from_comment(
        DocEntryKind::Class,
        "Inventory".to_string(),
        Some(String::new()),
        &doc,
    );
    assert!(matches!(entry, Ok(DocEntry::Class(_))));
}

#[test]
fn a_built_entry_has_a_scope() {
    let doc = comment("Adds.\n");
    let entry = DocEntry::from_comment(
        DocEntryKind::Type,
        "T".to_string(),
        Some("S".to_string()),
        &doc,
    );
    match entry {
        Ok(DocEntry::Type(entry)) => assert!(!entry.within.is_empty()),
        other => panic!("not a type entry: {:?}", other),
    }
}
