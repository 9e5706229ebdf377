use doc_tags::doc_comment::{DocComment, OutputSource};
use doc_tags::doc_entry::function::{FunctionDocEntry, FunctionType};
use doc_tags::doc_entry::DocEntryParseArguments;
use doc_tags::span::{SourceText, Span};
use doc_tags::tags::parser::parse_tags;
use doc_tags::tags::Tag;

fn comment(text: &str) -> DocComment {
    DocComment {
        comment: SourceText::new(text),
        stmt: None,
        output_source: OutputSource { path: "src/init.lua".to_string(), line: 12 },
    }
}

fn tags_of<'a>(doc: &'a DocComment) -> Vec<Tag<'a>> {
    let parsed = parse_tags(Span::whole(&doc.comment));
    assert!(parsed.diagnostics.is_empty());
    parsed.tags
}

fn arguments<'a>(doc: &'a DocComment) -> DocEntryParseArguments<'a> {
    DocEntryParseArguments {
        name: "add".to_string(),
        desc: "Adds.".to_string(),
        within: Some("Math".to_string()),
        tags: tags_of(doc),
        source: doc,
    }
}

#[test]
fn function_entry_without_tags() {
    let doc = comment("Adds.");
    let entry = FunctionDocEntry::parse(arguments(&doc), FunctionType::Static).unwrap();
    assert_eq!(entry.name, "add");
    assert_eq!(entry.desc, "Adds.");
    assert_eq!(entry.within, "Math");
    assert!(entry.params.is_empty());
    assert!(entry.returns.is_empty());
    assert!(entry.markers.is_empty());
    assert_eq!(entry.function_type, FunctionType::Static);
    assert_eq!(entry.since, None);
    assert_eq!(entry.deprecated, None);
    assert!(std::ptr::eq(entry.source, &doc));
}

#[test]
fn function_type_is_kept() {
    let doc = comment("");
    let entry = FunctionDocEntry::parse(arguments(&doc), FunctionType::Method).unwrap();
    assert_eq!(entry.function_type, FunctionType::Method);
}

#[test]
fn function_entry_folds_its_tags() {
    let doc = comment(
        "@param a number -- first\n@return number -- the sum\n@marker yields\n@param b number\n@return string\n@since 0.2.0\n@deprecated 0.3.0 -- use plus\n@marker server\n",
    );
    let entry = FunctionDocEntry::parse(arguments(&doc), FunctionType::Static).unwrap();
    let params: Vec<&str> = entry.params.iter().map(|param| param.name.as_str()).collect();
    assert_eq!(params, vec!["a", "b"]);
    assert_eq!(entry.params[0].desc.as_str(), "first");
    let returns: Vec<&str> = entry.returns.iter().map(|tag| tag.lua_type.as_str()).collect();
    assert_eq!(returns, vec!["number", "string"]);
    let markers: Vec<&str> = entry.markers.iter().map(|marker| marker.name.as_str()).collect();
    assert_eq!(markers, vec!["yields", "server"]);
    assert_eq!(entry.since, Some("0.2.0".to_string()));
    assert_eq!(entry.deprecated.unwrap().text.as_str(), "0.3.0 -- use plus");
}

#[test]
fn a_param_given_twice_is_kept_twice() {
    let doc = comment("@param a number -- one\n@param a number -- two\n");
    let entry = FunctionDocEntry::parse(arguments(&doc), FunctionType::Static).unwrap();
    assert_eq!(entry.params.len(), 2);
    assert_eq!(entry.params[0].name.as_str(), "a");
    assert_eq!(entry.params[0].desc.as_str(), "one");
    assert_eq!(entry.params[1].name.as_str(), "a");
    assert_eq!(entry.params[1].desc.as_str(), "two");
}

#[test]
fn params_are_as_many_as_param_tags() {
    let doc = comment("@param a A\n@return R\n@param b B\n@param c C\n@marker m\n@param d D\n");
    let entry = FunctionDocEntry::parse(arguments(&doc), FunctionType::Static).unwrap();
    assert_eq!(entry.params.len(), 4);
    let names: Vec<&str> = entry.params.iter().map(|param| param.name.as_str()).collect();
    assert_eq!(names, vec!["a", "b", "c", "d"]);
}

#[test]
fn the_last_deprecated_wins() {
    let doc = comment("@deprecated first reason\n@param a A\n@deprecated second reason\n");
    let entry = FunctionDocEntry::parse(arguments(&doc), FunctionType::Static).unwrap();
    assert_eq!(entry.deprecated.unwrap().text.as_str(), "second reason");
}

#[test]
fn the_last_since_wins() {
    let doc = comment("@since 1.0\n@since 2.0\n@since 3.0\n");
    let entry = FunctionDocEntry::parse(arguments(&doc), FunctionType::Static).unwrap();
    assert_eq!(entry.since, Some("3.0".to_string()));
}

#[test]
fn deprecated_and_since_may_stand_alone() {
    let doc = comment("@deprecated\n@since\n");
    let entry = FunctionDocEntry::parse(arguments(&doc), FunctionType::Static).unwrap();
    assert_eq!(entry.since, Some(String::new()));
    assert!(entry.deprecated.unwrap().text.is_empty());
}

fn unused_by_function(text: &str) -> Vec<(String, String)> {
    let doc = comment(text);
    let batch = FunctionDocEntry::parse(arguments(&doc), FunctionType::Static).unwrap_err();
    batch
        .into_vec()
        .into_iter()
        .map(|diagnostic| (diagnostic.span.as_str().to_string(), diagnostic.message))
        .collect()
}

#[test]
fn each_other_kind_fails_a_function_entry() {
    let message = "this tag is unused by function doc entries".to_string();
    assert_eq!(
        unused_by_function("@field x number"),
        vec![("x number".to_string(), message.clone())]
    );
    assert_eq!(unused_by_function("@type T"), vec![("T".to_string(), message.clone())]);
    assert_eq!(unused_by_function("@private"), vec![("private".to_string(), message.clone())]);
    assert_eq!(unused_by_function("@ignore"), vec![("ignore".to_string(), message.clone())]);
    assert_eq!(unused_by_function("@within Scope"), vec![("Scope".to_string(), message.clone())]);
    assert_eq!(unused_by_function("@unknown text"), vec![("unknown".to_string(), message)]);
}

#[test]
fn every_unused_tag_is_reported() {
    let reports = unused_by_function(
        "@param a A\n@field x number\n@return R\n@private\n@since 1\n@type T\n@deprecated\n",
    );
    let places: Vec<&str> = reports.iter().map(|(place, _)| place.as_str()).collect();
    assert_eq!(places, vec!["x number", "private", "T"]);
    for (_, message) in &reports {
        assert_eq!(message, "this tag is unused by function doc entries");
    }
}

#[test]
fn unused_diagnostics_point_at_their_tags() {
    let doc = comment("intro\n@private\n  @type T\n");
    let batch = FunctionDocEntry::parse(arguments(&doc), FunctionType::Static).unwrap_err();
    assert_eq!(batch.len(), 2);
    assert_eq!(batch.get(0).span.line(), 1);
    assert_eq!(batch.get(0).span.column(), 1);
    assert_eq!(batch.get(1).span.line(), 2);
    assert_eq!(batch.get(1).span.column(), 8);
}
