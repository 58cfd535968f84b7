use jldocset::category::{decode_category, EntryType};
use jldocset::normalize::normalize;
use jldocset::parse::{index_line, make_record, parse_search_records};
use jldocset::record::{display_name, entry_of_record, SearchRecord};
use jldocset::DocsetError;

fn record(title: &str, category: EntryType, location: &str, page: &str) -> SearchRecord {
    SearchRecord {
        title: title.to_string(),
        category,
        location: location.to_string(),
        page: page.to_string(),
    }
}

#[test]
fn normalize_directory_location() {
    assert_eq!(normalize("a/b/"), "a/b/index.html");
}

#[test]
fn normalize_directory_anchor() {
    assert_eq!(normalize("a/b/#c"), "a/b/index.html#c");
}

#[test]
fn normalize_concrete_page_unchanged() {
    assert_eq!(normalize("a/b.html#c"), "a/b.html#c");
    assert_eq!(normalize("foo.html"), "foo.html");
}

#[test]
fn normalize_expands_every_directory_anchor() {
    assert_eq!(normalize("a/#b/#c"), "a/index.html#b/index.html#c");
}

#[test]
fn normalize_trailing_slash_wins_over_anchor() {
    assert_eq!(normalize("a/#b/"), "a/#b/index.html");
}

#[test]
fn naming_section_uses_page() {
    let rec = record("Foo", EntryType::Section, "x/", "Bar");
    assert_eq!(display_name(&rec), "Foo - Bar");
}

#[test]
fn naming_other_categories_ignore_page() {
    let rec = record("Foo", EntryType::Method, "x/", "Bar");
    assert_eq!(display_name(&rec), "Foo");
}

#[test]
fn token_page_maps_to_guide() {
    assert_eq!(decode_category("page"), Some(EntryType::Guide));
    assert_eq!(EntryType::Guide.label(), "Guide");
}

#[test]
fn token_method_maps_to_method() {
    assert_eq!(decode_category("method"), Some(EntryType::Method));
    assert_eq!(EntryType::Method.label(), "Method");
}

#[test]
fn unrecognized_token_is_rejected() {
    assert_eq!(decode_category("widget"), None);
    assert_eq!(decode_category("Method"), None);
    let r = make_record(
        "x".to_string(),
        "widget",
        "x/".to_string(),
        "p".to_string(),
    );
    assert!(matches!(r, Err(DocsetError::Parse)));
}

#[test]
fn all_nine_tokens_decode() {
    let pairs = [
        ("macro", "Macro"),
        ("keyword", "Keyword"),
        ("method", "Method"),
        ("function", "Function"),
        ("type", "Type"),
        ("module", "Module"),
        ("constant", "Constant"),
        ("page", "Guide"),
        ("section", "Section"),
    ];
    for (token, label) in pairs {
        let decoded = decode_category(token).unwrap();
        assert_eq!(decoded.label(), label);
    }
}

#[test]
fn entry_of_record_skips_empty_location() {
    let rec = record("Foo", EntryType::Function, "", "Bar");
    assert!(entry_of_record(&rec).is_none());
}

#[test]
fn entry_of_record_builds_triple() {
    let rec = record("bar", EntryType::Function, "bar/#baz", "Home");
    let entry = entry_of_record(&rec).unwrap();
    assert_eq!(entry.name, "bar");
    assert_eq!(entry.type_label, "Function");
    assert_eq!(entry.path, "bar/index.html#baz");
}

#[test]
fn index_line_takes_second_line() {
    assert_eq!(index_line("a\nb\nc").unwrap(), "b");
}

#[test]
fn index_line_strips_carriage_return() {
    assert_eq!(index_line("a\r\nb\r\nc").unwrap(), "b");
}

#[test]
fn index_line_without_second_line_is_read_error() {
    assert_eq!(index_line("only one line"), Err(DocsetError::Read));
    assert_eq!(index_line("a\n"), Err(DocsetError::Read));
    assert_eq!(index_line(""), Err(DocsetError::Read));
}

#[test]
fn parse_reads_records() {
    let line = "[{\"title\":\"bar\",\"category\":\"function\",\"location\":\"bar/#baz\",\"page\":\"Home\"}]";
    let records = parse_search_records(line).unwrap();
    assert_eq!(records.len(), 1);
    assert_eq!(records[0].title, "bar");
    assert_eq!(records[0].category, EntryType::Function);
    assert_eq!(records[0].location, "bar/#baz");
    assert_eq!(records[0].page, "Home");
}

#[test]
fn parse_rejects_non_array() {
    assert!(matches!(
        parse_search_records("{\"title\":\"bar\"}"),
        Err(DocsetError::Parse)
    ));
    assert!(matches!(
        parse_search_records("nonsense"),
        Err(DocsetError::Parse)
    ));
}

#[test]
fn parse_rejects_missing_field() {
    let line = "[{\"title\":\"bar\",\"category\":\"function\",\"location\":\"bar/\"}]";
    assert!(matches!(parse_search_records(line), Err(DocsetError::Parse)));
}

#[test]
fn parse_rejects_non_string_field() {
    let line = "[{\"title\":7,\"category\":\"function\",\"location\":\"bar/\",\"page\":\"Home\"}]";
    assert!(matches!(parse_search_records(line), Err(DocsetError::Parse)));
}

#[test]
fn parse_rejects_unrecognized_token() {
    let line = "[{\"title\":\"bar\",\"category\":\"widget\",\"location\":\"bar/\",\"page\":\"Home\"}]";
    assert!(matches!(parse_search_records(line), Err(DocsetError::Parse)));
}

#[test]
fn error_messages_name_the_stage() {
    assert_eq!(DocsetError::Read.message(), "could not read the search metadata");
    assert_eq!(DocsetError::Parse.message(), "malformed search metadata");
    assert_eq!(DocsetError::Database.message(), "search database failure");
}
