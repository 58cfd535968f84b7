use jldocset::category::EntryType;
use jldocset::db::{
    contains_entry, count_entries, create_index_db, index_search_script, insert_search_index,
    populate_search_index,
};
use jldocset::record::SearchRecord;
use jldocset::DocsetError;

fn record(title: &str, category: EntryType, location: &str, page: &str) -> SearchRecord {
    SearchRecord {
        title: title.to_string(),
        category,
        location: location.to_string(),
        page: page.to_string(),
    }
}

#[test]
fn fresh_database_is_empty() {
    let conn = create_index_db(":memory:").unwrap();
    assert_eq!(count_entries(&conn), Ok(0));
}

#[test]
fn insertion_stores_one_row() {
    let mut conn = create_index_db(":memory:").unwrap();
    let rec = record("Foo", EntryType::Function, "foo/", "Home");
    assert_eq!(insert_search_index(&mut conn, &rec), Ok(1));
    assert_eq!(count_entries(&conn), Ok(1));
    assert_eq!(
        contains_entry(&conn, "Foo", "Function", "foo/index.html"),
        Ok(true)
    );
}

#[test]
fn duplicate_insertion_is_silently_dropped() {
    let mut conn = create_index_db(":memory:").unwrap();
    let rec = record("Foo", EntryType::Function, "foo/", "Home");
    assert_eq!(insert_search_index(&mut conn, &rec), Ok(1));
    assert_eq!(insert_search_index(&mut conn, &rec), Ok(0));
    assert_eq!(count_entries(&conn), Ok(1));
}

#[test]
fn empty_location_never_stores_a_row() {
    let mut conn = create_index_db(":memory:").unwrap();
    let rec = record("Foo", EntryType::Function, "", "Home");
    assert_eq!(insert_search_index(&mut conn, &rec), Ok(0));
    let rec2 = record("Bar", EntryType::Section, "", "Page");
    assert_eq!(insert_search_index(&mut conn, &rec2), Ok(0));
    assert_eq!(count_entries(&conn), Ok(0));
}

#[test]
fn distinct_triples_both_stored() {
    let mut conn = create_index_db(":memory:").unwrap();
    let a = record("Foo", EntryType::Function, "foo/", "Home");
    let b = record("Foo", EntryType::Type, "foo/", "Home");
    assert_eq!(insert_search_index(&mut conn, &a), Ok(1));
    assert_eq!(insert_search_index(&mut conn, &b), Ok(1));
    assert_eq!(count_entries(&conn), Ok(2));
}

#[test]
fn populate_with_no_records_succeeds() {
    let mut conn = create_index_db(":memory:").unwrap();
    let records: Vec<SearchRecord> = vec![];
    assert_eq!(populate_search_index(&mut conn, &records), Ok(()));
    assert_eq!(count_entries(&conn), Ok(0));
}

#[test]
fn populate_offers_records_in_order() {
    let mut conn = create_index_db(":memory:").unwrap();
    let records = vec![
        record("Foo", EntryType::Function, "foo/", "Home"),
        record("Foo", EntryType::Function, "foo/", "Home"),
        record("Skipped", EntryType::Guide, "", "Home"),
        record("Bar - Baz", EntryType::Section, "p/#sec", "Page"),
    ];
    assert_eq!(populate_search_index(&mut conn, &records), Ok(()));
    assert_eq!(count_entries(&conn), Ok(2));
    assert_eq!(
        contains_entry(&conn, "Bar - Baz - Page", "Section", "p/index.html#sec"),
        Ok(true)
    );
}

#[test]
fn end_to_end_single_record() {
    let script = "var documenterSearchIndex = {\"docs\":\n[{\"title\":\"bar\",\"category\":\"function\",\"location\":\"bar/#baz\",\"page\":\"Home\"}]\n}";
    let mut conn = create_index_db(":memory:").unwrap();
    assert_eq!(index_search_script(&mut conn, script), Ok(()));
    assert_eq!(count_entries(&conn), Ok(1));
    assert_eq!(
        contains_entry(&conn, "bar", "Function", "bar/index.html#baz"),
        Ok(true)
    );
}

#[test]
fn section_record_end_to_end() {
    let script = "var x =\n[{\"title\":\"Usage\",\"category\":\"section\",\"location\":\"guide/#usage\",\"page\":\"Guide\"}]\n;";
    let mut conn = create_index_db(":memory:").unwrap();
    assert_eq!(index_search_script(&mut conn, script), Ok(()));
    assert_eq!(
        contains_entry(&conn, "Usage - Guide", "Section", "guide/index.html#usage"),
        Ok(true)
    );
}

#[test]
fn short_script_is_read_error() {
    let mut conn = create_index_db(":memory:").unwrap();
    assert_eq!(
        index_search_script(&mut conn, "single line"),
        Err(DocsetError::Read)
    );
}

#[test]
fn malformed_script_is_parse_error() {
    let mut conn = create_index_db(":memory:").unwrap();
    let script = "var x =\nnot json at all\n;";
    assert_eq!(
        index_search_script(&mut conn, script),
        Err(DocsetError::Parse)
    );
}

#[test]
fn failure_in_second_package_leaves_first_intact() {
    let good = "var a =\n[{\"title\":\"bar\",\"category\":\"function\",\"location\":\"bar/\",\"page\":\"Home\"}]\n;";
    let bad = "var b =\n[{\"title\":\"x\",\"category\":\"widget\",\"location\":\"x/\",\"page\":\"Home\"}]\n;";
    let mut first = create_index_db(":memory:").unwrap();
    assert_eq!(index_search_script(&mut first, good), Ok(()));
    let mut second = create_index_db(":memory:").unwrap();
    assert_eq!(
        index_search_script(&mut second, bad),
        Err(DocsetError::Parse)
    );
    assert_eq!(count_entries(&first), Ok(1));
    assert_eq!(
        contains_entry(&first, "bar", "Function", "bar/index.html"),
        Ok(true)
    );
}
