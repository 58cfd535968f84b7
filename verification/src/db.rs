//! The index database builder: a fresh SQLite store with one search
//! table, unique by `(name, type, path)`, filled from search records
//! with duplicates silently dropped and empty locations skipped.
//!
//! The store is reached through rusqlite behind trusted declarations.
//! Its visible contents are modeled as the set of stored triples,
//! `db_rows`; `db_schema_ok` says that the search table and its
//! uniqueness index exist, so that each triple is stored at most once.

use vstd::prelude::*;

use crate::category::spec_decode_category;
use crate::parse::{
    index_line, json_array_of, parse_search_records, spec_line_parses, spec_record_fields,
    spec_record_matches, spec_second_line, spec_value_parses,
};
use crate::record::{display_name, spec_entry, spec_entry_of, SearchRecord};
use crate::DocsetError;

verus! {

/// Declares rusqlite::Connection, the handle to one SQLite database.
#[verifier::external_type_specification]
#[verifier::external_body]
pub struct ExConnection(rusqlite::Connection);

/// Declares rusqlite::Error so the trusted calls can hand it back.
#[verifier::external_type_specification]
#[verifier::external_body]
pub struct ExRusqliteError(rusqlite::Error);

/// The set of `(name, type, path)` triples stored in the search table
/// reached through this connection.
pub uninterp spec fn db_rows(conn: rusqlite::Connection) -> Set<(Seq<char>, Seq<char>, Seq<char>)>;

/// Whether the search table and its uniqueness index over
/// `(name, type, path)` exist behind this connection, so that each
/// triple is stored at most once.
pub uninterp spec fn db_schema_ok(conn: rusqlite::Connection) -> bool;

/// Relies on rusqlite::Connection::open: opens the SQLite database at
/// `path`, creating the file when it is absent.
#[verifier::external_body]
fn db_open(path: &str) -> (r: Result<rusqlite::Connection, rusqlite::Error>) {
    rusqlite::Connection::open(path)
}

/// Relies on rusqlite::Connection::execute_batch: creates the search
/// table and its uniqueness index in one transaction, so a partial
/// schema is never left behind. On success the table exists and holds
/// nothing.
#[verifier::external_body]
fn db_create_schema(conn: &mut rusqlite::Connection) -> (r: Result<(), rusqlite::Error>)
    ensures
        r is Ok ==> db_schema_ok(*final(conn)),
        r is Ok ==> db_rows(*final(conn)) == Set::<(Seq<char>, Seq<char>, Seq<char>)>::empty(),
{
    conn.execute_batch(
        "BEGIN;
        CREATE TABLE searchIndex(id INTEGER PRIMARY KEY, name TEXT, type TEXT, path TEXT);
        CREATE UNIQUE INDEX anchor ON searchIndex (name, type, path);
        COMMIT;",
    )
}

/// Relies on rusqlite::Connection::execute with INSERT OR IGNORE: stores
/// the triple unless the uniqueness index already holds it; the count of
/// affected rows reports which of the two happened. A failed statement
/// is atomic in SQLite: it changes no rows and leaves the schema standing.
#[verifier::external_body]
fn db_insert(conn: &mut rusqlite::Connection, name: &str, type_label: &str, path: &str) -> (r:
    Result<usize, rusqlite::Error>)
    requires
        db_schema_ok(*old(conn)),
    ensures
        db_schema_ok(*final(conn)),
        r is Ok ==> db_rows(*final(conn)) == db_rows(*old(conn)).insert(
            (name@, type_label@, path@),
        ),
        r is Ok ==> r->Ok_0 == (if db_rows(*old(conn)).contains((name@, type_label@, path@)) {
            0usize
        } else {
            1usize
        }),
        r is Err ==> db_rows(*final(conn)) == db_rows(*old(conn)),
{
    conn.execute(
        "INSERT OR IGNORE INTO searchIndex(name, type, path) VALUES (?1, ?2, ?3)",
        (name, type_label, path),
    )
}

/// Relies on rusqlite::Connection::query_row counting the search table:
/// the number of stored rows, which is the number of stored triples
/// because the uniqueness index admits each triple once.
#[verifier::external_body]
fn db_count(conn: &rusqlite::Connection) -> (r: Result<usize, rusqlite::Error>)
    requires
        db_schema_ok(*conn),
    ensures
        r is Ok ==> r->Ok_0 as nat == db_rows(*conn).len(),
{
    conn.query_row("SELECT COUNT(*) FROM searchIndex", [], |row| row.get::<_, i64>(0)).map(
        |n| n as usize,
    )
}

/// Relies on rusqlite::Connection::query_row counting the rows equal to
/// the triple: 1 when the triple is stored, else 0, again because the
/// uniqueness index admits each triple once.
#[verifier::external_body]
fn db_count_matching(conn: &rusqlite::Connection, name: &str, type_label: &str, path: &str) -> (r:
    Result<usize, rusqlite::Error>)
    requires
        db_schema_ok(*conn),
    ensures
        r is Ok ==> r->Ok_0 == (if db_rows(*conn).contains((name@, type_label@, path@)) {
            1usize
        } else {
            0usize
        }),
{
    conn.query_row(
        "SELECT COUNT(*) FROM searchIndex WHERE name = ?1 AND type = ?2 AND path = ?3",
        (name, type_label, path),
        |row| row.get::<_, i64>(0),
    ).map(|n| n as usize)
}

/// The stored triples after one record is offered: unchanged for a
/// record without a location, else with the record's entry added (a
/// triple already present stays stored once).
pub open spec fn spec_insert_rows(
    rows: Set<(Seq<char>, Seq<char>, Seq<char>)>,
    rec: SearchRecord,
) -> Set<(Seq<char>, Seq<char>, Seq<char>)> {
    if rec.location@.len() == 0 {
        rows
    } else {
        rows.insert(spec_entry(rec))
    }
}

/// The stored triples after every record of `recs` is offered in order.
pub open spec fn spec_populate(
    rows: Set<(Seq<char>, Seq<char>, Seq<char>)>,
    recs: Seq<SearchRecord>,
) -> Set<(Seq<char>, Seq<char>, Seq<char>)>
    decreases recs.len(),
{
    if recs.len() == 0 {
        rows
    } else {
        spec_insert_rows(spec_populate(rows, recs.drop_last()), recs.last())
    }
}

/// The entries of the records of `recs` that carry a location.
pub open spec fn spec_entries(recs: Seq<SearchRecord>) -> Set<(Seq<char>, Seq<char>, Seq<char>)> {
    Set::new(
        |e: (Seq<char>, Seq<char>, Seq<char>)|
            exists|i: int|
                0 <= i < recs.len() && recs[i].location@.len() > 0 && e == spec_entry(recs[i]),
    )
}

/// The entry a parsed JSON value is stored under.
pub open spec fn spec_value_entry(v: serde_json::Value) -> (Seq<char>, Seq<char>, Seq<char>) {
    spec_entry_of(
        (spec_record_fields(v)->0).0,
        spec_decode_category((spec_record_fields(v)->0).1)->0,
        (spec_record_fields(v)->0).2,
        (spec_record_fields(v)->0).3,
    )
}

/// The entries of the records the values of `vals` parse into, for
/// values whose record carries a location.
pub open spec fn spec_value_entries(vals: Seq<serde_json::Value>) -> Set<
    (Seq<char>, Seq<char>, Seq<char>),
> {
    Set::new(
        |e: (Seq<char>, Seq<char>, Seq<char>)|
            exists|i: int|
                0 <= i < vals.len() && #[trigger] spec_value_parses(vals[i]) && (spec_record_fields(
                    vals[i],
                )->0).2.len() > 0 && e == spec_value_entry(vals[i]),
    )
}

/// Records that parse out of values carry the same entries, record for
/// record, so the two entry sets coincide.
proof fn lemma_entries_of_matching(vals: Seq<serde_json::Value>, recs: Seq<SearchRecord>)
    requires
        recs.len() == vals.len(),
        forall|j: int| 0 <= j < vals.len() ==> spec_record_matches(#[trigger] vals[j], recs[j]),
    ensures
        spec_entries(recs) == spec_value_entries(vals),
{
    assert forall|e: (Seq<char>, Seq<char>, Seq<char>)|
        spec_entries(recs).contains(e) implies spec_value_entries(vals).contains(e) by {
        let i = choose|i: int|
            0 <= i < recs.len() && recs[i].location@.len() > 0 && e == spec_entry(recs[i]);
        assert(spec_record_matches(vals[i], recs[i]));
        assert(spec_entry(recs[i]) == spec_value_entry(vals[i]));
        assert(0 <= i < vals.len() && spec_value_parses(vals[i]) && (spec_record_fields(
            vals[i],
        )->0).2.len() > 0 && e == spec_value_entry(vals[i]));
    }
    assert forall|e: (Seq<char>, Seq<char>, Seq<char>)|
        spec_value_entries(vals).contains(e) implies spec_entries(recs).contains(e) by {
        let i = choose|i: int|
            0 <= i < vals.len() && #[trigger] spec_value_parses(vals[i]) && (spec_record_fields(
                vals[i],
            )->0).2.len() > 0 && e == spec_value_entry(vals[i]);
        assert(spec_record_matches(vals[i], recs[i]));
        assert(spec_entry(recs[i]) == spec_value_entry(vals[i]));
        assert(0 <= i < recs.len() && recs[i].location@.len() > 0 && e == spec_entry(recs[i]));
    }
    assert(spec_entries(recs) =~= spec_value_entries(vals));
}

/// Law (deduplicated population): offering records in order stores
/// exactly the union of what was stored and the entries of the records
/// that carry a location — each entry once, in whatever order the
/// records came.
pub proof fn lemma_populate_is_union(
    rows: Set<(Seq<char>, Seq<char>, Seq<char>)>,
    recs: Seq<SearchRecord>,
)
    ensures
        spec_populate(rows, recs) == rows.union(spec_entries(recs)),
    decreases recs.len(),
{
    if recs.len() == 0 {
        assert(spec_populate(rows, recs) =~= rows.union(spec_entries(recs)));
    } else {
        let prefix = recs.drop_last();
        let last = recs.last();
        lemma_populate_is_union(rows, prefix);
        assert forall|e: (Seq<char>, Seq<char>, Seq<char>)|
            spec_entries(prefix).contains(e) implies spec_entries(recs).contains(e) by {
            let i = choose|i: int|
                0 <= i < prefix.len() && prefix[i].location@.len() > 0 && e == spec_entry(
                    prefix[i],
                );
            assert(recs[i] == prefix[i]);
            assert(0 <= i < recs.len() && recs[i].location@.len() > 0 && e == spec_entry(recs[i]));
        }
        assert forall|e: (Seq<char>, Seq<char>, Seq<char>)|
            spec_entries(recs).contains(e) implies (spec_entries(prefix).contains(e) || (
        last.location@.len() > 0 && e == spec_entry(last))) by {
            let i = choose|i: int|
                0 <= i < recs.len() && recs[i].location@.len() > 0 && e == spec_entry(recs[i]);
            if i < recs.len() - 1 {
                assert(prefix[i] == recs[i]);
                assert(0 <= i < prefix.len() && prefix[i].location@.len() > 0 && e == spec_entry(
                    prefix[i],
                ));
            } else {
                assert(recs[i] == last);
            }
        }
        if last.location@.len() > 0 {
            assert(0 <= recs.len() - 1 < recs.len() && recs[recs.len() - 1].location@.len() > 0
                && spec_entry(last) == spec_entry(recs[recs.len() - 1]));
            assert(spec_entries(recs).contains(spec_entry(last)));
            assert(spec_populate(rows, recs) =~= rows.union(spec_entries(recs)));
        } else {
            assert(spec_populate(rows, recs) =~= rows.union(spec_entries(recs)));
        }
    }
}

/// Law (idempotent insertion): offering a record to a store that
/// already came from offering it changes nothing, and the record's
/// entry is stored after the first offer. Together with the `ensures`
/// of `insert_search_index`, the second of two equal insertions leaves
/// the store as it was and reports zero affected rows.
pub proof fn lemma_insert_idempotent(
    rows: Set<(Seq<char>, Seq<char>, Seq<char>)>,
    rec: SearchRecord,
)
    ensures
        spec_insert_rows(spec_insert_rows(rows, rec), rec) == spec_insert_rows(rows, rec),
        rec.location@.len() > 0 ==> spec_insert_rows(rows, rec).contains(spec_entry(rec)),
{
    assert(spec_insert_rows(spec_insert_rows(rows, rec), rec) =~= spec_insert_rows(rows, rec));
}

/// Creates a fresh search database at `path` (SQLite's special names,
/// such as `:memory:`, are honored). On success the store exists, has
/// the schema, and holds nothing.
pub fn create_index_db(path: &str) -> (r: Result<rusqlite::Connection, DocsetError>)
    ensures
        r is Ok ==> db_schema_ok(r->Ok_0),
        r is Ok ==> db_rows(r->Ok_0) == Set::<(Seq<char>, Seq<char>, Seq<char>)>::empty(),
        r is Err ==> r->Err_0 == DocsetError::Database,
{
    let mut conn = match db_open(path) {
        Ok(c) => c,
        Err(_) => { return Err(DocsetError::Database) },
    };
    match db_create_schema(&mut conn) {
        Ok(_) => Ok(conn),
        Err(_) => Err(DocsetError::Database),
    }
}

/// Offers one record to the store. A record with an empty location is
/// skipped silently before any path work, a duplicate entry is dropped
/// silently; both report zero affected rows, a stored entry reports one.
pub fn insert_search_index(conn: &mut rusqlite::Connection, rec: &SearchRecord) -> (r: Result<
    usize,
    DocsetError,
>)
    requires
        db_schema_ok(*old(conn)),
    ensures
        db_schema_ok(*final(conn)),
        db_rows(*old(conn)).subset_of(db_rows(*final(conn))),
        r is Ok ==> db_rows(*final(conn)) == spec_insert_rows(db_rows(*old(conn)), *rec),
        r is Err ==> db_rows(*final(conn)) == db_rows(*old(conn)),
        rec.location@.len() == 0 ==> r == Ok::<usize, DocsetError>(0usize) && *final(conn) == *old(
            conn,
        ),
        r is Ok ==> (r->Ok_0 == 1usize <==> rec.location@.len() > 0 && !db_rows(
            *old(conn),
        ).contains(spec_entry(*rec))),
        r is Ok ==> (r->Ok_0 == 0usize <==> !(rec.location@.len() > 0 && !db_rows(
            *old(conn),
        ).contains(spec_entry(*rec)))),
        r is Err ==> r->Err_0 == DocsetError::Database,
{
    if rec.location.as_str().is_empty() {
        Ok(0)
    } else {
        let name = display_name(rec);
        let type_label = rec.category.label();
        let path = crate::normalize::normalize(rec.location.as_str());
        match db_insert(conn, name.as_str(), type_label, path.as_str()) {
            Ok(n) => Ok(n),
            Err(_) => Err(DocsetError::Database),
        }
    }
}

/// Offers every record to the store, in order, stopping at the first
/// database failure. Rows are only ever added, never removed; an empty
/// record list always succeeds, asking nothing of the database.
pub fn populate_search_index(conn: &mut rusqlite::Connection, records: &Vec<SearchRecord>) -> (r:
    Result<(), DocsetError>)
    requires
        db_schema_ok(*old(conn)),
    ensures
        db_schema_ok(*final(conn)),
        db_rows(*old(conn)).subset_of(db_rows(*final(conn))),
        records@.len() == 0 ==> r is Ok,
        r is Ok ==> db_rows(*final(conn)) == spec_populate(db_rows(*old(conn)), records@),
        r is Ok ==> db_rows(*final(conn)) == db_rows(*old(conn)).union(spec_entries(records@)),
        r is Err ==> r->Err_0 == DocsetError::Database,
{
    proof {
        lemma_populate_is_union(db_rows(*old(conn)), records@);
    }
    let mut i: usize = 0;
    while i < records.len()
        invariant
            i <= records.len(),
            db_schema_ok(*conn),
            db_rows(*old(conn)).subset_of(db_rows(*conn)),
            db_rows(*conn) == spec_populate(db_rows(*old(conn)), records@.take(i as int)),
        decreases records.len() - i,
    {
        match insert_search_index(conn, &records[i]) {
            Ok(_) => {},
            Err(e) => { return Err(e) },
        }
        proof {
            assert(records@.take(i + 1).drop_last() =~= records@.take(i as int));
            assert(records@.take(i + 1).last() == records@[i as int]);
        }
        i = i + 1;
    }
    proof {
        assert(records@.take(records@.len() as int) =~= records@);
    }
    Ok(())
}

/// Runs one package's indexing stages on an open store: extract the
/// metadata line, parse its records, and fill the table. The store only
/// grows, and on success by exactly the entries of the records parsed
/// from the metadata line; a script shorter than two lines is
/// unreadable, and a second line that is no array of records is
/// malformed, each reported as such.
pub fn index_search_script(conn: &mut rusqlite::Connection, content: &str) -> (r: Result<
    (),
    DocsetError,
>)
    requires
        db_schema_ok(*old(conn)),
    ensures
        db_schema_ok(*final(conn)),
        db_rows(*old(conn)).subset_of(db_rows(*final(conn))),
        r is Ok ==> (spec_second_line(content@) matches Some(line) && spec_line_parses(line)
            && db_rows(*final(conn)) == db_rows(*old(conn)).union(
            spec_value_entries(json_array_of(line)->0),
        )),
        (r is Err && r->Err_0 == DocsetError::Read) <==> spec_second_line(content@) is None,
        (r is Err && r->Err_0 == DocsetError::Parse) <==> (spec_second_line(content@) matches Some(
            line,
        ) && !spec_line_parses(line)),
        r is Err ==> (r->Err_0 == DocsetError::Read || r->Err_0 == DocsetError::Parse || r->Err_0
            == DocsetError::Database),
{
    let line = match index_line(content) {
        Ok(l) => l,
        Err(e) => { return Err(e) },
    };
    let records = match parse_search_records(line.as_str()) {
        Ok(rs) => rs,
        Err(e) => { return Err(e) },
    };
    proof {
        lemma_entries_of_matching(json_array_of(line@)->0, records@);
    }
    match populate_search_index(conn, &records) {
        Ok(_) => {
            proof {
                assert(db_rows(*conn) == db_rows(*old(conn)).union(spec_entries(records@)));
            }
            Ok(())
        },
        Err(e) => Err(e),
    }
}

/// The number of stored entries.
pub fn count_entries(conn: &rusqlite::Connection) -> (r: Result<usize, DocsetError>)
    requires
        db_schema_ok(*conn),
    ensures
        r is Ok ==> r->Ok_0 as nat == db_rows(*conn).len(),
        r is Err ==> r->Err_0 == DocsetError::Database,
{
    match db_count(conn) {
        Ok(n) => Ok(n),
        Err(_) => Err(DocsetError::Database),
    }
}

/// Whether the store holds this `(name, type, path)` triple.
pub fn contains_entry(conn: &rusqlite::Connection, name: &str, type_label: &str, path: &str) -> (r:
    Result<bool, DocsetError>)
    requires
        db_schema_ok(*conn),
    ensures
        r is Ok ==> r->Ok_0 == db_rows(*conn).contains((name@, type_label@, path@)),
        r is Err ==> r->Err_0 == DocsetError::Database,
{
    match db_count_matching(conn, name, type_label, path) {
        Ok(n) => Ok(n == 1),
        Err(_) => Err(DocsetError::Database),
    }
}

} // verus!
