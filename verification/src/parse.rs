//! The search index parser: pulls the one meaningful line out of a
//! package's generated search-metadata script and turns it into search
//! records.
//!
//! By construction of the upstream generator the script is a fixed
//! three-line file whose second line is a JSON array literal; the wrapping
//! assignment and closing lines are never inspected. The JSON array is
//! read by serde_json behind trusted declarations; the shape of each
//! record and the category decode table are checked here, in verified code.

use vstd::prelude::*;
use vstd::string::StrSliceExecFns;
use vstd::string::StringExecFns;

use crate::category::{decode_category, spec_decode_category};
use crate::record::SearchRecord;
use crate::text::{find_char, spec_find_char};
use crate::DocsetError;

verus! {

/// Declares serde_json::Value so that opaque JSON values can pass
/// through signatures.
#[verifier::external_type_specification]
#[verifier::external_body]
pub struct ExValue(serde_json::Value);

/// What serde_json::from_str for Vec of Value returns on a string with
/// these characters: the items of the JSON array the string spells, or
/// nothing when it spells none. A function of the characters alone.
pub uninterp spec fn json_array_of(s: Seq<char>) -> Option<Seq<serde_json::Value>>;

/// What serde_json::Value::get returns on this value and key: the value
/// under the key, when the value is an object that holds it.
pub uninterp spec fn value_field(v: serde_json::Value, key: Seq<char>) -> Option<
    serde_json::Value,
>;

/// What serde_json::Value::as_str returns on this value: the text of a
/// JSON string value, nothing for any other kind of value.
pub uninterp spec fn value_str(v: serde_json::Value) -> Option<Seq<char>>;

/// Relies on serde_json::from_str for Vec of Value: succeeds exactly on a
/// JSON array, handing back its items.
#[verifier::external_body]
fn json_parse_array(s: &str) -> (r: Option<Vec<serde_json::Value>>)
    ensures
        r is Some <==> json_array_of(s@) is Some,
        r is Some ==> (r->0)@ == json_array_of(s@)->0,
{
    serde_json::from_str::<Vec<serde_json::Value>>(s).ok()
}

/// Relies on serde_json::Value::get: the value under this key, when the
/// value is an object that holds the key.
#[verifier::external_body]
fn json_field<'a>(v: &'a serde_json::Value, key: &str) -> (r: Option<&'a serde_json::Value>)
    ensures
        r is Some <==> value_field(*v, key@) is Some,
        r is Some ==> *(r->0) == value_field(*v, key@)->0,
{
    v.get(key)
}

/// Relies on serde_json::Value::as_str: the text of a JSON string value,
/// nothing for any other kind of value.
#[verifier::external_body]
fn json_str(v: &serde_json::Value) -> (r: Option<String>)
    ensures
        r is Some <==> value_str(*v) is Some,
        r is Some ==> (r->0)@ == value_str(*v)->0,
{
    v.as_str().map(|s| s.to_owned())
}

/// The text under `key` of a record value: its field as a string, when
/// the value is an object holding the key and the field is a string.
pub open spec fn spec_field_str(v: serde_json::Value, key: Seq<char>) -> Option<Seq<char>> {
    match value_field(v, key) {
        Some(f) => value_str(f),
        None => None,
    }
}

/// The four raw fields of a record value, in the order title, category
/// token, location, page — when all four are present as strings.
pub open spec fn spec_record_fields(v: serde_json::Value) -> Option<
    (Seq<char>, Seq<char>, Seq<char>, Seq<char>),
> {
    if spec_field_str(v, "title"@) is Some && spec_field_str(v, "category"@) is Some
        && spec_field_str(v, "location"@) is Some && spec_field_str(v, "page"@) is Some {
        Some(
            (
                spec_field_str(v, "title"@)->0,
                spec_field_str(v, "category"@)->0,
                spec_field_str(v, "location"@)->0,
                spec_field_str(v, "page"@)->0,
            ),
        )
    } else {
        None
    }
}

/// Whether a JSON value parses as a search record: the four string
/// fields are present and the category token is listed.
pub open spec fn spec_value_parses(v: serde_json::Value) -> bool {
    spec_record_fields(v) matches Some(f) && spec_decode_category(f.1) is Some
}

/// Whether the metadata line parses in full: it spells a JSON array and
/// every item parses as a record.
pub open spec fn spec_line_parses(line: Seq<char>) -> bool {
    json_array_of(line) matches Some(vals) && (forall|i: int|
        0 <= i < vals.len() ==> spec_value_parses(#[trigger] vals[i]))
}

/// Whether `rec` is the record that `v` parses into.
pub open spec fn spec_record_matches(v: serde_json::Value, rec: SearchRecord) -> bool {
    &&& spec_value_parses(v)
    &&& rec.title@ == (spec_record_fields(v)->0).0
    &&& Some(rec.category) == spec_decode_category((spec_record_fields(v)->0).1)
    &&& rec.location@ == (spec_record_fields(v)->0).2
    &&& rec.page@ == (spec_record_fields(v)->0).3
}

/// The line at zero-indexed offset 1 of `s`, split as text lines are:
/// at each line feed, with a carriage return directly before a line feed
/// dropped, and without counting an empty tail after a final line feed.
pub open spec fn spec_second_line(s: Seq<char>) -> Option<Seq<char>> {
    match spec_find_char(s, 0, '\n') {
        None => None,
        Some(i) => {
            if i + 1 < s.len() {
                let j = match spec_find_char(s, i + 1, '\n') {
                    Some(j) => j,
                    None => s.len() as int,
                };
                let line = s.subrange(i + 1, j);
                if j < s.len() && line.len() > 0 && line.last() == '\r' {
                    Some(line.drop_last())
                } else {
                    Some(line)
                }
            } else {
                None
            }
        },
    }
}

/// Extracts the search-metadata line: the line at zero-indexed offset 1.
/// A script shorter than two lines is reported as unreadable.
pub fn index_line(content: &str) -> (r: Result<String, DocsetError>)
    ensures
        r is Ok <==> spec_second_line(content@) is Some,
        r is Ok ==> (r->Ok_0)@ == spec_second_line(content@)->0,
        r is Err ==> r->Err_0 == DocsetError::Read,
{
    let n: usize = content.unicode_len();
    match find_char(content, 0, '\n') {
        None => Err(DocsetError::Read),
        Some(i) => {
            if i + 1 >= n {
                Err(DocsetError::Read)
            } else {
                let j: usize = match find_char(content, i + 1, '\n') {
                    Some(j) => j,
                    None => n,
                };
                let line = if j < n && j > i + 1 && content.get_char(j - 1) == '\r' {
                    proof {
                        assert(content@.subrange(i + 1, j - 1) =~= content@.subrange(
                            i + 1,
                            j as int,
                        ).drop_last());
                    }
                    content.substring_char(i + 1, j - 1)
                } else {
                    content.substring_char(i + 1, j)
                };
                Ok(String::from_str(line))
            }
        },
    }
}

/// Assembles a record from its four raw fields, decoding the category
/// token. An unlisted token is a data-format error.
pub fn make_record(title: String, token: &str, location: String, page: String) -> (r: Result<
    SearchRecord,
    DocsetError,
>)
    ensures
        r is Ok <==> spec_decode_category(token@) is Some,
        r is Err ==> r->Err_0 == DocsetError::Parse,
        r is Ok ==> (r->Ok_0).title@ == title@,
        r is Ok ==> Some((r->Ok_0).category) == spec_decode_category(token@),
        r is Ok ==> (r->Ok_0).location@ == location@,
        r is Ok ==> (r->Ok_0).page@ == page@,
{
    match decode_category(token) {
        Some(category) => Ok(SearchRecord { title, category, location, page }),
        None => Err(DocsetError::Parse),
    }
}

/// Reads one record out of one JSON value. The value must be an object
/// whose `title`, `category`, `location` and `page` fields are strings
/// and whose category token is listed; anything else is a data-format
/// error.
pub fn record_from_value(v: &serde_json::Value) -> (r: Result<SearchRecord, DocsetError>)
    ensures
        r is Ok <==> spec_value_parses(*v),
        r is Ok ==> spec_record_matches(*v, r->Ok_0),
        r is Err ==> r->Err_0 == DocsetError::Parse,
{
    let title = match json_field(v, "title") {
        Some(f) => match json_str(f) {
            Some(s) => s,
            None => { return Err(DocsetError::Parse) },
        },
        None => { return Err(DocsetError::Parse) },
    };
    let token = match json_field(v, "category") {
        Some(f) => match json_str(f) {
            Some(s) => s,
            None => { return Err(DocsetError::Parse) },
        },
        None => { return Err(DocsetError::Parse) },
    };
    let location = match json_field(v, "location") {
        Some(f) => match json_str(f) {
            Some(s) => s,
            None => { return Err(DocsetError::Parse) },
        },
        None => { return Err(DocsetError::Parse) },
    };
    let page = match json_field(v, "page") {
        Some(f) => match json_str(f) {
            Some(s) => s,
            None => { return Err(DocsetError::Parse) },
        },
        None => { return Err(DocsetError::Parse) },
    };
    make_record(title, token.as_str(), location, page)
}

/// Parses the search-metadata line as a JSON array of records. Fails
/// with a data-format error when the line is not a JSON array, when a
/// record's shape is off, or when a category token is unlisted.
pub fn parse_search_records(line: &str) -> (r: Result<Vec<SearchRecord>, DocsetError>)
    ensures
        r is Ok <==> spec_line_parses(line@),
        r is Err ==> r->Err_0 == DocsetError::Parse,
        r is Ok ==> (r->Ok_0)@.len() == json_array_of(line@)->0.len(),
        r is Ok ==> forall|j: int|
            0 <= j < (r->Ok_0)@.len() ==> spec_record_matches(
                #[trigger] json_array_of(line@)->0[j],
                (r->Ok_0)@[j],
            ),
{
    let values = match json_parse_array(line) {
        Some(v) => v,
        None => { return Err(DocsetError::Parse) },
    };
    let mut records: Vec<SearchRecord> = Vec::new();
    let mut i: usize = 0;
    while i < values.len()
        invariant
            i <= values.len(),
            json_array_of(line@) is Some,
            values@ == json_array_of(line@)->0,
            records@.len() == i,
            forall|j: int|
                0 <= j < i ==> spec_record_matches(#[trigger] values@[j], records@[j]),
        decreases values.len() - i,
    {
        match record_from_value(&values[i]) {
            Ok(rec) => records.push(rec),
            Err(e) => { return Err(e) },
        }
        i = i + 1;
    }
    Ok(records)
}

} // verus!
