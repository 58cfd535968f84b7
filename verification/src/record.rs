//! Search records and the index entries made from them.
//!
//! A record is one documented entity from a package's search metadata.
//! It yields at most one index entry: records without a location are
//! skipped, every other record is classified and its location normalized.

use vstd::prelude::*;
use vstd::string::StringExecFns;

use crate::category::{spec_label, EntryType};
use crate::normalize::{normalize, spec_normalize};

verus! {

/// One raw entry of a package's generated search metadata.
pub struct SearchRecord {
    /// Display name of the documented entity.
    pub title: String,
    /// Kind of the entity, decoded from the raw category token.
    pub category: EntryType,
    /// Relative location of the page, possibly empty, possibly
    /// directory-style, possibly carrying an in-page anchor.
    pub location: String,
    /// Title of the containing page; used only for sections.
    pub page: String,
}

/// One row of the bundle's search database.
pub struct IndexEntry {
    /// Display name: the record's title, disambiguated for sections.
    pub name: String,
    /// Canonical category label.
    pub type_label: String,
    /// Normalized viewer-relative path.
    pub path: String,
}

/// The display name made from raw fields: the title, except that a
/// section is shown as `title - page` to tell equally titled
/// subsections apart.
pub open spec fn spec_name_of(title: Seq<char>, category: EntryType, page: Seq<char>) -> Seq<
    char,
> {
    if category is Section {
        title + " - "@ + page
    } else {
        title
    }
}

/// The `(name, type, path)` triple made from raw fields.
pub open spec fn spec_entry_of(
    title: Seq<char>,
    category: EntryType,
    location: Seq<char>,
    page: Seq<char>,
) -> (Seq<char>, Seq<char>, Seq<char>) {
    (spec_name_of(title, category, page), spec_label(category), spec_normalize(location))
}

/// The display name of a record.
pub open spec fn spec_display_name(rec: SearchRecord) -> Seq<char> {
    spec_name_of(rec.title@, rec.category, rec.page@)
}

/// The `(name, type, path)` triple a record is stored under.
pub open spec fn spec_entry(rec: SearchRecord) -> (Seq<char>, Seq<char>, Seq<char>) {
    spec_entry_of(rec.title@, rec.category, rec.location@, rec.page@)
}

/// Builds the display name of a record.
pub fn display_name(rec: &SearchRecord) -> (r: String)
    ensures
        r@ == spec_display_name(*rec),
        !(rec.category is Section) ==> r@ == rec.title@,
{
    if rec.category == EntryType::Section {
        rec.title.clone().concat(" - ").concat(rec.page.as_str())
    } else {
        rec.title.clone()
    }
}

/// Turns a record into the entry it is stored as, or nothing for a
/// record whose location is empty: such a record names no page and is
/// skipped before any path work.
pub fn entry_of_record(rec: &SearchRecord) -> (r: Option<IndexEntry>)
    ensures
        r is Some <==> rec.location@.len() > 0,
        r is Some ==> (r->0).name@ == spec_display_name(*rec),
        r is Some ==> (r->0).type_label@ == spec_label(rec.category),
        r is Some ==> (r->0).path@ == spec_normalize(rec.location@),
{
    if rec.location.as_str().is_empty() {
        None
    } else {
        Some(
            IndexEntry {
                name: display_name(rec),
                type_label: String::from_str(rec.category.label()),
                path: normalize(rec.location.as_str()),
            },
        )
    }
}

} // verus!
