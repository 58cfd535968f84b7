//! The closed category enumeration of search records, with its canonical
//! labels and the decode table from the raw lowercase tokens that the
//! generated search metadata carries.

use vstd::prelude::*;

use crate::text::str_eq;

verus! {

/// The kind of a documented entity. The raw metadata token `page` decodes
/// to `Guide`; every other token is the lower-cased variant name.
#[derive(Clone, Copy, Debug, PartialEq, Eq, Structural)]
pub enum EntryType {
    Macro,
    Keyword,
    Method,
    Function,
    Type,
    Module,
    Constant,
    Guide,
    Section,
}

/// The canonical display label of a category.
pub open spec fn spec_label(c: EntryType) -> Seq<char> {
    match c {
        EntryType::Macro => "Macro"@,
        EntryType::Keyword => "Keyword"@,
        EntryType::Method => "Method"@,
        EntryType::Function => "Function"@,
        EntryType::Type => "Type"@,
        EntryType::Module => "Module"@,
        EntryType::Constant => "Constant"@,
        EntryType::Guide => "Guide"@,
        EntryType::Section => "Section"@,
    }
}

/// The decode table from a raw metadata token to a category.
/// `page` maps to `Guide`; an unlisted token decodes to nothing.
pub open spec fn spec_decode_category(t: Seq<char>) -> Option<EntryType> {
    if t == "macro"@ {
        Some(EntryType::Macro)
    } else if t == "keyword"@ {
        Some(EntryType::Keyword)
    } else if t == "method"@ {
        Some(EntryType::Method)
    } else if t == "function"@ {
        Some(EntryType::Function)
    } else if t == "type"@ {
        Some(EntryType::Type)
    } else if t == "module"@ {
        Some(EntryType::Module)
    } else if t == "constant"@ {
        Some(EntryType::Constant)
    } else if t == "page"@ {
        Some(EntryType::Guide)
    } else if t == "section"@ {
        Some(EntryType::Section)
    } else {
        None
    }
}

impl EntryType {
    /// The canonical label stored in the search database's `type` column.
    pub fn label(&self) -> (r: &'static str)
        ensures
            r@ == spec_label(*self),
    {
        match self {
            EntryType::Macro => "Macro",
            EntryType::Keyword => "Keyword",
            EntryType::Method => "Method",
            EntryType::Function => "Function",
            EntryType::Type => "Type",
            EntryType::Module => "Module",
            EntryType::Constant => "Constant",
            EntryType::Guide => "Guide",
            EntryType::Section => "Section",
        }
    }
}

/// Decodes a raw category token. Exactly the nine listed lowercase tokens
/// are accepted; anything else is rejected so that a malformed record
/// fails the parse instead of landing in a catch-all category.
pub fn decode_category(token: &str) -> (r: Option<EntryType>)
    ensures
        r == spec_decode_category(token@),
{
    if str_eq(token, "macro") {
        Some(EntryType::Macro)
    } else if str_eq(token, "keyword") {
        Some(EntryType::Keyword)
    } else if str_eq(token, "method") {
        Some(EntryType::Method)
    } else if str_eq(token, "function") {
        Some(EntryType::Function)
    } else if str_eq(token, "type") {
        Some(EntryType::Type)
    } else if str_eq(token, "module") {
        Some(EntryType::Module)
    } else if str_eq(token, "constant") {
        Some(EntryType::Constant)
    } else if str_eq(token, "page") {
        Some(EntryType::Guide)
    } else if str_eq(token, "section") {
        Some(EntryType::Section)
    } else {
        None
    }
}

} // verus!
