//! Builds offline documentation bundles ("docsets") for Julia packages:
//! normalizes documentation page locations, classifies search records,
//! extracts the generated search metadata, and fills the bundle's
//! search database with deduplicated index entries.

use vstd::prelude::*;

pub mod bundle;
pub mod category;
pub mod db;
pub mod normalize;
pub mod parse;
pub mod record;
pub mod text;

verus! {

/// The error kinds the library reports, one per failing stage.
#[derive(Clone, Copy, Debug, PartialEq, Eq, Structural)]
pub enum DocsetError {
    /// The input could not be read, or was too short to hold the search metadata.
    Read,
    /// The search metadata was malformed: bad JSON shape or an unknown category token.
    Parse,
    /// The search database could not be created or filled.
    Database,
}

impl DocsetError {
    /// A short description of the failing stage, for diagnostics.
    pub fn message(&self) -> (r: &'static str)
        ensures
            *self is Read ==> r@ == "could not read the search metadata"@,
            *self is Parse ==> r@ == "malformed search metadata"@,
            *self is Database ==> r@ == "search database failure"@,
    {
        match self {
            DocsetError::Read => "could not read the search metadata",
            DocsetError::Parse => "malformed search metadata",
            DocsetError::Database => "search database failure",
        }
    }
}

} // verus!
