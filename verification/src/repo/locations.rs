//! Locations in the home.
use vstd::prelude::*;

verus! {

/// A stored location.
#[derive(Debug, Clone, PartialEq, Eq)]
pub struct Location {
    pub id: String,
    pub created_at: String,
    pub updated_at: String,
    pub name: String,
    pub kind: String,
    pub parent_id: Option<String>,
}

/// The fields of a location as given to create or update it.
#[derive(Debug, Clone, Default, PartialEq, Eq)]
pub struct LocationInput {
    pub name: String,
    pub kind: String,
    pub parent_id: Option<String>,
}

} // verus!
