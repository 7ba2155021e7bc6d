//! Tags on log entries.
use vstd::prelude::*;

verus! {

/// A stored tag.
#[derive(Debug, Clone, PartialEq, Eq)]
pub struct Tag {
    pub id: String,
    pub created_at: String,
    pub updated_at: String,
    pub name: String,
}

/// The fields of a tag as given to create or update it.
#[derive(Debug, Clone, Default, PartialEq, Eq)]
pub struct TagInput {
    pub name: String,
}

/// A tag as listed for a log entry.
#[derive(Debug, Clone, PartialEq, Eq)]
pub struct TagForEntry {
    pub id: String,
    pub name: String,
}

} // verus!
