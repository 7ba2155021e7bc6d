//! Supplies that tasks use.
use vstd::prelude::*;

verus! {

/// A stored supply.
#[derive(Debug, Clone, PartialEq, Eq)]
pub struct Supply {
    pub id: String,
    pub created_at: String,
    pub updated_at: String,
    pub name: String,
    pub spec: Option<String>,
    pub purchase_url: Option<String>,
    pub notes: Option<String>,
}

/// The fields of a supply as given to create or update it.
#[derive(Debug, Clone, Default, PartialEq, Eq)]
pub struct SupplyInput {
    pub name: String,
    pub spec: Option<String>,
    pub purchase_url: Option<String>,
    pub notes: Option<String>,
}

} // verus!
