//! Cost statistics of the API.
use vstd::prelude::*;

verus! {

/// The grouping asked of the cost statistics.
#[derive(Debug, Clone, Default, PartialEq, Eq)]
pub struct CostQuery {
    pub group_by: Option<String>,
}

} // verus!
