//! Supply payloads of the API.
use crate::repo::supplies::SupplyInput;
use vstd::prelude::*;

verus! {

/// The body of a request that creates a supply.
#[derive(Debug, Clone, Default, PartialEq, Eq)]
pub struct CreateSupplyPayload {
    pub name: String,
    pub spec: Option<String>,
    pub purchase_url: Option<String>,
    pub notes: Option<String>,
}

/// The body of a request that updates a supply.
#[derive(Debug, Clone, Default, PartialEq, Eq)]
pub struct UpdateSupplyPayload {
    pub name: String,
    pub spec: Option<String>,
    pub purchase_url: Option<String>,
    pub notes: Option<String>,
}

/// The supply fields of a create request.
pub fn supply_input_from_create(p: CreateSupplyPayload) -> (r: SupplyInput)
    ensures
        r == (SupplyInput { name: p.name, spec: p.spec, purchase_url: p.purchase_url, notes: p.notes }),
{
    SupplyInput { name: p.name, spec: p.spec, purchase_url: p.purchase_url, notes: p.notes }
}

/// The supply fields of an update request; an update writes them all.
pub fn supply_input_from_update(p: UpdateSupplyPayload) -> (r: SupplyInput)
    ensures
        r == (SupplyInput { name: p.name, spec: p.spec, purchase_url: p.purchase_url, notes: p.notes }),
{
    SupplyInput { name: p.name, spec: p.spec, purchase_url: p.purchase_url, notes: p.notes }
}

} // verus!
