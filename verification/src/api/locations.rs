//! Location payloads of the API.
use crate::repo::locations::LocationInput;
use vstd::prelude::*;

verus! {

/// The body of a request that creates a location.
#[derive(Debug, Clone, Default, PartialEq, Eq)]
pub struct CreateLocationPayload {
    pub name: String,
    pub kind: String,
    pub parent_id: Option<String>,
}

/// The body of a request that updates a location.
#[derive(Debug, Clone, Default, PartialEq, Eq)]
pub struct UpdateLocationPayload {
    pub name: String,
    pub kind: String,
    pub parent_id: Option<String>,
}

/// The location fields of a create request.
pub fn location_input_from_create(p: CreateLocationPayload) -> (r: LocationInput)
    ensures
        r == (LocationInput { name: p.name, kind: p.kind, parent_id: p.parent_id }),
{
    LocationInput { name: p.name, kind: p.kind, parent_id: p.parent_id }
}

/// The location fields of an update request; an update writes them all.
pub fn location_input_from_update(p: UpdateLocationPayload) -> (r: LocationInput)
    ensures
        r == (LocationInput { name: p.name, kind: p.kind, parent_id: p.parent_id }),
{
    LocationInput { name: p.name, kind: p.kind, parent_id: p.parent_id }
}

} // verus!
