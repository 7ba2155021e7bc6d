//! Asset payloads of the API.
use crate::api::tasks::text_or_empty;
use crate::repo::assets::AssetInput;
use vstd::prelude::*;

verus! {

/// The body of a request that creates an asset.
#[derive(Debug, Clone, Default, PartialEq, Eq)]
pub struct CreateAssetPayload {
    pub name: String,
    pub location_id: Option<String>,
    pub category: String,
    pub make: Option<String>,
    pub model: Option<String>,
    pub serial: Option<String>,
    pub install_date: Option<String>,
    pub warranty_end: Option<String>,
    pub notes: Option<String>,
}

/// The body of a request that updates an asset.
#[derive(Debug, Clone, Default, PartialEq, Eq)]
pub struct UpdateAssetPayload {
    pub name: Option<String>,
    pub location_id: Option<String>,
    pub category: Option<String>,
    pub make: Option<String>,
    pub model: Option<String>,
    pub serial: Option<String>,
    pub install_date: Option<String>,
    pub warranty_end: Option<String>,
    pub notes: Option<String>,
}

/// The asset fields of a create request.
pub fn asset_input_from_create(p: CreateAssetPayload) -> (r: AssetInput)
    ensures
        r == (AssetInput {
            name: p.name,
            location_id: p.location_id,
            category: p.category,
            make: p.make,
            model: p.model,
            serial: p.serial,
            install_date: p.install_date,
            warranty_end: p.warranty_end,
            notes: p.notes,
        }),
{
    AssetInput {
        name: p.name,
        location_id: p.location_id,
        category: p.category,
        make: p.make,
        model: p.model,
        serial: p.serial,
        install_date: p.install_date,
        warranty_end: p.warranty_end,
        notes: p.notes,
    }
}

fn unwrap_or_empty(o: Option<String>) -> (r: String)
    ensures
        r@ == text_or_empty(o),
        o matches Some(s) ==> r == s,
{
    match o {
        Some(s) => s,
        None => String::new(),
    }
}

/// The asset fields of an update request: an absent name or category becomes empty,
/// which the update reads as "keep the stored one".
pub fn asset_input_from_update(p: UpdateAssetPayload) -> (r: AssetInput)
    ensures
        r.name@ == text_or_empty(p.name),
        r.category@ == text_or_empty(p.category),
        r.location_id == p.location_id,
        r.make == p.make,
        r.model == p.model,
        r.serial == p.serial,
        r.install_date == p.install_date,
        r.warranty_end == p.warranty_end,
        r.notes == p.notes,
{
    AssetInput {
        name: unwrap_or_empty(p.name),
        location_id: p.location_id,
        category: unwrap_or_empty(p.category),
        make: p.make,
        model: p.model,
        serial: p.serial,
        install_date: p.install_date,
        warranty_end: p.warranty_end,
        notes: p.notes,
    }
}

} // verus!
