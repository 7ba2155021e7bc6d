//! Assets: the things that need maintenance.
use vstd::prelude::*;

verus! {

/// A stored asset.
#[derive(Debug, Clone, PartialEq, Eq)]
pub struct Asset {
    pub id: String,
    pub created_at: String,
    pub updated_at: String,
    pub name: String,
    pub location_id: Option<String>,
    pub category: String,
    pub make: Option<String>,
    pub model: Option<String>,
    pub serial: Option<String>,
    pub install_date: Option<String>,
    pub warranty_end: Option<String>,
    pub notes: Option<String>,
    pub archived: i64,
}

/// The fields of an asset as given to create or update it.
#[derive(Debug, Clone, Default, PartialEq, Eq)]
pub struct AssetInput {
    pub name: String,
    pub location_id: Option<String>,
    pub category: String,
    pub make: Option<String>,
    pub model: Option<String>,
    pub serial: Option<String>,
    pub install_date: Option<String>,
    pub warranty_end: Option<String>,
    pub notes: Option<String>,
}

/// An optional field on update: a given non-empty value replaces the stored one; an
/// absent or empty value keeps it.
pub open spec fn merge_opt_spec(input: Option<String>, existing: Option<String>) -> Option<String> {
    match input {
        Some(s) => if s@.len() == 0 { existing } else { Some(s) },
        None => existing,
    }
}

/// A required text on update: a non-empty value replaces the stored one.
pub open spec fn merge_text_spec(input: String, existing: String) -> String {
    if input@.len() == 0 { existing } else { input }
}

pub fn merge_opt(input: Option<String>, existing: Option<String>) -> (r: Option<String>)
    ensures
        r == merge_opt_spec(input, existing),
{
    match input {
        Some(s) => if s.unicode_len() == 0 { existing } else { Some(s) },
        None => existing,
    }
}

/// Keeps `existing` unless `input` is non-empty.
pub fn merge_text(input: String, existing: String) -> (r: String)
    ensures
        r == merge_text_spec(input, existing),
{
    if input.unicode_len() == 0 { existing } else { input }
}

/// `input` where present, else `existing`, as `Option::or` gives it.
pub fn or_existing<T>(input: Option<T>, existing: Option<T>) -> (r: Option<T>)
    ensures
        r == match input { Some(v) => Some(v), None => existing },
{
    match input {
        Some(v) => Some(v),
        None => existing,
    }
}

/// The values an update writes: the input merged over the stored asset.
pub open spec fn asset_update_spec(existing: Asset, input: AssetInput) -> AssetInput {
    AssetInput {
        name: merge_text_spec(input.name, existing.name),
        location_id: match input.location_id { Some(v) => Some(v), None => existing.location_id },
        category: merge_text_spec(input.category, existing.category),
        make: merge_opt_spec(input.make, existing.make),
        model: merge_opt_spec(input.model, existing.model),
        serial: merge_opt_spec(input.serial, existing.serial),
        install_date: merge_opt_spec(input.install_date, existing.install_date),
        warranty_end: merge_opt_spec(input.warranty_end, existing.warranty_end),
        notes: merge_opt_spec(input.notes, existing.notes),
    }
}

/// Merges an update over the stored asset: empty name and category keep the stored
/// ones, an absent location keeps the stored one, and absent or empty optional
/// texts keep theirs.
pub fn merge_asset_update(existing: Asset, input: AssetInput) -> (r: AssetInput)
    ensures
        r == asset_update_spec(existing, input),
{
    AssetInput {
        name: merge_text(input.name, existing.name),
        location_id: or_existing(input.location_id, existing.location_id),
        category: merge_text(input.category, existing.category),
        make: merge_opt(input.make, existing.make),
        model: merge_opt(input.model, existing.model),
        serial: merge_opt(input.serial, existing.serial),
        install_date: merge_opt(input.install_date, existing.install_date),
        warranty_end: merge_opt(input.warranty_end, existing.warranty_end),
        notes: merge_opt(input.notes, existing.notes),
    }
}

/// An update that gives no values keeps every stored value.
pub proof fn law_empty_asset_update_keeps_asset(existing: Asset, input: AssetInput)
    requires
        input.name@.len() == 0,
        input.category@.len() == 0,
        input.location_id is None,
        input.make is None,
        input.model is None,
        input.serial is None,
        input.install_date is None,
        input.warranty_end is None,
        input.notes is None,
    ensures
        asset_update_spec(existing, input) == (AssetInput {
            name: existing.name,
            location_id: existing.location_id,
            category: existing.category,
            make: existing.make,
            model: existing.model,
            serial: existing.serial,
            install_date: existing.install_date,
            warranty_end: existing.warranty_end,
            notes: existing.notes,
        }),
{
}

/// An update with a given value stores it; an empty text leaves the stored value.
pub proof fn law_asset_update_takes_given_values(existing: Asset, input: AssetInput)
    ensures
        input.name@.len() > 0 ==> asset_update_spec(existing, input).name == input.name,
        input.category@.len() > 0 ==> asset_update_spec(existing, input).category == input.category,
        input.notes matches Some(n) && n@.len() > 0 ==> asset_update_spec(existing, input).notes == input.notes,
        input.notes matches Some(n) && n@.len() == 0 ==> asset_update_spec(existing, input).notes == existing.notes,
{
}

} // verus!
