//! Files attached to assets and other records.
use vstd::prelude::*;

verus! {

/// A stored attachment.
#[derive(Debug, Clone, PartialEq, Eq)]
pub struct Attachment {
    pub id: String,
    pub created_at: String,
    pub updated_at: String,
    pub owner_type: String,
    pub owner_id: String,
    pub filename: String,
    pub content_type: String,
    pub byte_size: i64,
    pub caption: Option<String>,
}

/// The fields of an attachment as given to create it.
#[derive(Debug, Clone, Default, PartialEq, Eq)]
pub struct AttachmentInput {
    pub owner_type: String,
    pub owner_id: String,
    pub filename: String,
    pub content_type: String,
    pub byte_size: i64,
    pub caption: Option<String>,
}

} // verus!
