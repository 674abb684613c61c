//! Pictures of session drafts.
use vstd::prelude::*;
use vstd::string::*;

use crate::ids::DraftImageId;

verus! {

/// Whether a draft is on disk.
#[derive(Clone, Copy, Debug, PartialEq, Eq, Structural)]
pub enum DraftDurability {
    Saved,
    Dirty,
    Saving,
    Failed,
}

/// What came of clearing a draft that was sent: whether it still was that one, and
/// how it stands with it now, where there is one.
#[derive(Clone, Copy, Debug, PartialEq, Eq, Structural)]
pub struct DraftClearing {
    pub cleared: bool,
    pub durability: Option<DraftDurability>,
}

/// An image that is attached to a draft.
#[derive(Clone, Debug, PartialEq, Eq)]
pub struct DraftImageSummary {
    pub id: DraftImageId,
    pub file_name: String,
    pub mime_type: String,
    pub decoded_bytes: usize,
}

/// What is shown of the draft of one session.
#[derive(Clone, Debug, PartialEq, Eq)]
pub struct DraftSnapshot {
    pub text: String,
    pub images: Vec<DraftImageSummary>,
    pub generation: u64,
    pub durability: DraftDurability,
    pub persistence_error: Option<String>,
}

} // verus!
