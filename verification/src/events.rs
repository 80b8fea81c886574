use vstd::prelude::*;

use crate::ids::TokenAddress;

verus! {

/// Notification: a story was created or its content reference replaced.
#[derive(Clone, Copy, Debug, PartialEq, Eq, Structural)]
pub struct StoryUpdated {
    pub id: u64,
}

/// Notification: a sale was opened for the story.
#[derive(Clone, Copy, Debug, PartialEq, Eq, Structural)]
pub struct StoryNftPublished {
    pub id: u64,
}

/// Notification: one unique token was minted for the story.
#[derive(Clone, Copy, Debug, PartialEq, Eq, Structural)]
pub struct NftMinted {
    pub story_id: u64,
    pub mint: TokenAddress,
}

/// One entry of the append-only event log. The core emits an entry at each
/// committed state transition and never reads the log back.
#[derive(Clone, Copy, Debug, PartialEq, Eq, Structural)]
pub enum EventRecord {
    StoryUpdated(StoryUpdated),
    StoryNftPublished(StoryNftPublished),
    NftMinted(NftMinted),
}

} // verus!
