use vstd::prelude::*;

use crate::ids::Identity;

verus! {

/// The longest content reference (in characters) a story record holds.
pub const CID_MAX_LEN: usize = 64;

/// An author-owned content record, addressable by its identifier. The author
/// never changes; the content reference may be replaced, by the author only.
#[derive(Debug)]
pub struct Story {
    /// The identifier the registry allocated for this story.
    pub id: u64,
    /// The publishing identity; immutable after creation.
    pub author: Identity,
    /// An opaque reference to the story body, held off-system.
    pub cid: String,
}

impl Story {
    /// Well-formedness: the content reference respects its length bound.
    pub open spec fn wf(self) -> bool {
        self.cid@.len() <= CID_MAX_LEN
    }
}

} // verus!
