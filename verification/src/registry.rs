use vstd::prelude::*;

use crate::ids::Identity;

verus! {

/// The identity registry: issues monotonically increasing story identifiers
/// and tracks the aggregate publication count. Created once per deployment.
#[derive(Clone, Copy, Debug, PartialEq, Eq, Structural)]
pub struct StoryFactory {
    /// The next identifier to assign; starts at 1.
    pub next_id: u64,
    /// The administrative owner, set once at creation.
    pub manager: Identity,
    /// How many stories were ever published.
    pub published: u64,
}

impl StoryFactory {
    /// Creates the registry with `next_id = 1` and no publications yet.
    pub fn initialize(manager: Identity) -> (f: StoryFactory)
        ensures
            f == (StoryFactory { next_id: 1, manager, published: 0 }),
    {
        StoryFactory { next_id: 1, manager, published: 0 }
    }

    /// Returns the current `next_id`, then advances it; the publication count
    /// grows with it. Serialization between callers is the hosting
    /// environment's guarantee: within one unit of work the returned id is
    /// taken exactly once.
    pub fn allocate_next_id(&mut self) -> (id: u64)
        requires
            old(self).next_id < u64::MAX,
            old(self).published < u64::MAX,
        ensures
            id == old(self).next_id,
            final(self).next_id == id + 1,
            final(self).published == old(self).published + 1,
            final(self).manager == old(self).manager,
    {
        let id = self.next_id;
        self.next_id = self.next_id + 1;
        self.published = self.published + 1;
        id
    }
}

/// Law: ids handed out by `allocate_next_id` are distinct and strictly
/// increasing. The first call returns `id1` and leaves `next_id == id1 + 1`;
/// `next_id` never decreases across further allocations, so a later call,
/// made from any state the registry can have reached since, returns a
/// strictly larger id.
pub proof fn lemma_allocated_ids_strictly_increase(
    first_pre: StoryFactory,
    first_post: StoryFactory,
    id1: u64,
    second_pre: StoryFactory,
    id2: u64,
)
    requires
        id1 == first_pre.next_id,
        first_post.next_id == id1 + 1,
        second_pre.next_id >= first_post.next_id,
        id2 == second_pre.next_id,
    ensures
        id2 > id1,
{
}

} // verus!
