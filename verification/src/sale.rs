use vstd::prelude::*;

use crate::ids::{AccountRef, AssetRef};

verus! {

/// The longest sale title, in characters.
pub const TITLE_MAX_LEN: usize = 64;

/// The longest metadata-location prefix, in characters.
pub const URI_PREFIX_MAX_LEN: usize = 200;

/// Per-story sale configuration and live counters: the mint state. Created
/// once per story when its sale opens; `sold` grows by one per successful
/// public mint; `author_claimed` is advanced by a claim path outside this
/// core and stays within the author's reserved allocation.
#[derive(Debug)]
pub struct StoryNftMintState {
    /// The story this sale belongs to; immutable.
    pub id: u64,
    /// The total supply of the edition, public and reserved together.
    pub total: u64,
    /// The unit price, in minor units of the settlement asset.
    pub price: u64,
    /// How many tokens the public sale has issued.
    pub sold: u64,
    /// Supply carved out of the total for the author.
    pub author_reserved: u64,
    /// How much of the reserved allocation the author has taken.
    pub author_claimed: u64,
    /// Prefix from which each token's metadata location is derived.
    pub uri_prefix: String,
    /// The display title attached to each issued token.
    pub title: String,
    /// The account that receives each unit-price payment.
    pub finds_recv_address: AccountRef,
    /// The settlement asset payments are made in.
    pub finds_mint: AssetRef,
}

impl StoryNftMintState {
    /// The supply invariants that hold after every transition: the reserved
    /// allocation fits in the total, public sales stay within the
    /// non-reserved part, claims stay within the reservation, and the
    /// descriptive fields respect their length bounds.
    pub open spec fn wf(self) -> bool {
        &&& self.author_reserved <= self.total
        &&& self.sold + self.author_reserved <= self.total
        &&& self.author_claimed <= self.author_reserved
        &&& self.title@.len() <= TITLE_MAX_LEN
        &&& self.uri_prefix@.len() <= URI_PREFIX_MAX_LEN
    }

    /// How much of the supply is for public sale at all.
    pub fn total_sell_amount(&self) -> (r: u64)
        requires
            self.wf(),
        ensures
            r == self.total - self.author_reserved,
    {
        self.total - self.author_reserved
    }

    /// How much is still available to public buyers; zero means the sale is
    /// exhausted.
    pub fn rest_sell_amount(&self) -> (r: u64)
        requires
            self.wf(),
        ensures
            r == self.total - self.author_reserved - self.sold,
    {
        self.total - self.author_reserved - self.sold
    }

    /// How much of the author's reserved allocation is still unclaimed.
    pub fn rest_author_amount(&self) -> (r: u64)
        requires
            self.wf(),
        ensures
            r == self.author_reserved - self.author_claimed,
    {
        self.author_reserved - self.author_claimed
    }
}

} // verus!
