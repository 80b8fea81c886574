use vstd::prelude::*;

use crate::ids::{Identity, TokenAddress};

verus! {

/// One credited creator in a token's metadata document.
#[derive(Clone, Copy, Debug, PartialEq, Eq, Structural)]
pub struct Creator {
    pub address: Identity,
    /// Whether the creator has countersigned; false at issuance.
    pub verified: bool,
    /// The creator's share of royalties, in percent.
    pub share: u8,
}

/// The metadata document attached to an issued token.
#[derive(Debug)]
pub struct TokenMetadata {
    pub name: String,
    pub symbol: String,
    /// Where the token's descriptive document lives, derived from the sale's
    /// stored prefix and the story id.
    pub uri: String,
    pub creators: Vec<Creator>,
    /// Royalty taken on secondary sales, in basis points; caller-configured.
    pub seller_fee_basis_points: u16,
    /// Whether the metadata may still be revised.
    pub is_mutable: bool,
}

/// One issued unique token: a one-of-one collectible tied to a single
/// purchase. Ownership passes to the buyer at issuance and the core never
/// reclaims it.
#[derive(Debug)]
pub struct MintedToken {
    /// The token's address; assigned sequentially from 1.
    pub address: TokenAddress,
    /// The buyer the token was issued to.
    pub owner: Identity,
    /// Units in existence; fixed at 1.
    pub supply: u64,
    /// The edition cap fixed at finalization; 0 means no further copies.
    pub max_supply: u64,
    pub metadata: TokenMetadata,
}

} // verus!
