use vstd::prelude::*;

verus! {

/// An identity (a signing key) reduced to the plain value the core compares.
pub type Identity = u64;

/// A settlement-asset kind (the fungible token used as payment).
pub type AssetRef = u64;

/// A settlement account: an index into the settlement ledger's account table.
pub type AccountRef = usize;

/// The address of an issued unique token; assigned sequentially from 1.
pub type TokenAddress = u64;

} // verus!
