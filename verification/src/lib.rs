//! Bookkeeping core of a publishing-and-collectibles platform.
//!
//! Authors publish stories (content records) and may open a limited-edition
//! sale of unique collectible tokens tied to a story, priced in a fungible
//! settlement asset. The core is the sale ledger and minting state machine:
//! the records and invariants that guarantee a story's token supply is never
//! over-sold, that the author-reserved and public allocations never overlap,
//! and that payment and token issuance commit as one atomic unit of work.
//!
//! The hosting environment (key management, content storage, the wire to the
//! outside world) is out of scope: the core works on an explicit keyed store
//! of plain records and is verified end to end.

pub mod error;
pub mod events;
pub mod ids;
pub mod platform;
pub mod registry;
pub mod sale;
pub mod settlement;
pub mod story;
pub mod token;
pub mod uri;
