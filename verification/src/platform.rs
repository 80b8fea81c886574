use vstd::prelude::*;

use crate::error::LedgerError;
use crate::events::{EventRecord, NftMinted, StoryNftPublished, StoryUpdated};
use crate::ids::{AccountRef, AssetRef, Identity, TokenAddress};
use crate::registry::StoryFactory;
use crate::sale::{StoryNftMintState, TITLE_MAX_LEN, URI_PREFIX_MAX_LEN};
use crate::settlement::{transfer_applied, transfer_outcome, SettlementLedger};
use crate::story::{Story, CID_MAX_LEN};
use crate::token::{Creator, MintedToken, TokenMetadata};
use crate::uri::{derive_uri, uri_of};
use vstd::string::{StrSliceExecFns, StringExecFns};

verus! {

/// The keyed store every unit of work runs against: the registry singleton,
/// the story and sale records by id, the settlement-asset ledger, the issued
/// tokens, and the append-only event log. Records are held in arenas indexed
/// by the id that addresses them: the story with id `i` lives at slot
/// `i - 1`, and slot `i - 1` of `sales` holds that story's sale once opened.
#[derive(Debug)]
pub struct StoryPlatform {
    /// The identity registry; absent until `initialize` runs.
    pub factory: Option<StoryFactory>,
    /// All published stories; the story with id `i` is at index `i - 1`.
    pub stories: Vec<Story>,
    /// One slot per story, filled when its sale opens.
    pub sales: Vec<Option<StoryNftMintState>>,
    /// The fungible ledger mints are paid through.
    pub settlement: SettlementLedger,
    /// Every unique token ever issued; the token with address `a` is at
    /// index `a - 1`.
    pub tokens: Vec<MintedToken>,
    /// The append-only notification log.
    pub events: Vec<EventRecord>,
}

impl StoryPlatform {
    /// The store's invariant, preserved by every operation: the registry's
    /// counters agree with the arena, ids are the slots they live at, every
    /// sale is well formed and tied to its story, every sale's receiving
    /// account exists, matches the sale's settlement asset and belongs to
    /// the story's author, and token addresses are the slots they live at.
    pub open spec fn wf(self) -> bool {
        &&& self.factory is Some ==> {
            &&& self.factory.unwrap().next_id == self.stories@.len() + 1
            &&& self.factory.unwrap().published == self.stories@.len()
        }
        &&& self.factory is None ==> self.stories@.len() == 0
        &&& self.sales@.len() == self.stories@.len()
        &&& forall|i: int|
            0 <= i < self.stories@.len() ==> (#[trigger] self.stories@[i]).id == i + 1
                && self.stories@[i].wf()
        &&& forall|i: int|
            0 <= i < self.sales@.len() && (#[trigger] self.sales@[i]) is Some ==> {
                let s = self.sales@[i].unwrap();
                &&& s.id == i + 1
                &&& s.wf()
                &&& s.finds_recv_address < self.settlement.accounts@.len()
                &&& self.settlement.accounts@[s.finds_recv_address as int].asset == s.finds_mint
                &&& self.settlement.accounts@[s.finds_recv_address as int].owner
                    == self.stories@[i].author
            }
        &&& forall|j: int|
            0 <= j < self.tokens@.len() ==> (#[trigger] self.tokens@[j]).address == j + 1
    }

    /// A fresh deployment: nothing exists yet.
    pub fn new() -> (p: StoryPlatform)
        ensures
            p.factory is None,
            p.stories@.len() == 0,
            p.sales@.len() == 0,
            p.settlement.accounts@.len() == 0,
            p.tokens@.len() == 0,
            p.events@.len() == 0,
            p.wf(),
    {
        StoryPlatform {
            factory: None,
            stories: Vec::new(),
            sales: Vec::new(),
            settlement: SettlementLedger::new(),
            tokens: Vec::new(),
            events: Vec::new(),
        }
    }

    /// Whether a story with this id has been published.
    pub open spec fn has_story(self, id: u64) -> bool {
        1 <= id && id <= self.stories@.len()
    }

    /// The story record the id addresses.
    pub open spec fn story_at(self, id: u64) -> Story
        recommends
            self.has_story(id),
    {
        self.stories@[id - 1]
    }

    /// The sale ledger of the story, if one was opened.
    pub open spec fn sale_at(self, id: u64) -> Option<StoryNftMintState>
        recommends
            self.has_story(id),
    {
        self.sales@[id - 1]
    }

    /// What `initialize` decides: creating the registry is refused once one
    /// exists for this deployment.
    pub open spec fn initialize_outcome(self) -> Result<(), LedgerError> {
        if self.factory is Some {
            Err(LedgerError::InvalidState)
        } else {
            Ok(())
        }
    }

    /// Creates the singleton registry, owned by `manager`, with ids starting
    /// at 1. Nothing else changes, and on failure nothing changes at all.
    pub fn initialize(&mut self, manager: Identity) -> (r: Result<(), LedgerError>)
        requires
            old(self).wf(),
        ensures
            final(self).wf(),
            r == old(self).initialize_outcome(),
            r is Ok ==> final(self).factory == Some(
                StoryFactory { next_id: 1, manager, published: 0 },
            ),
            r is Ok ==> final(self).stories == old(self).stories
                && final(self).sales == old(self).sales
                && final(self).settlement == old(self).settlement
                && final(self).tokens == old(self).tokens
                && final(self).events == old(self).events,
            r is Err ==> *final(self) == *old(self),
    {
        if self.factory.is_some() {
            return Err(LedgerError::InvalidState);
        }
        self.factory = Some(StoryFactory::initialize(manager));
        Ok(())
    }

    /// What `publish_story` decides: publication needs the registry and a
    /// content reference within its bound; the id of a successful
    /// publication is the registry's `next_id`.
    pub open spec fn publish_outcome(self, cid: Seq<char>) -> Result<u64, LedgerError> {
        if self.factory is None {
            Err(LedgerError::NotFound)
        } else if cid.len() > CID_MAX_LEN {
            Err(LedgerError::ConstraintViolation)
        } else {
            Ok(self.factory.unwrap().next_id)
        }
    }

    /// Publishes a story: allocates the next id, stores the record with an
    /// empty sale slot, and notes `StoryUpdated`. Allocation and record
    /// creation commit together: no id is ever taken by two stories.
    pub fn publish_story(&mut self, author: Identity, cid: String) -> (r: Result<
        u64,
        LedgerError,
    >)
        requires
            old(self).wf(),
            old(self).factory is Some ==> old(self).factory.unwrap().next_id < u64::MAX,
        ensures
            final(self).wf(),
            r == old(self).publish_outcome(cid@),
            r matches Ok(id) ==> {
                &&& id == old(self).stories@.len() + 1
                &&& final(self).stories@ == old(self).stories@.push(Story { id, author, cid })
                &&& final(self).sales@ == old(self).sales@.push(None)
                &&& final(self).factory == Some(
                    StoryFactory {
                        next_id: (id + 1) as u64,
                        manager: old(self).factory.unwrap().manager,
                        published: id,
                    },
                )
                &&& final(self).events@ == old(self).events@.push(
                    EventRecord::StoryUpdated(StoryUpdated { id }),
                )
                &&& final(self).settlement == old(self).settlement
                &&& final(self).tokens == old(self).tokens
            },
            r is Err ==> *final(self) == *old(self),
    {
        if self.factory.is_none() {
            return Err(LedgerError::NotFound);
        }
        if cid.as_str().unicode_len() > CID_MAX_LEN {
            return Err(LedgerError::ConstraintViolation);
        }
        let mut f = self.factory.unwrap();
        let id = f.allocate_next_id();
        self.factory = Some(f);
        self.stories.push(Story { id, author, cid });
        self.sales.push(None);
        self.events.push(EventRecord::StoryUpdated(StoryUpdated { id }));
        Ok(id)
    }

    /// What `update_story` decides: the story must exist, only its author
    /// may replace the content reference, and the bound still holds.
    pub open spec fn update_outcome(self, caller: Identity, id: u64, cid: Seq<char>) -> Result<
        (),
        LedgerError,
    > {
        if !self.has_story(id) {
            Err(LedgerError::NotFound)
        } else if self.story_at(id).author != caller {
            Err(LedgerError::Unauthorized)
        } else if cid.len() > CID_MAX_LEN {
            Err(LedgerError::ConstraintViolation)
        } else {
            Ok(())
        }
    }

    /// Replaces the story's content reference and notes `StoryUpdated`. The
    /// id and the author never change; a caller other than the author is
    /// turned away with the record untouched.
    pub fn update_story(&mut self, caller: Identity, id: u64, cid: String) -> (r: Result<
        (),
        LedgerError,
    >)
        requires
            old(self).wf(),
        ensures
            final(self).wf(),
            r == old(self).update_outcome(caller, id, cid@),
            r is Ok ==> {
                &&& final(self).stories@ == old(self).stories@.update(
                    id - 1,
                    (Story { id, author: old(self).story_at(id).author, cid }),
                )
                &&& final(self).events@ == old(self).events@.push(
                    EventRecord::StoryUpdated(StoryUpdated { id }),
                )
                &&& final(self).factory == old(self).factory
                &&& final(self).sales == old(self).sales
                &&& final(self).settlement == old(self).settlement
                &&& final(self).tokens == old(self).tokens
            },
            r is Err ==> *final(self) == *old(self),
    {
        if id == 0 || id > self.stories.len() as u64 {
            return Err(LedgerError::NotFound);
        }
        let idx = (id - 1) as usize;
        if self.stories[idx].author != caller {
            return Err(LedgerError::Unauthorized);
        }
        if cid.as_str().unicode_len() > CID_MAX_LEN {
            return Err(LedgerError::ConstraintViolation);
        }
        let st = &mut self.stories[idx];
        st.cid = cid;
        self.events.push(EventRecord::StoryUpdated(StoryUpdated { id }));
        Ok(())
    }

    /// What `publish_story_nft` decides, check by check: the story and the
    /// receiving account must exist, only the author may open the sale and
    /// the account must be the author's in the sale's asset, at most one
    /// sale per story ever opens, the reserved allocation must fit in the
    /// total, and the descriptive fields must respect their bounds.
    pub open spec fn open_sale_outcome(
        self,
        caller: Identity,
        id: u64,
        total: u64,
        author_reserved: u64,
        title: Seq<char>,
        uri_prefix: Seq<char>,
        finds_mint: AssetRef,
        finds_recv_account: AccountRef,
    ) -> Result<(), LedgerError> {
        if !self.has_story(id) {
            Err(LedgerError::NotFound)
        } else if finds_recv_account >= self.settlement.accounts@.len() {
            Err(LedgerError::NotFound)
        } else if self.story_at(id).author != caller {
            Err(LedgerError::Unauthorized)
        } else if self.settlement.accounts@[finds_recv_account as int].owner != caller {
            Err(LedgerError::Unauthorized)
        } else if self.settlement.accounts@[finds_recv_account as int].asset != finds_mint {
            Err(LedgerError::ConstraintViolation)
        } else if self.sale_at(id) is Some {
            Err(LedgerError::InvalidState)
        } else if author_reserved > total {
            Err(LedgerError::ConstraintViolation)
        } else if uri_prefix.len() > URI_PREFIX_MAX_LEN {
            Err(LedgerError::ConstraintViolation)
        } else if title.len() > TITLE_MAX_LEN {
            Err(LedgerError::ConstraintViolation)
        } else {
            Ok(())
        }
    }

    /// Opens the one sale of a story: records supply, price, reserved
    /// allocation, descriptive fields and the settlement route, with both
    /// counters at zero, and notes `StoryNftPublished`. Validation and
    /// creation commit together; on any failure nothing changes, and an
    /// already-open sale is left exactly as it was.
    pub fn publish_story_nft(
        &mut self,
        caller: Identity,
        id: u64,
        price: u64,
        total: u64,
        author_reserved: u64,
        title: String,
        uri_prefix: String,
        finds_mint: AssetRef,
        finds_recv_account: AccountRef,
    ) -> (r: Result<(), LedgerError>)
        requires
            old(self).wf(),
        ensures
            final(self).wf(),
            r == old(self).open_sale_outcome(
                caller,
                id,
                total,
                author_reserved,
                title@,
                uri_prefix@,
                finds_mint,
                finds_recv_account,
            ),
            r is Ok ==> {
                &&& final(self).sales@ == old(self).sales@.update(
                    id - 1,
                    Some(
                        StoryNftMintState {
                            id,
                            total,
                            price,
                            sold: 0,
                            author_reserved,
                            author_claimed: 0,
                            uri_prefix,
                            title,
                            finds_recv_address: finds_recv_account,
                            finds_mint,
                        },
                    ),
                )
                &&& final(self).events@ == old(self).events@.push(
                    EventRecord::StoryNftPublished(StoryNftPublished { id }),
                )
                &&& final(self).factory == old(self).factory
                &&& final(self).stories == old(self).stories
                &&& final(self).settlement == old(self).settlement
                &&& final(self).tokens == old(self).tokens
            },
            r is Err ==> *final(self) == *old(self),
    {
        if id == 0 || id > self.stories.len() as u64 {
            return Err(LedgerError::NotFound);
        }
        let idx = (id - 1) as usize;
        if finds_recv_account >= self.settlement.accounts.len() {
            return Err(LedgerError::NotFound);
        }
        if self.stories[idx].author != caller {
            return Err(LedgerError::Unauthorized);
        }
        let recv = self.settlement.accounts[finds_recv_account];
        if recv.owner != caller {
            return Err(LedgerError::Unauthorized);
        }
        if recv.asset != finds_mint {
            return Err(LedgerError::ConstraintViolation);
        }
        if self.sales[idx].is_some() {
            return Err(LedgerError::InvalidState);
        }
        if author_reserved > total {
            return Err(LedgerError::ConstraintViolation);
        }
        if uri_prefix.as_str().unicode_len() > URI_PREFIX_MAX_LEN {
            return Err(LedgerError::ConstraintViolation);
        }
        if title.as_str().unicode_len() > TITLE_MAX_LEN {
            return Err(LedgerError::ConstraintViolation);
        }
        self.sales[idx] = Some(
            StoryNftMintState {
                id,
                total,
                price,
                sold: 0,
                author_reserved,
                author_claimed: 0,
                uri_prefix,
                title,
                finds_recv_address: finds_recv_account,
                finds_mint,
            },
        );
        self.events.push(EventRecord::StoryNftPublished(StoryNftPublished { id }));
        Ok(())
    }

    /// What `mint_story_nft` decides, check by check: the story and its sale
    /// must exist; the public allocation must not be exhausted; the token
    /// address space must not be spent; and the payment must go through,
    /// with `transfer_outcome` naming the error when it cannot. A mint is
    /// owed success exactly when every check passes, and the address of the
    /// token it issues is the next one in sequence.
    pub open spec fn mint_outcome(
        self,
        minter: Identity,
        id: u64,
        finds_send_account: AccountRef,
    ) -> Result<TokenAddress, LedgerError> {
        if !self.has_story(id) {
            Err(LedgerError::NotFound)
        } else if self.sale_at(id) is None {
            Err(LedgerError::NotFound)
        } else {
            let s = self.sale_at(id).unwrap();
            if s.total - s.author_reserved - s.sold <= 0 {
                Err(LedgerError::SupplyExhausted)
            } else if self.tokens@.len() >= u64::MAX {
                Err(LedgerError::ConstraintViolation)
            } else {
                match transfer_outcome(
                    self.settlement.accounts@,
                    finds_send_account,
                    s.finds_recv_address,
                    s.price,
                    minter,
                ) {
                    Err(e) => Err(e),
                    Ok(()) => Ok((self.tokens@.len() + 1) as u64),
                }
            }
        }
    }

    /// Mints one unique token of the story's edition to `minter`: checks the
    /// remaining public supply, moves exactly the unit price from the paying
    /// account to the sale's receiving account, advances `sold` by one,
    /// issues a one-of-one token with its metadata document and a sealed
    /// edition, and notes `NftMinted`. All of it commits as one unit of
    /// work: any failure leaves every record and balance untouched.
    pub fn mint_story_nft(
        &mut self,
        minter: Identity,
        id: u64,
        finds_send_account: AccountRef,
        seller_fee_basis_points: u16,
    ) -> (r: Result<TokenAddress, LedgerError>)
        requires
            old(self).wf(),
        ensures
            final(self).wf(),
            r == old(self).mint_outcome(minter, id, finds_send_account),
            r matches Ok(addr) ==> {
                let old_sale = old(self).sale_at(id).unwrap();
                let author = old(self).story_at(id).author;
                &&& addr == old(self).tokens@.len() + 1
                &&& final(self).tokens@.len() == old(self).tokens@.len() + 1
                &&& forall|j: int|
                    0 <= j < old(self).tokens@.len() ==> final(self).tokens@[j] == old(
                        self,
                    ).tokens@[j]
                &&& {
                    let t = final(self).tokens@.last();
                    &&& t.address == addr
                    &&& t.owner == minter
                    &&& t.supply == 1
                    &&& t.max_supply == 0
                    &&& t.metadata.name@ == old_sale.title@
                    &&& t.metadata.symbol@ == "Story"@
                    &&& t.metadata.uri@ == uri_of(old_sale.uri_prefix@, id)
                    &&& t.metadata.creators@ == seq![
                        (Creator { address: author, verified: false, share: 100u8 }),
                        (Creator { address: minter, verified: false, share: 0u8 }),
                    ]
                    &&& t.metadata.seller_fee_basis_points == seller_fee_basis_points
                    &&& t.metadata.is_mutable == true
                }
                &&& final(self).sales@.len() == old(self).sales@.len()
                &&& forall|j: int|
                    0 <= j < old(self).sales@.len() && j != id - 1 ==> final(self).sales@[j]
                        == old(self).sales@[j]
                &&& final(self).sales@[id - 1] is Some
                &&& {
                    let s2 = final(self).sales@[id - 1].unwrap();
                    &&& s2.sold == old_sale.sold + 1
                    &&& s2.id == old_sale.id
                    &&& s2.total == old_sale.total
                    &&& s2.price == old_sale.price
                    &&& s2.author_reserved == old_sale.author_reserved
                    &&& s2.author_claimed == old_sale.author_claimed
                    &&& s2.title == old_sale.title
                    &&& s2.uri_prefix == old_sale.uri_prefix
                    &&& s2.finds_recv_address == old_sale.finds_recv_address
                    &&& s2.finds_mint == old_sale.finds_mint
                }
                &&& final(self).settlement.accounts@ == transfer_applied(
                    old(self).settlement.accounts@,
                    finds_send_account,
                    old_sale.finds_recv_address,
                    old_sale.price,
                )
                &&& finds_send_account != old_sale.finds_recv_address ==> {
                    let pre = old(self).settlement.accounts@;
                    let post = final(self).settlement.accounts@;
                    &&& post[finds_send_account as int].balance == pre[finds_send_account
                        as int].balance - old_sale.price
                    &&& post[old_sale.finds_recv_address as int].balance
                        == pre[old_sale.finds_recv_address as int].balance + old_sale.price
                }
                &&& finds_send_account == old_sale.finds_recv_address
                    ==> final(self).settlement.accounts@ == old(self).settlement.accounts@
                &&& final(self).events@ == old(self).events@.push(
                    EventRecord::NftMinted((NftMinted { story_id: id, mint: addr })),
                )
                &&& final(self).stories == old(self).stories
                &&& final(self).factory == old(self).factory
            },
            r is Err ==> {
                &&& final(self).factory == old(self).factory
                &&& final(self).stories == old(self).stories
                &&& final(self).sales == old(self).sales
                &&& final(self).settlement == old(self).settlement
                &&& final(self).tokens == old(self).tokens
                &&& final(self).events == old(self).events
            },
    {
        if id == 0 || id > self.stories.len() as u64 {
            return Err(LedgerError::NotFound);
        }
        let idx = (id - 1) as usize;
        let author = self.stories[idx].author;
        let price: u64;
        let recv: AccountRef;
        let title_for_token: String;
        let uri: String;
        match &self.sales[idx] {
            None => {
                return Err(LedgerError::NotFound);
            },
            Some(st) => {
                if st.rest_sell_amount() == 0 {
                    return Err(LedgerError::SupplyExhausted);
                }
                price = st.price;
                recv = st.finds_recv_address;
                title_for_token = st.title.clone();
                uri = derive_uri(st.uri_prefix.as_str(), id);
            },
        }
        if self.tokens.len() as u64 == u64::MAX {
            return Err(LedgerError::ConstraintViolation);
        }
        match self.settlement.transfer(finds_send_account, recv, price, minter) {
            Err(e) => {
                return Err(e);
            },
            Ok(()) => {},
        }
        // The payment is through; from here every step succeeds, so the unit
        // of work as a whole commits.
        let token_address = self.tokens.len() as u64 + 1;
        match &mut self.sales[idx] {
            Some(st) => {
                st.sold = st.sold + 1;
            },
            None => {
                proof {
                    assert(false);
                }
            },
        }
        let mut creators: Vec<Creator> = Vec::new();
        creators.push(Creator { address: author, verified: false, share: 100 });
        creators.push(Creator { address: minter, verified: false, share: 0 });
        proof {
            assert(creators@ =~= seq![
                (Creator { address: author, verified: false, share: 100u8 }),
                (Creator { address: minter, verified: false, share: 0u8 }),
            ]);
        }
        self.tokens.push(
            MintedToken {
                address: token_address,
                owner: minter,
                supply: 1,
                max_supply: 0,
                metadata: TokenMetadata {
                    name: title_for_token,
                    symbol: String::from_str("Story"),
                    uri,
                    creators,
                    seller_fee_basis_points,
                    is_mutable: true,
                },
            },
        );
        self.events.push(EventRecord::NftMinted(NftMinted { story_id: id, mint: token_address }));
        Ok(token_address)
    }
}

/// Law: every published story carries a distinct id. Publication allocates
/// the id and creates the record as one committed step, so no id is ever
/// taken by two stories.
pub proof fn lemma_story_ids_unique(p: StoryPlatform)
    requires
        p.wf(),
    ensures
        forall|i: int, j: int|
            0 <= i < p.stories@.len() && 0 <= j < p.stories@.len() && i != j
                ==> (#[trigger] p.stories@[i]).id != (#[trigger] p.stories@[j]).id,
{
}

/// Law: the binding supply constraint holds of every open sale in every
/// reachable state: public sales and the author's reservation together never
/// exceed the total, so the edition cannot be over-sold, and the author's
/// claims stay within the reservation.
pub proof fn lemma_supply_never_oversold(p: StoryPlatform, id: u64)
    requires
        p.wf(),
        p.has_story(id),
        p.sale_at(id) is Some,
    ensures
        p.sale_at(id).unwrap().sold + p.sale_at(id).unwrap().author_reserved <= p.sale_at(
            id,
        ).unwrap().total,
        p.sale_at(id).unwrap().author_claimed <= p.sale_at(id).unwrap().author_reserved,
{
}

/// Law: once a sale's public allocation is exhausted, every further mint is
/// refused with `SupplyExhausted`, whoever asks and whatever account they
/// pay from; with `mint_story_nft`'s contract, the refusal leaves every
/// record and balance untouched, so no transition leads out of exhaustion.
pub proof fn lemma_exhausted_sale_refuses_mint(
    p: StoryPlatform,
    minter: Identity,
    id: u64,
    finds_send_account: AccountRef,
)
    requires
        p.wf(),
        p.has_story(id),
        p.sale_at(id) is Some,
        p.sale_at(id).unwrap().sold == p.sale_at(id).unwrap().total - p.sale_at(
            id,
        ).unwrap().author_reserved,
    ensures
        p.mint_outcome(minter, id, finds_send_account) == Err::<TokenAddress, LedgerError>(
            LedgerError::SupplyExhausted,
        ),
{
}

/// Law: a buyer whose account holds less than the unit price is refused with
/// `InsufficientFunds` whenever the sale itself could serve them; with
/// `mint_story_nft`'s contract, the refusal moves no balance, issues no
/// token and leaves `sold` unchanged.
pub proof fn lemma_underfunded_mint_refused(
    p: StoryPlatform,
    minter: Identity,
    id: u64,
    finds_send_account: AccountRef,
)
    requires
        p.wf(),
        p.has_story(id),
        p.sale_at(id) is Some,
        p.sale_at(id).unwrap().sold < p.sale_at(id).unwrap().total - p.sale_at(
            id,
        ).unwrap().author_reserved,
        p.tokens@.len() < u64::MAX,
        finds_send_account < p.settlement.accounts@.len(),
        p.settlement.accounts@[finds_send_account as int].owner == minter,
        p.settlement.accounts@[finds_send_account as int].asset == p.sale_at(
            id,
        ).unwrap().finds_mint,
        p.settlement.accounts@[finds_send_account as int].balance < p.sale_at(
            id,
        ).unwrap().price,
    ensures
        p.mint_outcome(minter, id, finds_send_account) == Err::<TokenAddress, LedgerError>(
            LedgerError::InsufficientFunds,
        ),
{
}

/// Law: every issued token carries a distinct address, so each successful
/// mint hands out a token that no other purchase can hold.
pub proof fn lemma_token_addresses_unique(p: StoryPlatform)
    requires
        p.wf(),
    ensures
        forall|i: int, j: int|
            0 <= i < p.tokens@.len() && 0 <= j < p.tokens@.len() && i != j
                ==> (#[trigger] p.tokens@[i]).address != (#[trigger] p.tokens@[j]).address,
{
}

} // verus!
