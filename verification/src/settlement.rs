use vstd::prelude::*;

use crate::error::LedgerError;
use crate::ids::{AccountRef, AssetRef, Identity};

verus! {

/// One account of the settlement-asset ledger: an owner, the asset it is
/// denominated in, and its balance in minor units.
#[derive(Clone, Copy, Debug, PartialEq, Eq, Structural)]
pub struct TokenAccount {
    pub owner: Identity,
    pub asset: AssetRef,
    pub balance: u64,
}

/// The fungible settlement-asset ledger the core pays through. Accounts live
/// in an arena and are addressed by their index, so a reference is valid
/// exactly when it is below the table's length.
#[derive(Debug)]
pub struct SettlementLedger {
    pub accounts: Vec<TokenAccount>,
}

/// What `transfer` decides, given the account table it starts from: the
/// first failing check names the error, and a transfer is owed success
/// exactly when no check fails.
pub open spec fn transfer_outcome(
    accounts: Seq<TokenAccount>,
    from: AccountRef,
    to: AccountRef,
    amount: u64,
    authorizing: Identity,
) -> Result<(), LedgerError> {
    if from >= accounts.len() || to >= accounts.len() {
        Err(LedgerError::NotFound)
    } else if accounts[from as int].owner != authorizing {
        Err(LedgerError::Unauthorized)
    } else if accounts[from as int].asset != accounts[to as int].asset {
        Err(LedgerError::ConstraintViolation)
    } else if accounts[from as int].balance < amount {
        Err(LedgerError::InsufficientFunds)
    } else if from != to && amount > u64::MAX - accounts[to as int].balance {
        Err(LedgerError::ConstraintViolation)
    } else {
        Ok(())
    }
}

/// The account table after a successful transfer: `amount` leaves `from` and
/// reaches `to`; a transfer to the paying account itself changes nothing.
pub open spec fn transfer_applied(
    accounts: Seq<TokenAccount>,
    from: AccountRef,
    to: AccountRef,
    amount: u64,
) -> Seq<TokenAccount>
    recommends
        transfer_outcome(accounts, from, to, amount, accounts[from as int].owner) is Ok,
{
    let debited = accounts.update(
        from as int,
        TokenAccount {
            owner: accounts[from as int].owner,
            asset: accounts[from as int].asset,
            balance: (accounts[from as int].balance - amount) as u64,
        },
    );
    debited.update(
        to as int,
        TokenAccount {
            owner: debited[to as int].owner,
            asset: debited[to as int].asset,
            balance: (debited[to as int].balance + amount) as u64,
        },
    )
}

impl SettlementLedger {
    /// An empty ledger with no accounts.
    pub fn new() -> (l: SettlementLedger)
        ensures
            l.accounts@ == Seq::<TokenAccount>::empty(),
    {
        SettlementLedger { accounts: Vec::new() }
    }

    /// Opens a fresh account for `owner` in `asset` with the given starting
    /// balance, and returns its reference.
    pub fn open_account(&mut self, owner: Identity, asset: AssetRef, initial: u64) -> (a: AccountRef)
        ensures
            a == old(self).accounts@.len(),
            final(self).accounts@ == old(self).accounts@.push(
                TokenAccount { owner, asset, balance: initial },
            ),
    {
        let a = self.accounts.len();
        self.accounts.push(TokenAccount { owner, asset, balance: initial });
        a
    }

    /// The balance the account holds, or nothing for a dangling reference.
    pub fn balance_of(&self, a: AccountRef) -> (r: Option<u64>)
        ensures
            a < self.accounts@.len() ==> r == Some(self.accounts@[a as int].balance),
            a >= self.accounts@.len() ==> r is None,
    {
        if a < self.accounts.len() {
            Some(self.accounts[a].balance)
        } else {
            None
        }
    }

    /// Moves exactly `amount` from `from` to `to`, authorized by the owner of
    /// `from`. On any failure nothing changes; on success the two balances
    /// move by exactly `amount` and every other account is untouched.
    pub fn transfer(
        &mut self,
        from: AccountRef,
        to: AccountRef,
        amount: u64,
        authorizing: Identity,
    ) -> (r: Result<(), LedgerError>)
        ensures
            r == transfer_outcome(old(self).accounts@, from, to, amount, authorizing),
            r is Ok ==> final(self).accounts@ == transfer_applied(
                old(self).accounts@, from, to, amount,
            ),
            r is Err ==> *final(self) == *old(self),
    {
        if from >= self.accounts.len() || to >= self.accounts.len() {
            return Err(LedgerError::NotFound);
        }
        let src = self.accounts[from];
        let dst = self.accounts[to];
        if src.owner != authorizing {
            return Err(LedgerError::Unauthorized);
        }
        if src.asset != dst.asset {
            return Err(LedgerError::ConstraintViolation);
        }
        if src.balance < amount {
            return Err(LedgerError::InsufficientFunds);
        }
        if from != to && amount > u64::MAX - dst.balance {
            return Err(LedgerError::ConstraintViolation);
        }
        self.accounts[from] = TokenAccount {
            owner: src.owner,
            asset: src.asset,
            balance: src.balance - amount,
        };
        let cur = self.accounts[to];
        self.accounts[to] = TokenAccount {
            owner: cur.owner,
            asset: cur.asset,
            balance: cur.balance + amount,
        };
        Ok(())
    }
}

} // verus!
