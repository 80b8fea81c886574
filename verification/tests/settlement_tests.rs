use story_mint::error::LedgerError;
use story_mint::settlement::SettlementLedger;

const ALICE: u64 = 1;
const BOB: u64 = 2;
const ASSET: u64 = 5;

#[test]
fn open_account_and_read_balance() {
    let mut l = SettlementLedger::new();
    let a = l.open_account(ALICE, ASSET, 40);
    let b = l.open_account(BOB, ASSET, 0);
    assert_eq!((a, b), (0, 1));
    assert_eq!(l.balance_of(a), Some(40));
    assert_eq!(l.balance_of(b), Some(0));
    assert_eq!(l.balance_of(2), None);
}

#[test]
fn transfer_moves_exact_amount() {
    let mut l = SettlementLedger::new();
    let a = l.open_account(ALICE, ASSET, 40);
    let b = l.open_account(BOB, ASSET, 7);
    assert_eq!(l.transfer(a, b, 15, ALICE), Ok(()));
    assert_eq!(l.balance_of(a), Some(25));
    assert_eq!(l.balance_of(b), Some(22));
}

#[test]
fn transfer_insufficient_funds() {
    let mut l = SettlementLedger::new();
    let a = l.open_account(ALICE, ASSET, 10);
    let b = l.open_account(BOB, ASSET, 0);
    assert_eq!(l.transfer(a, b, 11, ALICE), Err(LedgerError::InsufficientFunds));
    assert_eq!(l.balance_of(a), Some(10));
    assert_eq!(l.balance_of(b), Some(0));
}

#[test]
fn transfer_requires_owner_authorization() {
    let mut l = SettlementLedger::new();
    let a = l.open_account(ALICE, ASSET, 10);
    let b = l.open_account(BOB, ASSET, 0);
    assert_eq!(l.transfer(a, b, 5, BOB), Err(LedgerError::Unauthorized));
    assert_eq!(l.balance_of(a), Some(10));
}

#[test]
fn transfer_across_assets_rejected() {
    let mut l = SettlementLedger::new();
    let a = l.open_account(ALICE, ASSET, 10);
    let b = l.open_account(BOB, ASSET + 1, 0);
    assert_eq!(l.transfer(a, b, 5, ALICE), Err(LedgerError::ConstraintViolation));
}

#[test]
fn transfer_to_dangling_account_not_found() {
    let mut l = SettlementLedger::new();
    let a = l.open_account(ALICE, ASSET, 10);
    assert_eq!(l.transfer(a, 3, 5, ALICE), Err(LedgerError::NotFound));
    assert_eq!(l.transfer(3, a, 5, ALICE), Err(LedgerError::NotFound));
}

#[test]
fn transfer_to_self_changes_nothing() {
    let mut l = SettlementLedger::new();
    let a = l.open_account(ALICE, ASSET, 10);
    assert_eq!(l.transfer(a, a, 10, ALICE), Ok(()));
    assert_eq!(l.balance_of(a), Some(10));
}

#[test]
fn transfer_guards_receiving_overflow() {
    let mut l = SettlementLedger::new();
    let a = l.open_account(ALICE, ASSET, 10);
    let b = l.open_account(BOB, ASSET, u64::MAX - 4);
    assert_eq!(l.transfer(a, b, 5, ALICE), Err(LedgerError::ConstraintViolation));
    assert_eq!(l.transfer(a, b, 4, ALICE), Ok(()));
    assert_eq!(l.balance_of(b), Some(u64::MAX));
}
