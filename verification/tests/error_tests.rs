use story_mint::error::LedgerError;

#[test]
fn every_error_kind_carries_a_reason() {
    let kinds = [
        LedgerError::Unauthorized,
        LedgerError::NotFound,
        LedgerError::InvalidState,
        LedgerError::ConstraintViolation,
        LedgerError::SupplyExhausted,
        LedgerError::InsufficientFunds,
    ];
    for (i, a) in kinds.iter().enumerate() {
        assert!(!a.reason().is_empty());
        for b in kinds.iter().skip(i + 1) {
            assert_ne!(a.reason(), b.reason());
        }
    }
    assert_eq!(
        LedgerError::SupplyExhausted.reason(),
        "no supply is left for public sale"
    );
    assert_eq!(
        LedgerError::InsufficientFunds.reason(),
        "payment account balance is below the unit price"
    );
}
