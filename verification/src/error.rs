use vstd::prelude::*;

verus! {

/// The failure kinds of the core. Every rejected operation reports exactly one
/// of these and aborts the enclosing unit of work with no persisted change.
#[derive(Clone, Copy, Debug, PartialEq, Eq, Structural)]
pub enum LedgerError {
    /// The caller is not the author or manager the operation requires.
    Unauthorized,
    /// A referenced story, sale ledger or account is absent.
    NotFound,
    /// The operation is not valid at this point of the lifecycle.
    InvalidState,
    /// A field length, a cross-reference, or the reserved/total relationship
    /// is violated.
    ConstraintViolation,
    /// The public allocation of the sale is sold out.
    SupplyExhausted,
    /// The paying account holds less than the unit price.
    InsufficientFunds,
}

/// The reason string each failure kind carries, as a sequence of characters.
pub open spec fn reason_of(e: LedgerError) -> Seq<char> {
    match e {
        LedgerError::Unauthorized => "caller is not the required identity"@,
        LedgerError::NotFound => "referenced record does not exist"@,
        LedgerError::InvalidState => "operation is not valid in the current state"@,
        LedgerError::ConstraintViolation => "a field or supply constraint is violated"@,
        LedgerError::SupplyExhausted => "no supply is left for public sale"@,
        LedgerError::InsufficientFunds => "payment account balance is below the unit price"@,
    }
}

impl LedgerError {
    /// A human-readable reason for the failure.
    pub fn reason(&self) -> (r: &'static str)
        ensures
            r@ == reason_of(*self),
    {
        match self {
            LedgerError::Unauthorized => "caller is not the required identity",
            LedgerError::NotFound => "referenced record does not exist",
            LedgerError::InvalidState => "operation is not valid in the current state",
            LedgerError::ConstraintViolation => "a field or supply constraint is violated",
            LedgerError::SupplyExhausted => "no supply is left for public sale",
            LedgerError::InsufficientFunds => "payment account balance is below the unit price",
        }
    }
}

} // verus!
