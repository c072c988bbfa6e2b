use vstd::prelude::*;

use crate::custody::CustodyError;

verus! {

/// Validation failures of the trade protocol. Every one is raised before any
/// funds move and aborts the operation with the entry untouched.
#[derive(Clone, Copy, Debug, PartialEq, Eq, Structural)]
pub enum TradeError {
    /// The escrowed amount must be greater than zero.
    InvalidAmount,
    /// Funds are not locked yet: the deposit step found the entry outside its
    /// transient creation stage.
    UnexpectedState,
    /// Documents were properly submitted; the trade can no longer be cancelled.
    InvalidStateTransition,
    /// The trade's balance is empty.
    VaultBalanceMismatch,
    /// The entry is not in the state the requested transition starts from.
    InvalidState,
    /// Documents were already submitted; the commitment is write-once.
    UnexpectedStateTransition,
    /// Documents have not been submitted, so there is nothing to adjudicate.
    UnreadyState,
    /// The vault's balance does not match the escrowed amount.
    VaultMismatch,
    /// No documents were submitted, so arrival cannot be confirmed.
    MissingDocuments,
}

/// The failure of one protocol operation: either a validation failure of the
/// trade rules or a failure reported by the custody primitive. Either way the
/// whole operation aborts and nothing it touches changes.
#[derive(Clone, Copy, Debug, PartialEq, Eq, Structural)]
pub enum OperationError {
    Trade(TradeError),
    Custody(CustodyError),
}

} // verus!
