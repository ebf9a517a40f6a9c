//! The ways in which a requested operation is rejected.

use vstd::prelude::*;

verus! {

/// Why an operation was rejected. A rejected operation has no effect at all.
#[derive(Clone, Copy, Debug, PartialEq, Eq, Structural)]
pub enum EscrowError {
    /// The requested transition is not legal from the current state.
    InvalidState,
    /// The seller field is already populated.
    AlreadyAccepted,
    /// The caller, or the account presented for the buyer, is not the buyer's.
    UnauthorizedBuyer,
    /// The account presented for the seller is not the seller's.
    UnauthorizedSeller,
    /// Timeout resolution was attempted before the deadline.
    TimeoutNotReached,
    /// The deposit exceeds the balance available to the buyer.
    InsufficientFunds,
    /// The referenced escrow does not exist.
    NotFound,
}

impl EscrowError {
    /// The text that describes this kind of rejection.
    pub open spec fn message_text(self) -> Seq<char> {
        match self {
            EscrowError::InvalidState => "Invalid escrow state for this operation"@,
            EscrowError::AlreadyAccepted => "Escrow has already been accepted by a seller"@,
            EscrowError::UnauthorizedBuyer => "Only the buyer can perform this action"@,
            EscrowError::UnauthorizedSeller => "Only the seller can perform this action"@,
            EscrowError::TimeoutNotReached => "Timeout has not been reached yet"@,
            EscrowError::InsufficientFunds => "Insufficient funds for the requested deposit"@,
            EscrowError::NotFound => "No escrow exists under this identity"@,
        }
    }

    /// A human-readable description of the rejection.
    pub fn message(&self) -> (r: &'static str)
        ensures
            r@ == self.message_text(),
    {
        match self {
            EscrowError::InvalidState => "Invalid escrow state for this operation",
            EscrowError::AlreadyAccepted => "Escrow has already been accepted by a seller",
            EscrowError::UnauthorizedBuyer => "Only the buyer can perform this action",
            EscrowError::UnauthorizedSeller => "Only the seller can perform this action",
            EscrowError::TimeoutNotReached => "Timeout has not been reached yet",
            EscrowError::InsufficientFunds => "Insufficient funds for the requested deposit",
            EscrowError::NotFound => "No escrow exists under this identity",
        }
    }
}

} // verus!
