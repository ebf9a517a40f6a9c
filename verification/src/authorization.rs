//! Authorization: side-effect-free predicates over the caller,
//! the record and the time, and one precondition function per operation.
//!
//! None of them reads the description of a record.

use crate::error::EscrowError;
use crate::escrow::{byte_len, text_len, Escrow, MAX_DESCRIPTION_LEN};
use crate::pubkey::Pubkey;
use crate::state::{EscrowState, Transition};
use vstd::prelude::*;

verus! {

/// What the precondition of `Create` says of its parameters: the amount and
/// the timeout duration must be positive and the description must fit.
pub open spec fn create_verdict(
    amount: u64,
    timeout_duration: i64,
    description: Seq<char>,
) -> Result<(), EscrowError> {
    if amount == 0 || timeout_duration <= 0 || byte_len(description) > MAX_DESCRIPTION_LEN {
        Err(EscrowError::InvalidState)
    } else {
        Ok(())
    }
}

/// What the precondition of `Accept` says of a record.
pub open spec fn accept_verdict(record: Escrow) -> Result<(), EscrowError> {
    if record.state != EscrowState::Created {
        Err(EscrowError::InvalidState)
    } else if !record.seller.is_nobody() {
        Err(EscrowError::AlreadyAccepted)
    } else {
        Ok(())
    }
}

/// What the precondition of `ConfirmDelivery` says of a caller and a record.
pub open spec fn confirm_verdict(caller: Pubkey, record: Escrow) -> Result<(), EscrowError> {
    if record.state != EscrowState::Accepted {
        Err(EscrowError::InvalidState)
    } else if caller != record.buyer {
        Err(EscrowError::UnauthorizedBuyer)
    } else {
        Ok(())
    }
}

/// What the precondition of `Cancel` says of a caller and a record.
pub open spec fn cancel_verdict(caller: Pubkey, record: Escrow) -> Result<(), EscrowError> {
    if record.state != EscrowState::Created {
        Err(EscrowError::InvalidState)
    } else if caller != record.buyer {
        Err(EscrowError::UnauthorizedBuyer)
    } else {
        Ok(())
    }
}

/// What the precondition of `ResolveTimeout` says of a record and the time.
/// The caller plays no part in it.
pub open spec fn timeout_verdict(record: Escrow, now: i64) -> Result<(), EscrowError> {
    if record.state != EscrowState::Accepted {
        Err(EscrowError::InvalidState)
    } else if now < record.timeout_at {
        Err(EscrowError::TimeoutNotReached)
    } else {
        Ok(())
    }
}

/// Whether `caller` is the buyer of the record.
pub fn is_buyer(caller: &Pubkey, record: &Escrow) -> (r: bool)
    ensures
        r == (*caller == record.buyer),
{
    *caller == record.buyer
}

/// Whether `caller` is the seller of the record.
pub fn is_seller(caller: &Pubkey, record: &Escrow) -> (r: bool)
    ensures
        r == (*caller == record.seller),
{
    *caller == record.seller
}

/// Whether the transition graph allows `requested` from the record's state.
pub fn state_allows(record: &Escrow, requested: Transition) -> (r: bool)
    ensures
        r == (record.state == requested.source()),
{
    record.state == requested.from_state()
}

/// Whether the deadline of the record has been reached at `now`.
pub fn timeout_elapsed(record: &Escrow, now: i64) -> (r: bool)
    ensures
        r == (now >= record.timeout_at),
{
    now >= record.timeout_at
}

/// The precondition of `Create`.
pub fn authorize_create(amount: u64, timeout_duration: i64, description: &str) -> (r: Result<
    (),
    EscrowError,
>)
    ensures
        r == create_verdict(amount, timeout_duration, description@),
{
    if amount == 0 || timeout_duration <= 0 || text_len(description) > MAX_DESCRIPTION_LEN {
        Err(EscrowError::InvalidState)
    } else {
        Ok(())
    }
}

/// The precondition of `Accept`: the record is in `Created`, and no seller
/// is set.
pub fn authorize_accept(record: &Escrow) -> (r: Result<(), EscrowError>)
    ensures
        r == accept_verdict(*record),
{
    if !state_allows(record, Transition::Accept) {
        Err(EscrowError::InvalidState)
    } else if !record.seller.is_default() {
        Err(EscrowError::AlreadyAccepted)
    } else {
        Ok(())
    }
}

/// The precondition of `ConfirmDelivery`: the record is in `Accepted`, and the
/// caller is the buyer.
pub fn authorize_confirm_delivery(caller: &Pubkey, record: &Escrow) -> (r: Result<
    (),
    EscrowError,
>)
    ensures
        r == confirm_verdict(*caller, *record),
{
    if !state_allows(record, Transition::ConfirmDelivery) {
        Err(EscrowError::InvalidState)
    } else if !is_buyer(caller, record) {
        Err(EscrowError::UnauthorizedBuyer)
    } else {
        Ok(())
    }
}

/// The precondition of `Cancel`: the record is in `Created`, and the caller is
/// the buyer.
pub fn authorize_cancel(caller: &Pubkey, record: &Escrow) -> (r: Result<(), EscrowError>)
    ensures
        r == cancel_verdict(*caller, *record),
{
    if !state_allows(record, Transition::Cancel) {
        Err(EscrowError::InvalidState)
    } else if !is_buyer(caller, record) {
        Err(EscrowError::UnauthorizedBuyer)
    } else {
        Ok(())
    }
}

/// The precondition of `ResolveTimeout`: the record is in `Accepted`, and the
/// deadline has been reached. Any caller may ask.
pub fn authorize_resolve_timeout(record: &Escrow, now: i64) -> (r: Result<(), EscrowError>)
    ensures
        r == timeout_verdict(*record, now),
{
    if !state_allows(record, Transition::ResolveTimeout) {
        Err(EscrowError::InvalidState)
    } else if !timeout_elapsed(record, now) {
        Err(EscrowError::TimeoutNotReached)
    } else {
        Ok(())
    }
}

} // verus!
