//! The read-only projection of an escrow record.

use crate::escrow::Escrow;
use crate::pubkey::Pubkey;
use crate::state::EscrowState;
use vstd::prelude::*;

verus! {

/// What there is to show of an escrow: every field of its record, with each
/// of the three later timestamps present only if its transition has
/// occurred.
#[derive(Clone, Debug, PartialEq, Eq)]
pub struct EscrowInfo {
    /// The address under which the escrow lives.
    pub address: Pubkey,
    pub buyer: Pubkey,
    pub seller: Pubkey,
    pub mint: Pubkey,
    pub amount: u64,
    pub state: EscrowState,
    pub description: String,
    pub created_at: i64,
    pub timeout_at: i64,
    pub accepted_at: Option<i64>,
    pub completed_at: Option<i64>,
    pub cancelled_at: Option<i64>,
}

/// A timestamp as it is shown: present if it is positive, which is to say if
/// its transition has occurred.
pub open spec fn occurred_at(timestamp: i64) -> Option<i64> {
    if timestamp > 0 {
        Some(timestamp)
    } else {
        None
    }
}

/// The projection of the record `data` that lives under `address`.
pub open spec fn info_of(address: Pubkey, data: Escrow) -> EscrowInfo {
    EscrowInfo {
        address,
        buyer: data.buyer,
        seller: data.seller,
        mint: data.mint,
        amount: data.amount,
        state: data.state,
        description: data.description,
        created_at: data.created_at,
        timeout_at: data.timeout_at,
        accepted_at: occurred_at(data.accepted_at),
        completed_at: occurred_at(data.completed_at),
        cancelled_at: occurred_at(data.cancelled_at),
    }
}

/// A timestamp as it is shown.
pub fn shown(timestamp: i64) -> (r: Option<i64>)
    ensures
        r == occurred_at(timestamp),
{
    if timestamp > 0 {
        Some(timestamp)
    } else {
        None
    }
}

/// The projection of the record `data` that lives under `address`. The record
/// is left as it is.
pub fn escrow_info(address: &Pubkey, data: &Escrow) -> (r: EscrowInfo)
    ensures
        r == info_of(*address, *data),
{
    EscrowInfo {
        address: *address,
        buyer: data.buyer,
        seller: data.seller,
        mint: data.mint,
        amount: data.amount,
        state: data.state,
        description: data.description.clone(),
        created_at: data.created_at,
        timeout_at: data.timeout_at,
        accepted_at: shown(data.accepted_at),
        completed_at: shown(data.completed_at),
        cancelled_at: shown(data.cancelled_at),
    }
}

} // verus!
