//! The escrow record: the durable state of one escrow.

use crate::pubkey::Pubkey;
use crate::state::EscrowState;
use vstd::prelude::*;

verus! {

/// The longest description that a record may carry, in bytes.
pub const MAX_DESCRIPTION_LEN: usize = 200;

/// The durable state of one escrow: its parties, asset, amount, lifecycle
/// state and timestamps.
///
/// A timestamp of zero means "has not occurred".
#[derive(Clone, Debug, PartialEq, Eq)]
pub struct Escrow {
    /// The depositing party.
    pub buyer: Pubkey,
    /// The receiving party; the all-zero identity until a seller accepts.
    pub seller: Pubkey,
    /// The asset held in escrow.
    pub mint: Pubkey,
    /// The escrowed quantity, in units of the asset.
    pub amount: u64,
    /// Where in its lifecycle the escrow is.
    pub state: EscrowState,
    pub created_at: i64,
    pub accepted_at: i64,
    /// When funds went to the seller, by confirmation or by timeout.
    pub completed_at: i64,
    pub cancelled_at: i64,
    /// The deadline from which the timeout can be resolved.
    pub timeout_at: i64,
    /// Free text, for information only.
    pub description: String,
    /// The salt with which the record's own address was derived.
    pub bump: u8,
}

/// The length in bytes of a text in its stored form, which is UTF-8.
pub open spec fn byte_len(text: Seq<char>) -> nat {
    vstd::utf8::encode_utf8(text).len()
}

/// The length in bytes of a text as it is stored.
pub fn text_len(text: &str) -> (r: usize)
    ensures
        r == byte_len(text@),
{
    text.as_bytes().len()
}

impl Escrow {
    /// The size of the stored record when the description has its full
    /// length: three identities, the amount, the state, five timestamps, the
    /// length-prefixed description and the salt.
    pub const LEN: usize = 32 + 32 + 32 + 8 + 1 + 8 + 8 + 8 + 8 + 8 + (4 + 200) + 1;

    /// The space to reserve for a record: its tag of 8 bytes and `LEN`.
    pub const SPACE: usize = 8 + Escrow::LEN;

    /// The seller accepted at some point.
    pub open spec fn was_accepted(self) -> bool {
        self.state == EscrowState::Accepted || self.state == EscrowState::Completed || self.state
            == EscrowState::TimedOut
    }

    /// The funds went to the seller.
    pub open spec fn was_paid_out(self) -> bool {
        self.state == EscrowState::Completed || self.state == EscrowState::TimedOut
    }

    /// The invariant of a record: what holds of it at every observable moment.
    ///
    /// The amount is positive; a seller is set exactly when one has accepted;
    /// the deadline lies after the creation; each of `accepted_at`,
    /// `completed_at` and `cancelled_at` is set exactly when its transition has
    /// occurred; the description fits its bound.
    pub open spec fn wf(self) -> bool {
        &&& self.amount > 0
        &&& self.seller.is_nobody() <==> !self.was_accepted()
        &&& self.timeout_at > self.created_at
        &&& self.accepted_at != 0 <==> self.was_accepted()
        &&& self.completed_at != 0 <==> self.was_paid_out()
        &&& self.cancelled_at != 0 <==> self.state == EscrowState::Cancelled
        &&& byte_len(self.description@) <= MAX_DESCRIPTION_LEN
    }

    /// The number of bytes that the stored record takes.
    pub open spec fn stored_len(self) -> nat {
        (32 + 32 + 32 + 8 + 1 + 8 + 8 + 8 + 8 + 8 + 4 + 1 + byte_len(self.description@)) as nat
    }

    /// A copy of the record.
    pub fn duplicate(&self) -> (r: Escrow)
        ensures
            r == *self,
    {
        Escrow {
            buyer: self.buyer,
            seller: self.seller,
            mint: self.mint,
            amount: self.amount,
            state: self.state,
            created_at: self.created_at,
            accepted_at: self.accepted_at,
            completed_at: self.completed_at,
            cancelled_at: self.cancelled_at,
            timeout_at: self.timeout_at,
            description: self.description.clone(),
            bump: self.bump,
        }
    }

    /// Whether the record satisfies its invariant.
    pub fn is_well_formed(&self) -> (r: bool)
        ensures
            r == self.wf(),
    {
        let accepted = match self.state {
            EscrowState::Accepted | EscrowState::Completed | EscrowState::TimedOut => true,
            _ => false,
        };
        let paid_out = match self.state {
            EscrowState::Completed | EscrowState::TimedOut => true,
            _ => false,
        };
        let cancelled = match self.state {
            EscrowState::Cancelled => true,
            _ => false,
        };
        self.amount > 0 && self.seller.is_default() != accepted && self.timeout_at
            > self.created_at && (self.accepted_at != 0) == accepted && (self.completed_at != 0)
            == paid_out && (self.cancelled_at != 0) == cancelled && text_len(
            self.description.as_str(),
        ) <= MAX_DESCRIPTION_LEN
    }

    /// The number of bytes that the stored record takes. A well-formed record
    /// fits the space that was reserved for it.
    pub fn serialized_len(&self) -> (r: usize)
        requires
            byte_len(self.description@) <= MAX_DESCRIPTION_LEN,
        ensures
            r == self.stored_len(),
            r <= Escrow::LEN,
    {
        let fixed: usize = 32 + 32 + 32 + 8 + 1 + 8 + 8 + 8 + 8 + 8 + 4 + 1;
        fixed + text_len(self.description.as_str())
    }
}

} // verus!
