//! The lifecycle state machine: the five operations that create an escrow and
//! move it along the transition graph.
//!
//! Each operation works on a context that holds, as plain values, the caller
//! and the accounts that the operation touches. An operation is atomic: it
//! either applies its whole effect to the context or rejects the request and
//! leaves the context as it was.

use crate::authorization::{
    accept_verdict, authorize_accept, authorize_cancel, authorize_confirm_delivery,
    authorize_create, authorize_resolve_timeout, cancel_verdict, confirm_verdict, create_verdict,
    timeout_verdict,
};
use crate::error::EscrowError;
use crate::escrow::Escrow;
use crate::pubkey::Pubkey;
use crate::state::EscrowState;
use crate::vault::{TokenAccount, Vault};
use vstd::prelude::*;

verus! {

/// What `create_escrow` works on.
#[derive(Clone, Debug, PartialEq, Eq)]
pub struct CreateEscrow {
    /// The caller, who deposits.
    pub buyer: Pubkey,
    /// The identity under which the escrow is to live.
    pub escrow_key: Pubkey,
    /// The record under that identity: `None` as long as there is none.
    pub escrow: Option<Escrow>,
    /// The asset to deposit.
    pub mint: Pubkey,
    /// The account from which the deposit is taken.
    pub buyer_token_account: TokenAccount,
    /// The vault under that identity: `None` as long as there is none.
    pub vault_token_account: Option<Vault>,
    /// The salt with which `escrow_key` was derived.
    pub bump: u8,
}

/// What `accept_escrow` works on.
#[derive(Clone, Debug, PartialEq, Eq)]
pub struct AcceptEscrow {
    /// The caller, who commits to deliver.
    pub seller: Pubkey,
    pub escrow: Escrow,
}

/// What `confirm_delivery` works on.
#[derive(Clone, Debug, PartialEq, Eq)]
pub struct ConfirmDelivery {
    /// The caller.
    pub buyer: Pubkey,
    /// The identity of the escrow.
    pub escrow_key: Pubkey,
    pub escrow: Escrow,
    pub vault_token_account: Vault,
    /// The account that receives the funds.
    pub seller_token_account: TokenAccount,
}

/// What `cancel_escrow` works on.
#[derive(Clone, Debug, PartialEq, Eq)]
pub struct CancelEscrow {
    /// The caller.
    pub buyer: Pubkey,
    /// The identity of the escrow.
    pub escrow_key: Pubkey,
    pub escrow: Escrow,
    pub vault_token_account: Vault,
    /// The account that receives the refund.
    pub buyer_token_account: TokenAccount,
}

/// What `resolve_timeout` works on.
#[derive(Clone, Debug, PartialEq, Eq)]
pub struct ResolveTimeout {
    /// The caller; anyone may resolve a timeout.
    pub resolver: Pubkey,
    /// The identity of the escrow.
    pub escrow_key: Pubkey,
    pub escrow: Escrow,
    pub vault_token_account: Vault,
    /// The account that receives the funds.
    pub seller_token_account: TokenAccount,
}

impl CreateEscrow {
    /// Whether a record or a vault already lives under the identity.
    pub open spec fn occupied(self) -> bool {
        self.escrow is Some || self.vault_token_account is Some
    }

    /// Whether the request is accepted, and else why it is rejected: for its
    /// parameters, because the identity is taken, because the account
    /// presented is not the buyer's account of the asset, or because that
    /// account holds too little, in this order.
    pub open spec fn verdict(
        self,
        amount: u64,
        timeout_duration: i64,
        description: Seq<char>,
    ) -> Result<(), EscrowError> {
        if create_verdict(amount, timeout_duration, description) is Err {
            create_verdict(amount, timeout_duration, description)
        } else if self.occupied() {
            Err(EscrowError::InvalidState)
        } else if !self.buyer_token_account.belongs_to(self.buyer, self.mint) {
            Err(EscrowError::UnauthorizedBuyer)
        } else if self.buyer_token_account.amount < amount {
            Err(EscrowError::InsufficientFunds)
        } else {
            Ok(())
        }
    }

    /// Decides whether the request is accepted, without any effect.
    pub fn check(&self, amount: u64, timeout_duration: i64, description: &str) -> (r: Result<
        (),
        EscrowError,
    >)
        ensures
            r == self.verdict(amount, timeout_duration, description@),
    {
        authorize_create(amount, timeout_duration, description)?;
        if self.escrow.is_some() || self.vault_token_account.is_some() {
            return Err(EscrowError::InvalidState);
        }
        if !self.buyer_token_account.is_account_of(&self.buyer, &self.mint) {
            return Err(EscrowError::UnauthorizedBuyer);
        }
        if self.buyer_token_account.amount < amount {
            return Err(EscrowError::InsufficientFunds);
        }
        Ok(())
    }

    /// The record that a successful `Create` writes.
    pub open spec fn new_record(
        self,
        amount: u64,
        timeout_duration: i64,
        description: String,
        now: i64,
    ) -> Escrow {
        Escrow {
            buyer: self.buyer,
            seller: Pubkey::nobody(),
            mint: self.mint,
            amount,
            state: EscrowState::Created,
            created_at: now,
            accepted_at: 0,
            completed_at: 0,
            cancelled_at: 0,
            timeout_at: (now + timeout_duration) as i64,
            description,
            bump: self.bump,
        }
    }

    /// The context after a successful `Create`: the record and the vault
    /// exist, and the vault holds what left the buyer's account.
    pub open spec fn applied(
        self,
        amount: u64,
        timeout_duration: i64,
        description: String,
        now: i64,
    ) -> CreateEscrow {
        CreateEscrow {
            escrow: Some(self.new_record(amount, timeout_duration, description, now)),
            vault_token_account: Some(
                Vault { authority: self.escrow_key, mint: self.mint, balance: amount },
            ),
            buyer_token_account: TokenAccount {
                amount: (self.buyer_token_account.amount - amount) as u64,
                ..self.buyer_token_account
            },
            ..self
        }
    }
}

impl AcceptEscrow {
    /// Whether the request is accepted, and else why it is rejected.
    pub open spec fn verdict(self) -> Result<(), EscrowError> {
        accept_verdict(self.escrow)
    }

    /// Decides whether the request is accepted, without any effect.
    pub fn check(&self) -> (r: Result<(), EscrowError>)
        ensures
            r == self.verdict(),
    {
        authorize_accept(&self.escrow)
    }

    /// The context after a successful `Accept`.
    pub open spec fn applied(self, now: i64) -> AcceptEscrow {
        AcceptEscrow {
            escrow: Escrow {
                seller: self.seller,
                state: EscrowState::Accepted,
                accepted_at: now,
                ..self.escrow
            },
            ..self
        }
    }
}

impl ConfirmDelivery {
    /// Whether the request is accepted, and else why it is rejected: for the
    /// state, for the caller, because the account presented is not the
    /// seller's account of the asset, or because the vault presented is not
    /// that of the escrow, in this order.
    pub open spec fn verdict(self) -> Result<(), EscrowError> {
        if confirm_verdict(self.buyer, self.escrow) is Err {
            confirm_verdict(self.buyer, self.escrow)
        } else if !self.seller_token_account.belongs_to(self.escrow.seller, self.escrow.mint) {
            Err(EscrowError::UnauthorizedSeller)
        } else if !self.vault_token_account.serves(self.escrow_key, self.escrow.mint) {
            Err(EscrowError::NotFound)
        } else {
            Ok(())
        }
    }

    /// Whether the balance of the vault can be added to that of the seller's
    /// account.
    pub open spec fn releasable(self) -> bool {
        self.vault_token_account.fits(self.seller_token_account)
    }

    /// Decides whether the request is accepted, without any effect.
    pub fn check(&self) -> (r: Result<(), EscrowError>)
        ensures
            r == self.verdict(),
    {
        authorize_confirm_delivery(&self.buyer, &self.escrow)?;
        if !self.seller_token_account.is_account_of(&self.escrow.seller, &self.escrow.mint) {
            return Err(EscrowError::UnauthorizedSeller);
        }
        if !self.vault_token_account.is_vault_of(&self.escrow_key, &self.escrow.mint) {
            return Err(EscrowError::NotFound);
        }
        Ok(())
    }

    /// Whether the balance of the vault can be added to that of the seller's
    /// account.
    pub fn can_release(&self) -> (r: bool)
        ensures
            r == self.releasable(),
    {
        self.vault_token_account.has_room_in(&self.seller_token_account)
    }

    /// The context after a successful `ConfirmDelivery`: the whole balance of
    /// the vault is with the seller.
    pub open spec fn applied(self, now: i64) -> ConfirmDelivery {
        ConfirmDelivery {
            escrow: Escrow { state: EscrowState::Completed, completed_at: now, ..self.escrow },
            vault_token_account: Vault { balance: 0, ..self.vault_token_account },
            seller_token_account: TokenAccount {
                amount: (self.seller_token_account.amount
                    + self.vault_token_account.balance) as u64,
                ..self.seller_token_account
            },
            ..self
        }
    }
}

impl CancelEscrow {
    /// Whether the request is accepted, and else why it is rejected: for the
    /// state, for the caller, because the account presented is not the
    /// buyer's account of the asset, or because the vault presented is not
    /// that of the escrow, in this order.
    pub open spec fn verdict(self) -> Result<(), EscrowError> {
        if cancel_verdict(self.buyer, self.escrow) is Err {
            cancel_verdict(self.buyer, self.escrow)
        } else if !self.buyer_token_account.belongs_to(self.escrow.buyer, self.escrow.mint) {
            Err(EscrowError::UnauthorizedBuyer)
        } else if !self.vault_token_account.serves(self.escrow_key, self.escrow.mint) {
            Err(EscrowError::NotFound)
        } else {
            Ok(())
        }
    }

    /// Whether the balance of the vault can be added to that of the buyer's
    /// account.
    pub open spec fn releasable(self) -> bool {
        self.vault_token_account.fits(self.buyer_token_account)
    }

    /// Decides whether the request is accepted, without any effect.
    pub fn check(&self) -> (r: Result<(), EscrowError>)
        ensures
            r == self.verdict(),
    {
        authorize_cancel(&self.buyer, &self.escrow)?;
        if !self.buyer_token_account.is_account_of(&self.escrow.buyer, &self.escrow.mint) {
            return Err(EscrowError::UnauthorizedBuyer);
        }
        if !self.vault_token_account.is_vault_of(&self.escrow_key, &self.escrow.mint) {
            return Err(EscrowError::NotFound);
        }
        Ok(())
    }

    /// Whether the balance of the vault can be added to that of the buyer's
    /// account.
    pub fn can_release(&self) -> (r: bool)
        ensures
            r == self.releasable(),
    {
        self.vault_token_account.has_room_in(&self.buyer_token_account)
    }

    /// The context after a successful `Cancel`: the whole balance of the
    /// vault is back with the buyer.
    pub open spec fn applied(self, now: i64) -> CancelEscrow {
        CancelEscrow {
            escrow: Escrow { state: EscrowState::Cancelled, cancelled_at: now, ..self.escrow },
            vault_token_account: Vault { balance: 0, ..self.vault_token_account },
            buyer_token_account: TokenAccount {
                amount: (self.buyer_token_account.amount
                    + self.vault_token_account.balance) as u64,
                ..self.buyer_token_account
            },
            ..self
        }
    }
}

impl ResolveTimeout {
    /// Whether the request is accepted at `now`, and else why it is rejected:
    /// for the state, for the time, because the account presented is not the
    /// seller's account of the asset, or because the vault presented is not
    /// that of the escrow, in this order. The caller plays no part in it.
    pub open spec fn verdict(self, now: i64) -> Result<(), EscrowError> {
        if timeout_verdict(self.escrow, now) is Err {
            timeout_verdict(self.escrow, now)
        } else if !self.seller_token_account.belongs_to(self.escrow.seller, self.escrow.mint) {
            Err(EscrowError::UnauthorizedSeller)
        } else if !self.vault_token_account.serves(self.escrow_key, self.escrow.mint) {
            Err(EscrowError::NotFound)
        } else {
            Ok(())
        }
    }

    /// Whether the balance of the vault can be added to that of the seller's
    /// account.
    pub open spec fn releasable(self) -> bool {
        self.vault_token_account.fits(self.seller_token_account)
    }

    /// Decides whether the request is accepted at `now`, without any effect.
    pub fn check(&self, now: i64) -> (r: Result<(), EscrowError>)
        ensures
            r == self.verdict(now),
    {
        authorize_resolve_timeout(&self.escrow, now)?;
        if !self.seller_token_account.is_account_of(&self.escrow.seller, &self.escrow.mint) {
            return Err(EscrowError::UnauthorizedSeller);
        }
        if !self.vault_token_account.is_vault_of(&self.escrow_key, &self.escrow.mint) {
            return Err(EscrowError::NotFound);
        }
        Ok(())
    }

    /// Whether the balance of the vault can be added to that of the seller's
    /// account.
    pub fn can_release(&self) -> (r: bool)
        ensures
            r == self.releasable(),
    {
        self.vault_token_account.has_room_in(&self.seller_token_account)
    }

    /// The context after a successful `ResolveTimeout`: the whole balance of
    /// the vault is with the seller, as after a confirmed delivery, but the
    /// state records that it came about by timeout.
    pub open spec fn applied(self, now: i64) -> ResolveTimeout {
        ResolveTimeout {
            escrow: Escrow { state: EscrowState::TimedOut, completed_at: now, ..self.escrow },
            vault_token_account: Vault { balance: 0, ..self.vault_token_account },
            seller_token_account: TokenAccount {
                amount: (self.seller_token_account.amount
                    + self.vault_token_account.balance) as u64,
                ..self.seller_token_account
            },
            ..self
        }
    }
}

/// Creates an escrow: writes the record in state `Created`, opens its vault
/// and funds the vault with `amount` from the buyer's account. The deadline is
/// `now + timeout_duration`.
pub fn create_escrow(
    ctx: &mut CreateEscrow,
    amount: u64,
    timeout_duration: i64,
    description: String,
    now: i64,
) -> (r: Result<(), EscrowError>)
    requires
        timeout_duration > 0 ==> now + timeout_duration <= i64::MAX,
    ensures
        r == old(ctx).verdict(amount, timeout_duration, description@),
        r is Ok ==> *final(ctx) == old(ctx).applied(amount, timeout_duration, description, now),
        r is Err ==> *final(ctx) == *old(ctx),
{
    ctx.check(amount, timeout_duration, description.as_str())?;
    let mut vault = Vault::new(ctx.escrow_key, ctx.mint);
    vault.deposit(&mut ctx.buyer_token_account, amount)?;
    ctx.escrow = Some(
        Escrow {
            buyer: ctx.buyer,
            seller: Pubkey::default(),
            mint: ctx.mint,
            amount,
            state: EscrowState::Created,
            created_at: now,
            accepted_at: 0,
            completed_at: 0,
            cancelled_at: 0,
            timeout_at: now + timeout_duration,
            description,
            bump: ctx.bump,
        },
    );
    ctx.vault_token_account = Some(vault);
    Ok(())
}

/// The seller accepts: the record takes the caller as its seller, moves to
/// `Accepted` and notes the time.
pub fn accept_escrow(ctx: &mut AcceptEscrow, now: i64) -> (r: Result<(), EscrowError>)
    ensures
        r == old(ctx).verdict(),
        r is Ok ==> *final(ctx) == old(ctx).applied(now),
        r is Err ==> *final(ctx) == *old(ctx),
{
    ctx.check()?;
    ctx.escrow.seller = ctx.seller;
    ctx.escrow.state = EscrowState::Accepted;
    ctx.escrow.accepted_at = now;
    Ok(())
}

/// The buyer confirms delivery: the whole balance of the vault goes to the
/// seller, and the record moves to `Completed` and notes the time.
pub fn confirm_delivery(ctx: &mut ConfirmDelivery, now: i64) -> (r: Result<(), EscrowError>)
    requires
        old(ctx).verdict() is Ok ==> old(ctx).releasable(),
    ensures
        r == old(ctx).verdict(),
        r is Ok ==> *final(ctx) == old(ctx).applied(now),
        r is Err ==> *final(ctx) == *old(ctx),
{
    ctx.check()?;
    ctx.vault_token_account.release(&ctx.escrow_key, &mut ctx.seller_token_account);
    ctx.escrow.state = EscrowState::Completed;
    ctx.escrow.completed_at = now;
    Ok(())
}

/// The buyer backs out before any seller has accepted: the whole balance of
/// the vault returns to the buyer, and the record moves to `Cancelled` and
/// notes the time.
pub fn cancel_escrow(ctx: &mut CancelEscrow, now: i64) -> (r: Result<(), EscrowError>)
    requires
        old(ctx).verdict() is Ok ==> old(ctx).releasable(),
    ensures
        r == old(ctx).verdict(),
        r is Ok ==> *final(ctx) == old(ctx).applied(now),
        r is Err ==> *final(ctx) == *old(ctx),
{
    ctx.check()?;
    ctx.vault_token_account.release(&ctx.escrow_key, &mut ctx.buyer_token_account);
    ctx.escrow.state = EscrowState::Cancelled;
    ctx.escrow.cancelled_at = now;
    Ok(())
}

/// Anyone resolves an escrow whose deadline has passed: the whole balance of
/// the vault goes to the seller, and the record moves to `TimedOut` and notes
/// the time as its completion.
pub fn resolve_timeout(ctx: &mut ResolveTimeout, now: i64) -> (r: Result<(), EscrowError>)
    requires
        old(ctx).verdict(now) is Ok ==> old(ctx).releasable(),
    ensures
        r == old(ctx).verdict(now),
        r is Ok ==> *final(ctx) == old(ctx).applied(now),
        r is Err ==> *final(ctx) == *old(ctx),
{
    ctx.check(now)?;
    ctx.vault_token_account.release(&ctx.escrow_key, &mut ctx.seller_token_account);
    ctx.escrow.state = EscrowState::TimedOut;
    ctx.escrow.completed_at = now;
    Ok(())
}

} // verus!
