//! One escrow with its vault as a single unit, and what each call makes of
//! it.
//!
//! The unit is what the storage holds under the escrow's identity. A call
//! gets the verdict and has the effect that the operations of `lifecycle`
//! have on the contexts that are assembled from the unit and the call.

use crate::error::EscrowError;
use crate::escrow::Escrow;
use crate::lifecycle::{AcceptEscrow, CancelEscrow, ConfirmDelivery, CreateEscrow, ResolveTimeout};
use crate::pubkey::Pubkey;
use crate::state::Transition;
use crate::vault::{TokenAccount, Vault};
use vstd::prelude::*;

verus! {

/// One escrow as the storage holds it: the record and its vault, under the
/// escrow's identity.
#[derive(Clone, Debug, PartialEq, Eq)]
pub struct Custody {
    pub key: Pubkey,
    pub escrow: Escrow,
    pub vault: Vault,
}

/// What can be asked of an existing escrow, with the caller and the account
/// that the caller presents.
#[derive(Clone, Copy, Debug, PartialEq, Eq)]
pub enum Request {
    Accept { seller: Pubkey },
    ConfirmDelivery { caller: Pubkey, seller_token_account: TokenAccount },
    Cancel { caller: Pubkey, buyer_token_account: TokenAccount },
    ResolveTimeout { resolver: Pubkey, seller_token_account: TokenAccount },
}

/// A request and the time at which it is made.
#[derive(Clone, Copy, Debug, PartialEq, Eq)]
pub struct Call {
    pub request: Request,
    pub now: i64,
}

impl Request {
    /// The transition that the request asks for.
    pub open spec fn transition(self) -> Transition {
        match self {
            Request::Accept { .. } => Transition::Accept,
            Request::ConfirmDelivery { .. } => Transition::ConfirmDelivery,
            Request::Cancel { .. } => Transition::Cancel,
            Request::ResolveTimeout { .. } => Transition::ResolveTimeout,
        }
    }
}

impl Call {
    /// What a call must bring for the record to stay well-formed: a time that
    /// is not the "has not occurred" mark, and a seller who is somebody.
    pub open spec fn sound(self) -> bool {
        &&& self.now != 0
        &&& self.request matches Request::Accept { seller } ==> !seller.is_nobody()
    }
}

impl Custody {
    /// The context on which `accept_escrow` works for this escrow.
    pub open spec fn accept_ctx(self, seller: Pubkey) -> AcceptEscrow {
        AcceptEscrow { seller, escrow: self.escrow }
    }

    /// The context on which `confirm_delivery` works for this escrow.
    pub open spec fn confirm_ctx(self, caller: Pubkey, to: TokenAccount) -> ConfirmDelivery {
        ConfirmDelivery {
            buyer: caller,
            escrow_key: self.key,
            escrow: self.escrow,
            vault_token_account: self.vault,
            seller_token_account: to,
        }
    }

    /// The context on which `cancel_escrow` works for this escrow.
    pub open spec fn cancel_ctx(self, caller: Pubkey, to: TokenAccount) -> CancelEscrow {
        CancelEscrow {
            buyer: caller,
            escrow_key: self.key,
            escrow: self.escrow,
            vault_token_account: self.vault,
            buyer_token_account: to,
        }
    }

    /// The context on which `resolve_timeout` works for this escrow.
    pub open spec fn timeout_ctx(self, resolver: Pubkey, to: TokenAccount) -> ResolveTimeout {
        ResolveTimeout {
            resolver,
            escrow_key: self.key,
            escrow: self.escrow,
            vault_token_account: self.vault,
            seller_token_account: to,
        }
    }

    /// Whether the call is accepted, and else why it is rejected.
    pub open spec fn outcome(self, call: Call) -> Result<(), EscrowError> {
        match call.request {
            Request::Accept { seller } => self.accept_ctx(seller).verdict(),
            Request::ConfirmDelivery { caller, seller_token_account } => self.confirm_ctx(
                caller,
                seller_token_account,
            ).verdict(),
            Request::Cancel { caller, buyer_token_account } => self.cancel_ctx(
                caller,
                buyer_token_account,
            ).verdict(),
            Request::ResolveTimeout { resolver, seller_token_account } => self.timeout_ctx(
                resolver,
                seller_token_account,
            ).verdict(call.now),
        }
    }

    /// The escrow after the call: changed as the operation says where the
    /// call is accepted, and unchanged where it is rejected.
    pub open spec fn step(self, call: Call) -> Custody {
        if self.outcome(call) is Err {
            self
        } else {
            match call.request {
                Request::Accept { seller } => Custody {
                    escrow: self.accept_ctx(seller).applied(call.now).escrow,
                    ..self
                },
                Request::ConfirmDelivery { caller, seller_token_account } => {
                    let after = self.confirm_ctx(caller, seller_token_account).applied(call.now);
                    Custody { escrow: after.escrow, vault: after.vault_token_account, ..self }
                },
                Request::Cancel { caller, buyer_token_account } => {
                    let after = self.cancel_ctx(caller, buyer_token_account).applied(call.now);
                    Custody { escrow: after.escrow, vault: after.vault_token_account, ..self }
                },
                Request::ResolveTimeout { resolver, seller_token_account } => {
                    let after = self.timeout_ctx(resolver, seller_token_account).applied(
                        call.now,
                    );
                    Custody { escrow: after.escrow, vault: after.vault_token_account, ..self }
                },
            }
        }
    }

    /// Whether the call hands the vault's balance over.
    pub open spec fn is_release(self, call: Call) -> bool {
        self.outcome(call) is Ok && call.request.transition().releases()
    }

    /// How much leaves the vault by the call.
    pub open spec fn released_by(self, call: Call) -> nat {
        if self.is_release(call) {
            self.vault.balance as nat
        } else {
            0
        }
    }

    /// The escrow after the calls, made one after the other.
    pub open spec fn run(self, calls: Seq<Call>) -> Custody
        decreases calls.len(),
    {
        if calls.len() == 0 {
            self
        } else {
            self.step(calls[0]).run(calls.skip(1))
        }
    }

    /// How much has left the vault in the course of the calls.
    pub open spec fn released(self, calls: Seq<Call>) -> nat
        decreases calls.len(),
    {
        if calls.len() == 0 {
            0
        } else {
            self.released_by(calls[0]) + self.step(calls[0]).released(calls.skip(1))
        }
    }

    /// How many of the calls handed the vault's balance over.
    pub open spec fn releases(self, calls: Seq<Call>) -> nat
        decreases calls.len(),
    {
        if calls.len() == 0 {
            0
        } else {
            (if self.is_release(calls[0]) {
                1nat
            } else {
                0nat
            }) + self.step(calls[0]).releases(calls.skip(1))
        }
    }

    /// The custody invariant: the vault is the escrow's own, it holds exactly
    /// the escrowed amount until a terminal state is reached, and nothing from
    /// then on.
    pub open spec fn intact(self) -> bool {
        &&& self.vault.authority == self.key
        &&& self.vault.mint == self.escrow.mint
        &&& !self.escrow.state.terminal() ==> self.vault.balance == self.escrow.amount
        &&& self.escrow.state.terminal() ==> self.vault.balance == 0
    }

    /// What the escrow has still to pay: its amount before a terminal state,
    /// nothing after.
    pub open spec fn owed(self) -> nat {
        if self.escrow.state.terminal() {
            0
        } else {
            self.escrow.amount as nat
        }
    }
}

/// What a successful `Create` leaves: a record and a vault.
pub open spec fn created(after: CreateEscrow) -> Custody {
    Custody {
        key: after.escrow_key,
        escrow: after.escrow->0,
        vault: after.vault_token_account->0,
    }
}

} // verus!
