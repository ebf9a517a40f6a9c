//! The addresses of the accounts of each instruction, as a client sends them.

use crate::address::token_program_id;
use crate::address::token_program;
use crate::pubkey::Pubkey;
use vstd::prelude::*;

verus! {

/// The identity of the system program, `11111111111111111111111111111111`.
pub open spec fn system_program() -> Pubkey {
    Pubkey::nobody()
}

/// The identity of the rent sysvar,
/// `SysvarRent111111111111111111111111111111111`.
pub open spec fn rent_sysvar() -> Pubkey {
    Pubkey {
        bytes: [
            6u8, 167u8, 213u8, 23u8, 25u8, 44u8, 92u8, 81u8, 33u8, 140u8, 201u8, 76u8, 61u8, 74u8,
            241u8, 127u8, 88u8, 218u8, 238u8, 8u8, 155u8, 161u8, 253u8, 68u8, 227u8, 219u8, 217u8,
            138u8, 0u8, 0u8, 0u8, 0u8,
        ],
    }
}

/// The identity of the system program.
pub fn system_program_id() -> (r: Pubkey)
    ensures
        r == system_program(),
{
    Pubkey::default()
}

/// The identity of the rent sysvar.
pub fn rent_sysvar_id() -> (r: Pubkey)
    ensures
        r == rent_sysvar(),
{
    Pubkey {
        bytes: [
            6u8, 167u8, 213u8, 23u8, 25u8, 44u8, 92u8, 81u8, 33u8, 140u8, 201u8, 76u8, 61u8, 74u8,
            241u8, 127u8, 88u8, 218u8, 238u8, 8u8, 155u8, 161u8, 253u8, 68u8, 227u8, 219u8, 217u8,
            138u8, 0u8, 0u8, 0u8, 0u8,
        ],
    }
}

#[derive(Clone, Copy, Debug, PartialEq, Eq)]
pub struct CreateEscrow {
    pub buyer: Pubkey,
    pub escrow: Pubkey,
    pub mint: Pubkey,
    pub buyer_token_account: Pubkey,
    pub vault_token_account: Pubkey,
    pub token_program: Pubkey,
    pub system_program: Pubkey,
    pub rent: Pubkey,
}

#[derive(Clone, Copy, Debug, PartialEq, Eq)]
pub struct AcceptEscrow {
    pub seller: Pubkey,
    pub escrow: Pubkey,
}

#[derive(Clone, Copy, Debug, PartialEq, Eq)]
pub struct ConfirmDelivery {
    pub buyer: Pubkey,
    pub escrow: Pubkey,
    pub vault_token_account: Pubkey,
    pub seller_token_account: Pubkey,
    pub token_program: Pubkey,
}

#[derive(Clone, Copy, Debug, PartialEq, Eq)]
pub struct CancelEscrow {
    pub buyer: Pubkey,
    pub escrow: Pubkey,
    pub vault_token_account: Pubkey,
    pub buyer_token_account: Pubkey,
    pub token_program: Pubkey,
}

#[derive(Clone, Copy, Debug, PartialEq, Eq)]
pub struct ResolveTimeout {
    pub resolver: Pubkey,
    pub escrow: Pubkey,
    pub vault_token_account: Pubkey,
    pub seller_token_account: Pubkey,
    pub token_program: Pubkey,
}

impl CreateEscrow {
    /// The accounts of a `Create`, with the programs that it needs.
    pub open spec fn of(
        buyer: Pubkey,
        escrow: Pubkey,
        mint: Pubkey,
        buyer_token_account: Pubkey,
        vault_token_account: Pubkey,
    ) -> CreateEscrow {
        CreateEscrow {
            buyer,
            escrow,
            mint,
            buyer_token_account,
            vault_token_account,
            token_program: token_program(),
            system_program: system_program(),
            rent: rent_sysvar(),
        }
    }

    /// The accounts of a `Create`, with the programs that it needs.
    pub fn new(
        buyer: Pubkey,
        escrow: Pubkey,
        mint: Pubkey,
        buyer_token_account: Pubkey,
        vault_token_account: Pubkey,
    ) -> (r: CreateEscrow)
        ensures
            r == CreateEscrow::of(buyer, escrow, mint, buyer_token_account, vault_token_account),
    {
        CreateEscrow {
            buyer,
            escrow,
            mint,
            buyer_token_account,
            vault_token_account,
            token_program: token_program_id(),
            system_program: system_program_id(),
            rent: rent_sysvar_id(),
        }
    }
}

impl ConfirmDelivery {
    /// The accounts of a `ConfirmDelivery`, with the token program.
    pub open spec fn of(
        buyer: Pubkey,
        escrow: Pubkey,
        vault_token_account: Pubkey,
        seller_token_account: Pubkey,
    ) -> ConfirmDelivery {
        ConfirmDelivery {
            buyer,
            escrow,
            vault_token_account,
            seller_token_account,
            token_program: token_program(),
        }
    }

    /// The accounts of a `ConfirmDelivery`, with the token program.
    pub fn new(
        buyer: Pubkey,
        escrow: Pubkey,
        vault_token_account: Pubkey,
        seller_token_account: Pubkey,
    ) -> (r: ConfirmDelivery)
        ensures
            r == ConfirmDelivery::of(buyer, escrow, vault_token_account, seller_token_account),
    {
        ConfirmDelivery {
            buyer,
            escrow,
            vault_token_account,
            seller_token_account,
            token_program: token_program_id(),
        }
    }
}

impl CancelEscrow {
    /// The accounts of a `Cancel`, with the token program.
    pub open spec fn of(
        buyer: Pubkey,
        escrow: Pubkey,
        vault_token_account: Pubkey,
        buyer_token_account: Pubkey,
    ) -> CancelEscrow {
        CancelEscrow {
            buyer,
            escrow,
            vault_token_account,
            buyer_token_account,
            token_program: token_program(),
        }
    }

    /// The accounts of a `Cancel`, with the token program.
    pub fn new(
        buyer: Pubkey,
        escrow: Pubkey,
        vault_token_account: Pubkey,
        buyer_token_account: Pubkey,
    ) -> (r: CancelEscrow)
        ensures
            r == CancelEscrow::of(buyer, escrow, vault_token_account, buyer_token_account),
    {
        CancelEscrow {
            buyer,
            escrow,
            vault_token_account,
            buyer_token_account,
            token_program: token_program_id(),
        }
    }
}

impl ResolveTimeout {
    /// The accounts of a `ResolveTimeout`, with the token program.
    pub open spec fn of(
        resolver: Pubkey,
        escrow: Pubkey,
        vault_token_account: Pubkey,
        seller_token_account: Pubkey,
    ) -> ResolveTimeout {
        ResolveTimeout {
            resolver,
            escrow,
            vault_token_account,
            seller_token_account,
            token_program: token_program(),
        }
    }

    /// The accounts of a `ResolveTimeout`, with the token program.
    pub fn new(
        resolver: Pubkey,
        escrow: Pubkey,
        vault_token_account: Pubkey,
        seller_token_account: Pubkey,
    ) -> (r: ResolveTimeout)
        ensures
            r == ResolveTimeout::of(resolver, escrow, vault_token_account, seller_token_account),
    {
        ResolveTimeout {
            resolver,
            escrow,
            vault_token_account,
            seller_token_account,
            token_program: token_program_id(),
        }
    }
}

} // verus!
