//! The client's side of each operation: from what the user typed to the
//! accounts and arguments of the instruction to send.
//!
//! Sending is not done here. Each function reads the addresses that the user
//! gave, derives the others, and hands back what to send.

use crate::accounts;
use crate::address::{
    associated_address_of, escrow_address_of, find_associated_token_address,
    find_escrow_address, find_vault_address, parse_pubkey, pubkey_of_text, vault_address_of,
    ParsePubkeyError,
};
use crate::cli::{AcceptArgs, CancelArgs, ConfirmArgs, CreateArgs, InfoArgs, ResolveTimeoutArgs};
use crate::escrow::Escrow;
use crate::info::{escrow_info, info_of, EscrowInfo};
use crate::instruction;
use crate::pubkey::Pubkey;
use vstd::prelude::*;

verus! {

/// The address of the escrow program, in base58.
pub const PROGRAM_ID: &'static str = "6ChaRcWmP5YJg21Z6AL6B6zxG8vNPJfx2EZhwFJUPeKt";

/// Why no request could be made of what the user typed.
#[derive(Clone, Copy, Debug, PartialEq, Eq, Structural)]
pub enum ClientError {
    /// A text that should be an address is none.
    InvalidAddress(ParsePubkeyError),
    /// No address can be derived for the escrow, its vault or the token
    /// account.
    NoProgramAddress,
}

/// What reading an address from `text` gives.
pub open spec fn address_of_text(text: Seq<char>) -> Result<Pubkey, ClientError> {
    match pubkey_of_text(text) {
        Ok(key) => Ok(key),
        Err(e) => Err(ClientError::InvalidAddress(e)),
    }
}

/// The request that `create_escrow` makes: the asset is read from the
/// arguments, the escrow's address is derived from the buyer and the asset,
/// the vault's from the escrow's, and the buyer pays from the account that is
/// associated with the asset.
pub open spec fn create_request(program_id: Pubkey, buyer: Pubkey, args: CreateArgs) -> Result<
    (accounts::CreateEscrow, instruction::CreateEscrow),
    ClientError,
> {
    match address_of_text(args.mint@) {
        Err(e) => Err(e),
        Ok(mint) => match escrow_address_of(buyer, mint, program_id) {
            None => Err(ClientError::NoProgramAddress),
            Some((escrow, _)) => match vault_address_of(escrow, program_id) {
                None => Err(ClientError::NoProgramAddress),
                Some((vault, _)) => match associated_address_of(buyer, mint) {
                    None => Err(ClientError::NoProgramAddress),
                    Some(buyer_token_account) => Ok(
                        (
                            accounts::CreateEscrow::of(
                                buyer,
                                escrow,
                                mint,
                                buyer_token_account,
                                vault,
                            ),
                            instruction::CreateEscrow {
                                amount: args.amount,
                                timeout_duration: args.timeout,
                                description: args.description,
                            },
                        ),
                    ),
                },
            },
        },
    }
}

/// The request that `accept_escrow` makes.
pub open spec fn accept_request(seller: Pubkey, args: AcceptArgs) -> Result<
    (accounts::AcceptEscrow, instruction::AcceptEscrow),
    ClientError,
> {
    match address_of_text(args.escrow@) {
        Err(e) => Err(e),
        Ok(escrow) => Ok(
            (accounts::AcceptEscrow { seller, escrow }, instruction::AcceptEscrow {  }),
        ),
    }
}

/// The request that `confirm_delivery` makes: both addresses are read from
/// the arguments, the escrow's first, and the vault's is derived.
pub open spec fn confirm_request(program_id: Pubkey, buyer: Pubkey, args: ConfirmArgs) -> Result<
    (accounts::ConfirmDelivery, instruction::ConfirmDelivery),
    ClientError,
> {
    match address_of_text(args.escrow@) {
        Err(e) => Err(e),
        Ok(escrow) => match address_of_text(args.seller_token_account@) {
            Err(e) => Err(e),
            Ok(seller_token_account) => match vault_address_of(escrow, program_id) {
                None => Err(ClientError::NoProgramAddress),
                Some((vault, _)) => Ok(
                    (
                        accounts::ConfirmDelivery::of(buyer, escrow, vault, seller_token_account),
                        instruction::ConfirmDelivery {  },
                    ),
                ),
            },
        },
    }
}

/// The request that `cancel_escrow` makes: the escrow's address is read from
/// the arguments, the vault's is derived, and the refund goes to the account
/// of the buyer that is associated with the asset of the record.
pub open spec fn cancel_request(
    program_id: Pubkey,
    buyer: Pubkey,
    args: CancelArgs,
    escrow_data: Escrow,
) -> Result<(accounts::CancelEscrow, instruction::CancelEscrow), ClientError> {
    match address_of_text(args.escrow@) {
        Err(e) => Err(e),
        Ok(escrow) => match vault_address_of(escrow, program_id) {
            None => Err(ClientError::NoProgramAddress),
            Some((vault, _)) => match associated_address_of(buyer, escrow_data.mint) {
                None => Err(ClientError::NoProgramAddress),
                Some(buyer_token_account) => Ok(
                    (
                        accounts::CancelEscrow::of(buyer, escrow, vault, buyer_token_account),
                        instruction::CancelEscrow {  },
                    ),
                ),
            },
        },
    }
}

/// The request that `resolve_timeout` makes: both addresses are read from
/// the arguments, the escrow's first, and the vault's is derived.
pub open spec fn timeout_request(
    program_id: Pubkey,
    resolver: Pubkey,
    args: ResolveTimeoutArgs,
) -> Result<(accounts::ResolveTimeout, instruction::ResolveTimeout), ClientError> {
    match address_of_text(args.escrow@) {
        Err(e) => Err(e),
        Ok(escrow) => match address_of_text(args.seller_token_account@) {
            Err(e) => Err(e),
            Ok(seller_token_account) => match vault_address_of(escrow, program_id) {
                None => Err(ClientError::NoProgramAddress),
                Some((vault, _)) => Ok(
                    (
                        accounts::ResolveTimeout::of(
                            resolver,
                            escrow,
                            vault,
                            seller_token_account,
                        ),
                        instruction::ResolveTimeout {  },
                    ),
                ),
            },
        },
    }
}

/// What a derivation gives: the address, or `NoProgramAddress` where there
/// is none.
pub open spec fn address_derived(found: Option<(Pubkey, u8)>) -> Result<Pubkey, ClientError> {
    match found {
        Some((key, _)) => Ok(key),
        None => Err(ClientError::NoProgramAddress),
    }
}

/// What a derivation without a bump seed gives: the address, or
/// `NoProgramAddress` where there is none.
pub open spec fn account_derived(found: Option<Pubkey>) -> Result<Pubkey, ClientError> {
    match found {
        Some(key) => Ok(key),
        None => Err(ClientError::NoProgramAddress),
    }
}

/// The address that a derivation found, or `NoProgramAddress`.
pub fn derived_address(found: Option<(Pubkey, u8)>) -> (r: Result<Pubkey, ClientError>)
    ensures
        r == address_derived(found),
{
    match found {
        Some((key, _)) => Ok(key),
        None => Err(ClientError::NoProgramAddress),
    }
}

/// The account that a derivation found, or `NoProgramAddress`.
pub fn derived_account(found: Option<Pubkey>) -> (r: Result<Pubkey, ClientError>)
    ensures
        r == account_derived(found),
{
    match found {
        Some(key) => Ok(key),
        None => Err(ClientError::NoProgramAddress),
    }
}

/// Reads an address from text.
pub fn read_address(text: &str) -> (r: Result<Pubkey, ClientError>)
    ensures
        r == address_of_text(text@),
{
    match parse_pubkey(text) {
        Ok(key) => Ok(key),
        Err(e) => Err(ClientError::InvalidAddress(e)),
    }
}

/// The address of the escrow program.
pub fn program_id() -> (r: Result<Pubkey, ClientError>)
    ensures
        r == address_of_text(PROGRAM_ID@),
{
    read_address(PROGRAM_ID)
}

/// Prepares the creation of an escrow by `buyer`.
pub fn create_escrow(program_id: &Pubkey, buyer: &Pubkey, args: CreateArgs) -> (r: Result<
    (accounts::CreateEscrow, instruction::CreateEscrow),
    ClientError,
>)
    ensures
        r == create_request(*program_id, *buyer, args),
{
    let mint = read_address(args.mint.as_str())?;
    let escrow = derived_address(find_escrow_address(buyer, &mint, program_id))?;
    let vault_token_account = derived_address(find_vault_address(&escrow, program_id))?;
    let buyer_token_account = derived_account(find_associated_token_address(buyer, &mint))?;
    Ok(
        (
            accounts::CreateEscrow::new(
                *buyer,
                escrow,
                mint,
                buyer_token_account,
                vault_token_account,
            ),
            instruction::CreateEscrow {
                amount: args.amount,
                timeout_duration: args.timeout,
                description: args.description,
            },
        ),
    )
}

/// Prepares the acceptance of an escrow by `seller`.
pub fn accept_escrow(seller: &Pubkey, args: &AcceptArgs) -> (r: Result<
    (accounts::AcceptEscrow, instruction::AcceptEscrow),
    ClientError,
>)
    ensures
        r == accept_request(*seller, *args),
{
    let escrow = read_address(args.escrow.as_str())?;
    Ok((accounts::AcceptEscrow { seller: *seller, escrow }, instruction::AcceptEscrow {  }))
}

/// Prepares the confirmation of delivery by `buyer`.
pub fn confirm_delivery(program_id: &Pubkey, buyer: &Pubkey, args: &ConfirmArgs) -> (r: Result<
    (accounts::ConfirmDelivery, instruction::ConfirmDelivery),
    ClientError,
>)
    ensures
        r == confirm_request(*program_id, *buyer, *args),
{
    let escrow = read_address(args.escrow.as_str())?;
    let seller_token_account = read_address(args.seller_token_account.as_str())?;
    let vault_token_account = derived_address(find_vault_address(&escrow, program_id))?;
    Ok(
        (
            accounts::ConfirmDelivery::new(
                *buyer,
                escrow,
                vault_token_account,
                seller_token_account,
            ),
            instruction::ConfirmDelivery {  },
        ),
    )
}

/// Prepares the cancellation of an escrow by `buyer`. `escrow_data` is the
/// record that lives under the address in the arguments.
pub fn cancel_escrow(
    program_id: &Pubkey,
    buyer: &Pubkey,
    args: &CancelArgs,
    escrow_data: &Escrow,
) -> (r: Result<(accounts::CancelEscrow, instruction::CancelEscrow), ClientError>)
    ensures
        r == cancel_request(*program_id, *buyer, *args, *escrow_data),
{
    let escrow = read_address(args.escrow.as_str())?;
    let vault_token_account = derived_address(find_vault_address(&escrow, program_id))?;
    let buyer_token_account = derived_account(
        find_associated_token_address(buyer, &escrow_data.mint),
    )?;
    Ok(
        (
            accounts::CancelEscrow::new(*buyer, escrow, vault_token_account, buyer_token_account),
            instruction::CancelEscrow {  },
        ),
    )
}

/// Prepares the resolution of a timeout by `resolver`, who may be anyone.
pub fn resolve_timeout(program_id: &Pubkey, resolver: &Pubkey, args: &ResolveTimeoutArgs) -> (r:
    Result<(accounts::ResolveTimeout, instruction::ResolveTimeout), ClientError>)
    ensures
        r == timeout_request(*program_id, *resolver, *args),
{
    let escrow = read_address(args.escrow.as_str())?;
    let seller_token_account = read_address(args.seller_token_account.as_str())?;
    let vault_token_account = derived_address(find_vault_address(&escrow, program_id))?;
    Ok(
        (
            accounts::ResolveTimeout::new(
                *resolver,
                escrow,
                vault_token_account,
                seller_token_account,
            ),
            instruction::ResolveTimeout {  },
        ),
    )
}

/// What there is to show of the escrow whose address the arguments give.
/// `escrow_data` is the record that lives under that address.
pub fn get_escrow_info(args: &InfoArgs, escrow_data: &Escrow) -> (r: Result<
    EscrowInfo,
    ClientError,
>)
    ensures
        match address_of_text(args.escrow@) {
            Ok(address) => r == Ok::<EscrowInfo, ClientError>(info_of(address, *escrow_data)),
            Err(e) => r == Err::<EscrowInfo, ClientError>(e),
        },
{
    let address = read_address(args.escrow.as_str())?;
    Ok(escrow_info(&address, escrow_data))
}

} // verus!
