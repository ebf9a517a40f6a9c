//! Derived addresses and the text form of identities.
//!
//! An escrow lives under an address that is derived from its buyer and its
//! asset, and its vault under one that is derived from the escrow's address.
//! Nobody holds a key for a derived address: only the program that it was
//! derived for can act in its name. The derivation itself, and the reading of
//! an identity from text, are the work of the Solana libraries.

use crate::pubkey::Pubkey;
use std::str::FromStr;
use vstd::prelude::*;

verus! {

/// Why a text is not an identity.
#[derive(Clone, Copy, Debug, PartialEq, Eq, Structural)]
pub enum ParsePubkeyError {
    /// The text does not stand for 32 bytes.
    WrongSize,
    /// The text is not base58.
    Invalid,
}

/// The identity that a text stands for, in base58, or why it stands for none.
pub uninterp spec fn pubkey_of_text(text: Seq<char>) -> Result<Pubkey, ParsePubkeyError>;

/// The address that is derived from `seeds` for the program `program_id`,
/// with the bump seed that makes it a valid derived address; `None` where
/// there is no such address.
pub uninterp spec fn program_address(seeds: Seq<Seq<u8>>, program_id: Pubkey) -> Option<
    (Pubkey, u8),
>;

/// The label under which the address of an escrow is derived: `escrow`.
pub open spec fn escrow_label() -> Seq<u8> {
    seq![101u8, 115u8, 99u8, 114u8, 111u8, 119u8]
}

/// The label under which the address of a vault is derived: `vault`.
pub open spec fn vault_label() -> Seq<u8> {
    seq![118u8, 97u8, 117u8, 108u8, 116u8]
}

/// The identity of the token program,
/// `TokenkegQfeZyiNwAJbNbGKPFXCWuBvf9Ss623VQ5DA`.
pub open spec fn token_program() -> Pubkey {
    Pubkey {
        bytes: [
            6u8, 221u8, 246u8, 225u8, 215u8, 101u8, 161u8, 147u8, 217u8, 203u8, 225u8, 70u8,
            206u8, 235u8, 121u8, 172u8, 28u8, 180u8, 133u8, 237u8, 95u8, 91u8, 55u8, 145u8, 58u8,
            140u8, 245u8, 133u8, 126u8, 255u8, 0u8, 169u8,
        ],
    }
}

/// The identity of the associated token account program,
/// `ATokenGPvbdGVxr1b2hvZbsiqW5xWH25efTNsLJA8knL`.
pub open spec fn associated_token_program() -> Pubkey {
    Pubkey {
        bytes: [
            140u8, 151u8, 37u8, 143u8, 78u8, 36u8, 137u8, 241u8, 187u8, 61u8, 16u8, 41u8, 20u8,
            142u8, 13u8, 131u8, 11u8, 90u8, 19u8, 153u8, 218u8, 255u8, 16u8, 132u8, 4u8, 142u8,
            123u8, 216u8, 219u8, 233u8, 248u8, 89u8,
        ],
    }
}

/// The seeds of an escrow's address: the label, the buyer and the asset.
pub open spec fn escrow_seeds_of(buyer: Pubkey, mint: Pubkey) -> Seq<Seq<u8>> {
    seq![escrow_label(), buyer@, mint@]
}

/// The seeds of a vault's address: the label and the escrow's address.
pub open spec fn vault_seeds_of(escrow: Pubkey) -> Seq<Seq<u8>> {
    seq![vault_label(), escrow@]
}

/// The seeds of an associated token account: the wallet, the token program
/// and the asset.
pub open spec fn associated_seeds_of(wallet: Pubkey, mint: Pubkey) -> Seq<Seq<u8>> {
    seq![wallet@, token_program()@, mint@]
}

/// The address of the account in which `wallet` holds the asset `mint` by
/// convention: the one derived from them for the associated token account
/// program.
pub open spec fn associated_address_of(wallet: Pubkey, mint: Pubkey) -> Option<Pubkey> {
    match program_address(associated_seeds_of(wallet, mint), associated_token_program()) {
        Some((key, _)) => Some(key),
        None => None,
    }
}

/// Calls `FromStr::from_str` of the Solana SDK's `Pubkey`, which decodes
/// base58. The result is a function of the text alone; the contract gives it
/// its name and claims nothing else of it.
#[verifier::external_body]
pub(crate) fn parse_pubkey(text: &str) -> (r: Result<Pubkey, ParsePubkeyError>)
    ensures
        r == pubkey_of_text(text@),
{
    match solana_sdk::pubkey::Pubkey::from_str(text) {
        Ok(key) => Ok(Pubkey { bytes: key.to_bytes() }),
        Err(solana_sdk::pubkey::ParsePubkeyError::WrongSize) => Err(ParsePubkeyError::WrongSize),
        Err(solana_sdk::pubkey::ParsePubkeyError::Invalid) => Err(ParsePubkeyError::Invalid),
    }
}

/// Calls `Pubkey::try_find_program_address` of the Solana SDK, which hashes
/// the seeds, a bump seed and the program's identity, and tries the bump seeds
/// from 255 downwards until the hash is no point of the curve. The result is
/// a function of the seeds and the program's identity alone; the contract
/// gives it its name and claims nothing else of it.
#[verifier::external_body]
pub(crate) fn find_program_address(seeds: &Vec<Vec<u8>>, program_id: &Pubkey) -> (r: Option<
    (Pubkey, u8),
>)
    ensures
        r == program_address(seeds.deep_view(), *program_id),
{
    let parts: Vec<&[u8]> = seeds.iter().map(|seed| seed.as_slice()).collect();
    let id = solana_sdk::pubkey::Pubkey::new_from_array(program_id.bytes);
    match solana_sdk::pubkey::Pubkey::try_find_program_address(&parts, &id) {
        Some((key, bump)) => Some((Pubkey { bytes: key.to_bytes() }, bump)),
        None => None,
    }
}

/// Calls `get_associated_token_address` of the associated token account
/// library. By its source the result is the address that
/// `Pubkey::find_program_address` derives for the associated token account
/// program from the wallet, the token program and the asset, in this order:
/// the contract says so, in terms of the name of that derivation. The call
/// panics where no address can be derived: the contract leaves those inputs
/// out.
#[verifier::external_body]
pub(crate) fn associated_token_address(wallet: &Pubkey, mint: &Pubkey) -> (r: Pubkey)
    requires
        associated_address_of(*wallet, *mint) is Some,
    ensures
        associated_address_of(*wallet, *mint) == Some(r),
{
    let owner = wallet.bytes.into();
    let asset = mint.bytes.into();
    Pubkey {
        bytes: spl_associated_token_account::get_associated_token_address(&owner, &asset)
            .to_bytes(),
    }
}

/// The identity of the token program.
pub fn token_program_id() -> (r: Pubkey)
    ensures
        r == token_program(),
{
    Pubkey {
        bytes: [
            6u8, 221u8, 246u8, 225u8, 215u8, 101u8, 161u8, 147u8, 217u8, 203u8, 225u8, 70u8,
            206u8, 235u8, 121u8, 172u8, 28u8, 180u8, 133u8, 237u8, 95u8, 91u8, 55u8, 145u8, 58u8,
            140u8, 245u8, 133u8, 126u8, 255u8, 0u8, 169u8,
        ],
    }
}

/// The identity of the associated token account program.
pub fn associated_token_program_id() -> (r: Pubkey)
    ensures
        r == associated_token_program(),
{
    Pubkey {
        bytes: [
            140u8, 151u8, 37u8, 143u8, 78u8, 36u8, 137u8, 241u8, 187u8, 61u8, 16u8, 41u8, 20u8,
            142u8, 13u8, 131u8, 11u8, 90u8, 19u8, 153u8, 218u8, 255u8, 16u8, 132u8, 4u8, 142u8,
            123u8, 216u8, 219u8, 233u8, 248u8, 89u8,
        ],
    }
}

/// The address under which the escrow of `buyer` for the asset `mint` lives
/// with the program `program_id`, and its bump seed.
pub open spec fn escrow_address_of(buyer: Pubkey, mint: Pubkey, program_id: Pubkey) -> Option<
    (Pubkey, u8),
> {
    program_address(escrow_seeds_of(buyer, mint), program_id)
}

/// The address under which the vault of the escrow at `escrow` lives with the
/// program `program_id`, and its bump seed.
pub open spec fn vault_address_of(escrow: Pubkey, program_id: Pubkey) -> Option<(Pubkey, u8)> {
    program_address(vault_seeds_of(escrow), program_id)
}

/// The seeds of an escrow's address: the label `escrow`, the buyer and the
/// asset.
pub fn escrow_seeds(buyer: &Pubkey, mint: &Pubkey) -> (r: Vec<Vec<u8>>)
    ensures
        r.deep_view() == escrow_seeds_of(*buyer, *mint),
{
    let label: Vec<u8> = vec![101u8, 115u8, 99u8, 114u8, 111u8, 119u8];
    let r = vec![label, key_bytes(buyer), key_bytes(mint)];
    assert(r.deep_view() =~~= escrow_seeds_of(*buyer, *mint));
    r
}

/// The seeds with which an escrow signs for its vault: those of its own
/// address, and its bump seed.
pub open spec fn signer_seeds_of(buyer: Pubkey, mint: Pubkey, bump: u8) -> Seq<Seq<u8>> {
    escrow_seeds_of(buyer, mint).push(seq![bump])
}

/// The seeds with which the escrow of `buyer` for the asset `mint` signs for
/// its vault: the label `escrow`, the buyer, the asset and the bump seed.
pub fn escrow_signer_seeds(buyer: &Pubkey, mint: &Pubkey, bump: u8) -> (r: Vec<Vec<u8>>)
    ensures
        r.deep_view() == signer_seeds_of(*buyer, *mint, bump),
{
    let mut r = escrow_seeds(buyer, mint);
    let last: Vec<u8> = vec![bump];
    r.push(last);
    assert(r.deep_view() =~~= signer_seeds_of(*buyer, *mint, bump));
    r
}

/// The seeds of a vault's address: the label `vault` and the escrow's
/// address.
pub fn vault_seeds(escrow: &Pubkey) -> (r: Vec<Vec<u8>>)
    ensures
        r.deep_view() == vault_seeds_of(*escrow),
{
    let label: Vec<u8> = vec![118u8, 97u8, 117u8, 108u8, 116u8];
    let r = vec![label, key_bytes(escrow)];
    assert(r.deep_view() =~~= vault_seeds_of(*escrow));
    r
}

/// Derives the address of the escrow of `buyer` for the asset `mint`, and its
/// bump seed.
pub fn find_escrow_address(buyer: &Pubkey, mint: &Pubkey, program_id: &Pubkey) -> (r: Option<
    (Pubkey, u8),
>)
    ensures
        r == escrow_address_of(*buyer, *mint, *program_id),
{
    let seeds = escrow_seeds(buyer, mint);
    find_program_address(&seeds, program_id)
}

/// Derives the address of the vault of the escrow at `escrow`, and its bump
/// seed.
pub fn find_vault_address(escrow: &Pubkey, program_id: &Pubkey) -> (r: Option<(Pubkey, u8)>)
    ensures
        r == vault_address_of(*escrow, *program_id),
{
    let seeds = vault_seeds(escrow);
    find_program_address(&seeds, program_id)
}

/// Derives the address of the account in which `wallet` holds the asset
/// `mint` by convention; `None` where there is no such address.
pub fn find_associated_token_address(wallet: &Pubkey, mint: &Pubkey) -> (r: Option<Pubkey>)
    ensures
        r == associated_address_of(*wallet, *mint),
{
    let seeds: Vec<Vec<u8>> = vec![
        key_bytes(wallet),
        key_bytes(&token_program_id()),
        key_bytes(mint),
    ];
    assert(seeds.deep_view() =~~= associated_seeds_of(*wallet, *mint));
    match find_program_address(&seeds, &associated_token_program_id()) {
        Some(_) => Some(associated_token_address(wallet, mint)),
        None => None,
    }
}

/// The bytes of an identity, in a vector.
pub fn key_bytes(key: &Pubkey) -> (r: Vec<u8>)
    ensures
        r@ == key@,
{
    let mut out: Vec<u8> = Vec::new();
    let mut i: usize = 0;
    while i < 32
        invariant
            i <= 32,
            out@.len() == i,
            forall|j: int| 0 <= j < i ==> out@[j] == key.bytes[j],
        decreases 32 - i,
    {
        out.push(key.bytes[i]);
        i += 1;
    }
    assert(out@ =~= key@);
    out
}

} // verus!
