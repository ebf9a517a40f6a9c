//! Custody of funds: token accounts, the vault of an escrow, and the two
//! movements that a vault knows.

use crate::error::EscrowError;
use crate::pubkey::Pubkey;
use vstd::prelude::*;

verus! {

/// A custody account of one party: a balance of one asset.
#[derive(Clone, Copy, Debug, PartialEq, Eq)]
pub struct TokenAccount {
    /// The party that controls the account.
    pub owner: Pubkey,
    /// The asset that the account holds.
    pub mint: Pubkey,
    /// The balance, in units of the asset.
    pub amount: u64,
}

/// The custody account of one escrow. Its authority is the escrow's own
/// identity, for which nobody holds a key.
#[derive(Clone, Copy, Debug, PartialEq, Eq)]
pub struct Vault {
    /// The identity of the escrow that alone may move the balance.
    pub authority: Pubkey,
    /// The asset that the vault holds.
    pub mint: Pubkey,
    /// The balance, in units of the asset.
    pub balance: u64,
}

impl TokenAccount {
    /// Whether this is `party`'s account of the asset `mint`.
    pub open spec fn belongs_to(self, party: Pubkey, mint: Pubkey) -> bool {
        self.owner == party && self.mint == mint
    }

    /// Whether this is `party`'s account of the asset `mint`.
    pub fn is_account_of(&self, party: &Pubkey, mint: &Pubkey) -> (r: bool)
        ensures
            r == self.belongs_to(*party, *mint),
    {
        self.owner == *party && self.mint == *mint
    }
}

impl Vault {
    /// Whether this is the vault of the escrow that lives under `escrow` and
    /// holds the asset `mint`.
    pub open spec fn serves(self, escrow: Pubkey, mint: Pubkey) -> bool {
        self.authority == escrow && self.mint == mint
    }

    /// Whether the balance of the vault can be added to that of `to`.
    pub open spec fn fits(self, to: TokenAccount) -> bool {
        to.amount + self.balance <= u64::MAX
    }

    /// Whether this is the vault of the escrow that lives under `escrow` and
    /// holds the asset `mint`.
    pub fn is_vault_of(&self, escrow: &Pubkey, mint: &Pubkey) -> (r: bool)
        ensures
            r == self.serves(*escrow, *mint),
    {
        self.authority == *escrow && self.mint == *mint
    }

    /// Whether the balance of the vault can be added to that of `to`.
    pub fn has_room_in(&self, to: &TokenAccount) -> (r: bool)
        ensures
            r == self.fits(*to),
    {
        self.balance <= u64::MAX - to.amount
    }

    /// An empty vault of the asset `mint` under the authority of `authority`.
    pub fn new(authority: Pubkey, mint: Pubkey) -> (r: Vault)
        ensures
            r == (Vault { authority, mint, balance: 0 }),
    {
        Vault { authority, mint, balance: 0 }
    }

    /// Moves `amount` units from `from` into the vault.
    ///
    /// Fails with `InsufficientFunds`, and moves nothing, exactly when `from`
    /// holds less than `amount`.
    pub fn deposit(&mut self, from: &mut TokenAccount, amount: u64) -> (r: Result<(), EscrowError>)
        requires
            old(from).mint == old(self).mint,
            old(self).balance + amount <= u64::MAX,
        ensures
            r is Ok <==> old(from).amount >= amount,
            r is Err ==> r == Err::<(), EscrowError>(EscrowError::InsufficientFunds) && *final(self)
                == *old(self) && *final(from) == *old(from),
            r is Ok ==> *final(self) == (Vault {
                balance: (old(self).balance + amount) as u64,
                ..*old(self)
            }) && *final(from) == (TokenAccount {
                amount: (old(from).amount - amount) as u64,
                ..*old(from)
            }),
    {
        if from.amount < amount {
            return Err(EscrowError::InsufficientFunds);
        }
        from.amount = from.amount - amount;
        self.balance = self.balance + amount;
        Ok(())
    }

    /// Moves the whole balance of the vault to `to` and returns how much that
    /// was. There is no partial release.
    pub fn release(&mut self, authority: &Pubkey, to: &mut TokenAccount) -> (moved: u64)
        requires
            *authority == old(self).authority,
            old(to).mint == old(self).mint,
            old(to).amount + old(self).balance <= u64::MAX,
        ensures
            moved == old(self).balance,
            *final(self) == (Vault { balance: 0, ..*old(self) }),
            *final(to) == (TokenAccount {
                amount: (old(to).amount + old(self).balance) as u64,
                ..*old(to)
            }),
    {
        let moved = self.balance;
        to.amount = to.amount + moved;
        self.balance = 0;
        moved
    }
}

} // verus!
