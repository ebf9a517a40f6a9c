//! The escrows of one program, each under its own identity.
//!
//! The identity of an escrow is the address that is derived from its buyer and
//! its asset, so a buyer has at most one escrow per asset, and an escrow is
//! found again without an index. Every operation names the escrow by its
//! identity and either takes effect on that escrow alone or is rejected and
//! changes nothing.

use crate::address::{escrow_address_of, find_escrow_address};
use crate::custody::{created, Call, Custody, Request};
use crate::error::EscrowError;
use crate::info::{escrow_info, info_of, EscrowInfo};
use crate::lifecycle::{
    accept_escrow, cancel_escrow, confirm_delivery, create_escrow, resolve_timeout, AcceptEscrow,
    CancelEscrow, ConfirmDelivery, CreateEscrow, ResolveTimeout,
};
use crate::pubkey::Pubkey;
use crate::vault::TokenAccount;
use vstd::prelude::*;

verus! {

/// The escrows of one program.
pub struct Registry {
    program_id: Pubkey,
    entries: Vec<Custody>,
}

/// Whether the escrow lives under the address that is derived from its buyer
/// and its asset for the program, and carries the bump seed of that address.
pub open spec fn placed(c: Custody, program_id: Pubkey) -> bool {
    escrow_address_of(c.escrow.buyer, c.escrow.mint, program_id) == Some((c.key, c.escrow.bump))
}

spec fn distinct(entries: Seq<Custody>) -> bool {
    forall|i: int, j: int| 0 <= i < j < entries.len() ==> entries[i].key != entries[j].key
}

spec fn at(entries: Seq<Custody>, key: Pubkey, i: int) -> bool {
    0 <= i < entries.len() && entries[i].key == key
}

spec fn contents(entries: Seq<Custody>) -> Map<Pubkey, Custody> {
    Map::new(
        |key: Pubkey| exists|i: int| at(entries, key, i),
        |key: Pubkey| entries[choose|i: int| at(entries, key, i)],
    )
}

proof fn lemma_contents_at(entries: Seq<Custody>, i: int)
    requires
        distinct(entries),
        0 <= i < entries.len(),
    ensures
        contents(entries).contains_key(entries[i].key),
        contents(entries)[entries[i].key] == entries[i],
{
    let key = entries[i].key;
    assert(at(entries, key, i));
    let j = choose|j: int| at(entries, key, j);
    assert(i == j);
}

proof fn lemma_contents_absent(entries: Seq<Custody>, key: Pubkey)
    requires
        forall|i: int| 0 <= i < entries.len() ==> entries[i].key != key,
    ensures
        !contents(entries).contains_key(key),
{
    assert forall|i: int| !at(entries, key, i) by {}
}

proof fn lemma_contents_update(entries: Seq<Custody>, i: int, c: Custody)
    requires
        distinct(entries),
        0 <= i < entries.len(),
        c.key == entries[i].key,
    ensures
        distinct(entries.update(i, c)),
        contents(entries.update(i, c)) == contents(entries).insert(c.key, c),
{
    let after = entries.update(i, c);
    assert(distinct(after));
    assert forall|key: Pubkey|
        contents(after).contains_key(key) == contents(entries).insert(c.key, c).contains_key(
            key,
        ) by {
        if contents(after).contains_key(key) {
            let j = choose|j: int| at(after, key, j);
            assert(at(entries, key, j));
        }
        if contents(entries).contains_key(key) {
            let j = choose|j: int| at(entries, key, j);
            assert(at(after, key, j));
        }
        if key == c.key {
            assert(at(after, key, i));
        }
    }
    assert forall|key: Pubkey| contents(after).contains_key(key) implies contents(after)[key]
        == contents(entries).insert(c.key, c)[key] by {
        let j = choose|j: int| at(after, key, j);
        lemma_contents_at(after, j);
        if key != c.key {
            assert(at(entries, key, j));
            lemma_contents_at(entries, j);
        }
    }
    assert(contents(after) =~= contents(entries).insert(c.key, c));
}

proof fn lemma_contents_push(entries: Seq<Custody>, c: Custody)
    requires
        distinct(entries),
        forall|i: int| 0 <= i < entries.len() ==> entries[i].key != c.key,
    ensures
        distinct(entries.push(c)),
        contents(entries.push(c)) == contents(entries).insert(c.key, c),
{
    let after = entries.push(c);
    assert(distinct(after));
    assert forall|key: Pubkey|
        contents(after).contains_key(key) == contents(entries).insert(c.key, c).contains_key(
            key,
        ) by {
        if contents(after).contains_key(key) {
            let j = choose|j: int| at(after, key, j);
            if j < entries.len() {
                assert(at(entries, key, j));
            }
        }
        if contents(entries).contains_key(key) {
            let j = choose|j: int| at(entries, key, j);
            assert(at(after, key, j));
        }
        if key == c.key {
            assert(at(after, key, entries.len() as int));
        }
    }
    assert forall|key: Pubkey| contents(after).contains_key(key) implies contents(after)[key]
        == contents(entries).insert(c.key, c)[key] by {
        let j = choose|j: int| at(after, key, j);
        lemma_contents_at(after, j);
        if key != c.key {
            assert(at(entries, key, j));
            lemma_contents_at(entries, j);
        }
    }
    assert(contents(after) =~= contents(entries).insert(c.key, c));
}

impl View for Registry {
    type V = Map<Pubkey, Custody>;

    /// The escrows, by identity.
    closed spec fn view(&self) -> Map<Pubkey, Custody> {
        contents(self.entries@)
    }
}

impl Registry {
    #[verifier::type_invariant]
    spec fn inv(self) -> bool {
        &&& distinct(self.entries@)
        &&& forall|i: int|
            0 <= i < self.entries@.len() ==> (#[trigger] self.entries@[i]).intact() && placed(
                self.entries@[i],
                self.program_id,
            )
    }

    /// The program whose escrows these are.
    pub closed spec fn program(self) -> Pubkey {
        self.program_id
    }

    /// The context on which `create_escrow` works for a new escrow under
    /// `key`.
    pub open spec fn create_ctx(
        buyer: Pubkey,
        mint: Pubkey,
        key: Pubkey,
        bump: u8,
        buyer_token_account: TokenAccount,
    ) -> CreateEscrow {
        CreateEscrow {
            buyer,
            escrow_key: key,
            escrow: None,
            mint,
            buyer_token_account,
            vault_token_account: None,
            bump,
        }
    }

    /// Whether `Create` is accepted, and under which identity the escrow
    /// comes to live, or else why it is rejected: with `NotFound` where no
    /// address can be derived for the buyer and the asset, with `InvalidState`
    /// where an escrow lives under that address already, and else as
    /// `create_escrow` says.
    pub open spec fn create_outcome(
        self,
        buyer: Pubkey,
        mint: Pubkey,
        buyer_token_account: TokenAccount,
        amount: u64,
        timeout_duration: i64,
        description: Seq<char>,
    ) -> Result<Pubkey, EscrowError> {
        match escrow_address_of(buyer, mint, self.program()) {
            None => Err(EscrowError::NotFound),
            Some((key, bump)) => if self@.contains_key(key) {
                Err(EscrowError::InvalidState)
            } else {
                match Self::create_ctx(buyer, mint, key, bump, buyer_token_account).verdict(
                    amount,
                    timeout_duration,
                    description,
                ) {
                    Ok(()) => Ok(key),
                    Err(e) => Err(e),
                }
            },
        }
    }

    /// Whether a call on the escrow under `key` is accepted, or else why it
    /// is rejected: with `NotFound` where no escrow lives under `key`, and
    /// else as the escrow itself says.
    pub open spec fn call_outcome(self, key: Pubkey, call: Call) -> Result<(), EscrowError> {
        if self@.contains_key(key) {
            self@[key].outcome(call)
        } else {
            Err(EscrowError::NotFound)
        }
    }

    /// Whether the balance of the vault under `key` can be added to that of
    /// `to`. This is asked only of calls that are accepted.
    pub open spec fn has_room(self, key: Pubkey, call: Call, to: TokenAccount) -> bool {
        self.call_outcome(key, call) is Ok ==> self@[key].vault.fits(to)
    }

    /// No escrows, for the program `program_id`.
    pub fn new(program_id: Pubkey) -> (r: Registry)
        ensures
            r@ == Map::<Pubkey, Custody>::empty(),
            r.program() == program_id,
    {
        let r = Registry { program_id, entries: Vec::new() };
        assert(r@ =~= Map::<Pubkey, Custody>::empty()) by {
            assert forall|key: Pubkey| !contents(r.entries@).contains_key(key) by {
                lemma_contents_absent(r.entries@, key);
            }
        }
        r
    }

    /// The program whose escrows these are.
    pub fn program_id(&self) -> (r: Pubkey)
        ensures
            r == self.program(),
    {
        self.program_id
    }

    fn position(&self, key: &Pubkey) -> (r: Option<usize>)
        ensures
            match r {
                Some(i) => i < self.entries@.len() && self.entries@[i as int].key == *key
                    && self@.contains_key(*key) && self@[*key] == self.entries@[i as int],
                None => !self@.contains_key(*key) && forall|i: int|
                    0 <= i < self.entries@.len() ==> self.entries@[i].key != *key,
            },
    {
        proof {
            use_type_invariant(self);
        }
        let mut i: usize = 0;
        while i < self.entries.len()
            invariant
                distinct(self.entries@),
                i <= self.entries@.len(),
                forall|j: int| 0 <= j < i ==> self.entries@[j].key != *key,
            decreases self.entries@.len() - i,
        {
            if self.entries[i].key == *key {
                proof {
                    lemma_contents_at(self.entries@, i as int);
                }
                return Some(i);
            }
            i += 1;
        }
        proof {
            lemma_contents_absent(self.entries@, *key);
        }
        None
    }

    fn put(&mut self, i: usize, entry: Custody)
        requires
            i < old(self).entries@.len(),
            entry.key == old(self).entries@[i as int].key,
            entry.intact(),
            placed(entry, old(self).program_id),
        ensures
            final(self).program_id == old(self).program_id,
            final(self).entries@ == old(self).entries@.update(i as int, entry),
            final(self)@ == old(self)@.insert(entry.key, entry),
    {
        proof {
            use_type_invariant(&*self);
            lemma_contents_update(self.entries@, i as int, entry);
        }
        let mut entries: Vec<Custody> = Vec::new();
        std::mem::swap(&mut self.entries, &mut entries);
        entries[i] = entry;
        std::mem::swap(&mut self.entries, &mut entries);
    }

    fn add(&mut self, entry: Custody)
        requires
            !old(self)@.contains_key(entry.key),
            entry.intact(),
            placed(entry, old(self).program_id),
        ensures
            final(self).program_id == old(self).program_id,
            final(self).entries@ == old(self).entries@.push(entry),
            final(self)@ == old(self)@.insert(entry.key, entry),
    {
        proof {
            use_type_invariant(&*self);
            assert forall|i: int| 0 <= i < self.entries@.len() implies self.entries@[i].key
                != entry.key by {
                lemma_contents_at(self.entries@, i);
            }
            lemma_contents_push(self.entries@, entry);
        }
        let mut entries: Vec<Custody> = Vec::new();
        std::mem::swap(&mut self.entries, &mut entries);
        entries.push(entry);
        std::mem::swap(&mut self.entries, &mut entries);
    }

    /// The escrow under `key`, if there is one. Every escrow that is held
    /// lives under its derived address and has its vault in order.
    pub fn get(&self, key: &Pubkey) -> (r: Option<&Custody>)
        ensures
            match r {
                Some(c) => self@.contains_key(*key) && self@[*key] == *c && c.key == *key
                    && c.intact() && placed(*c, self.program()),
                None => !self@.contains_key(*key),
            },
    {
        proof {
            use_type_invariant(self);
        }
        match self.position(key) {
            Some(i) => Some(&self.entries[i]),
            None => None,
        }
    }

    /// `GetInfo`: the projection of the record under `key`; `NotFound` where
    /// no escrow lives there. Nothing changes.
    pub fn get_info(&self, key: &Pubkey) -> (r: Result<EscrowInfo, EscrowError>)
        ensures
            match r {
                Ok(info) => self@.contains_key(*key) && info == info_of(*key, self@[*key].escrow),
                Err(e) => !self@.contains_key(*key) && e == EscrowError::NotFound,
            },
    {
        match self.position(key) {
            Some(i) => Ok(escrow_info(key, &self.entries[i].escrow)),
            None => Err(EscrowError::NotFound),
        }
    }

    /// `Create`: a new escrow of `buyer` for the asset `mint`, funded from
    /// `buyer_token_account`. Returns the identity under which it lives.
    pub fn create(
        &mut self,
        buyer: Pubkey,
        mint: Pubkey,
        buyer_token_account: &mut TokenAccount,
        amount: u64,
        timeout_duration: i64,
        description: String,
        now: i64,
    ) -> (r: Result<Pubkey, EscrowError>)
        requires
            timeout_duration > 0 ==> now + timeout_duration <= i64::MAX,
        ensures
            final(self).program() == old(self).program(),
            r == old(self).create_outcome(
                buyer,
                mint,
                *old(buyer_token_account),
                amount,
                timeout_duration,
                description@,
            ),
            r is Err ==> final(self)@ == old(self)@ && *final(buyer_token_account) == *old(
                buyer_token_account,
            ),
            r matches Ok(key) ==> (escrow_address_of(buyer, mint, old(self).program()) matches Some(
                (_, bump),
            ) && ({
                let after = Self::create_ctx(
                    buyer,
                    mint,
                    key,
                    bump,
                    *old(buyer_token_account),
                ).applied(amount, timeout_duration, description, now);
                &&& final(self)@ == old(self)@.insert(key, created(after))
                &&& *final(buyer_token_account) == after.buyer_token_account
            })),
    {
        proof {
            use_type_invariant(&*self);
        }
        let (key, bump) = match find_escrow_address(&buyer, &mint, &self.program_id) {
            Some(found) => found,
            None => { return Err(EscrowError::NotFound); },
        };
        if self.position(&key).is_some() {
            return Err(EscrowError::InvalidState);
        }
        let mut ctx = CreateEscrow {
            buyer,
            escrow_key: key,
            escrow: None,
            mint,
            buyer_token_account: *buyer_token_account,
            vault_token_account: None,
            bump,
        };
        create_escrow(&mut ctx, amount, timeout_duration, description, now)?;
        let entry = Custody {
            key,
            escrow: ctx.escrow.unwrap(),
            vault: ctx.vault_token_account.unwrap(),
        };
        *buyer_token_account = ctx.buyer_token_account;
        self.add(entry);
        Ok(key)
    }

    /// `Accept`: `seller` accepts the escrow under `key`.
    pub fn accept(&mut self, seller: Pubkey, key: &Pubkey, now: i64) -> (r: Result<
        (),
        EscrowError,
    >)
        ensures
            final(self).program() == old(self).program(),
            r == old(self).call_outcome(*key, Call { request: Request::Accept { seller }, now }),
            r is Err ==> final(self)@ == old(self)@,
            r is Ok ==> final(self)@ == old(self)@.insert(
                *key,
                old(self)@[*key].step(Call { request: Request::Accept { seller }, now }),
            ),
    {
        proof {
            use_type_invariant(&*self);
        }
        let i = match self.position(key) {
            Some(i) => i,
            None => { return Err(EscrowError::NotFound); },
        };
        let mut ctx = AcceptEscrow { seller, escrow: self.entries[i].escrow.duplicate() };
        accept_escrow(&mut ctx, now)?;
        let entry = Custody { key: *key, escrow: ctx.escrow, vault: self.entries[i].vault };
        self.put(i, entry);
        Ok(())
    }

    /// `ConfirmDelivery`: `caller` confirms delivery for the escrow under
    /// `key`, and the funds go to `seller_token_account`.
    pub fn confirm_delivery(
        &mut self,
        caller: Pubkey,
        key: &Pubkey,
        seller_token_account: &mut TokenAccount,
        now: i64,
    ) -> (r: Result<(), EscrowError>)
        requires
            old(self).has_room(
                *key,
                Call {
                    request: Request::ConfirmDelivery {
                        caller,
                        seller_token_account: *old(seller_token_account),
                    },
                    now,
                },
                *old(seller_token_account),
            ),
        ensures
            final(self).program() == old(self).program(),
            ({
                let call = Call {
                    request: Request::ConfirmDelivery {
                        caller,
                        seller_token_account: *old(seller_token_account),
                    },
                    now,
                };
                &&& r == old(self).call_outcome(*key, call)
                &&& r is Err ==> final(self)@ == old(self)@ && *final(seller_token_account)
                    == *old(seller_token_account)
                &&& r is Ok ==> final(self)@ == old(self)@.insert(
                    *key,
                    old(self)@[*key].step(call),
                ) && *final(seller_token_account) == old(self)@[*key].confirm_ctx(
                    caller,
                    *old(seller_token_account),
                ).applied(now).seller_token_account
            }),
    {
        proof {
            use_type_invariant(&*self);
        }
        let i = match self.position(key) {
            Some(i) => i,
            None => { return Err(EscrowError::NotFound); },
        };
        let mut ctx = ConfirmDelivery {
            buyer: caller,
            escrow_key: *key,
            escrow: self.entries[i].escrow.duplicate(),
            vault_token_account: self.entries[i].vault,
            seller_token_account: *seller_token_account,
        };
        confirm_delivery(&mut ctx, now)?;
        let entry = Custody { key: *key, escrow: ctx.escrow, vault: ctx.vault_token_account };
        *seller_token_account = ctx.seller_token_account;
        self.put(i, entry);
        Ok(())
    }

    /// `Cancel`: `caller` cancels the escrow under `key`, and the funds
    /// return to `buyer_token_account`.
    pub fn cancel(
        &mut self,
        caller: Pubkey,
        key: &Pubkey,
        buyer_token_account: &mut TokenAccount,
        now: i64,
    ) -> (r: Result<(), EscrowError>)
        requires
            old(self).has_room(
                *key,
                Call {
                    request: Request::Cancel {
                        caller,
                        buyer_token_account: *old(buyer_token_account),
                    },
                    now,
                },
                *old(buyer_token_account),
            ),
        ensures
            final(self).program() == old(self).program(),
            ({
                let call = Call {
                    request: Request::Cancel {
                        caller,
                        buyer_token_account: *old(buyer_token_account),
                    },
                    now,
                };
                &&& r == old(self).call_outcome(*key, call)
                &&& r is Err ==> final(self)@ == old(self)@ && *final(buyer_token_account) == *old(
                    buyer_token_account,
                )
                &&& r is Ok ==> final(self)@ == old(self)@.insert(
                    *key,
                    old(self)@[*key].step(call),
                ) && *final(buyer_token_account) == old(self)@[*key].cancel_ctx(
                    caller,
                    *old(buyer_token_account),
                ).applied(now).buyer_token_account
            }),
    {
        proof {
            use_type_invariant(&*self);
        }
        let i = match self.position(key) {
            Some(i) => i,
            None => { return Err(EscrowError::NotFound); },
        };
        let mut ctx = CancelEscrow {
            buyer: caller,
            escrow_key: *key,
            escrow: self.entries[i].escrow.duplicate(),
            vault_token_account: self.entries[i].vault,
            buyer_token_account: *buyer_token_account,
        };
        cancel_escrow(&mut ctx, now)?;
        let entry = Custody { key: *key, escrow: ctx.escrow, vault: ctx.vault_token_account };
        *buyer_token_account = ctx.buyer_token_account;
        self.put(i, entry);
        Ok(())
    }

    /// `ResolveTimeout`: `resolver`, who may be anyone, resolves the timeout
    /// of the escrow under `key`, and the funds go to `seller_token_account`.
    pub fn resolve_timeout(
        &mut self,
        resolver: Pubkey,
        key: &Pubkey,
        seller_token_account: &mut TokenAccount,
        now: i64,
    ) -> (r: Result<(), EscrowError>)
        requires
            old(self).has_room(
                *key,
                Call {
                    request: Request::ResolveTimeout {
                        resolver,
                        seller_token_account: *old(seller_token_account),
                    },
                    now,
                },
                *old(seller_token_account),
            ),
        ensures
            final(self).program() == old(self).program(),
            ({
                let call = Call {
                    request: Request::ResolveTimeout {
                        resolver,
                        seller_token_account: *old(seller_token_account),
                    },
                    now,
                };
                &&& r == old(self).call_outcome(*key, call)
                &&& r is Err ==> final(self)@ == old(self)@ && *final(seller_token_account)
                    == *old(seller_token_account)
                &&& r is Ok ==> final(self)@ == old(self)@.insert(
                    *key,
                    old(self)@[*key].step(call),
                ) && *final(seller_token_account) == old(self)@[*key].timeout_ctx(
                    resolver,
                    *old(seller_token_account),
                ).applied(now).seller_token_account
            }),
    {
        proof {
            use_type_invariant(&*self);
        }
        let i = match self.position(key) {
            Some(i) => i,
            None => { return Err(EscrowError::NotFound); },
        };
        let mut ctx = ResolveTimeout {
            resolver,
            escrow_key: *key,
            escrow: self.entries[i].escrow.duplicate(),
            vault_token_account: self.entries[i].vault,
            seller_token_account: *seller_token_account,
        };
        resolve_timeout(&mut ctx, now)?;
        let entry = Custody { key: *key, escrow: ctx.escrow, vault: ctx.vault_token_account };
        *seller_token_account = ctx.seller_token_account;
        self.put(i, entry);
        Ok(())
    }
}

} // verus!
