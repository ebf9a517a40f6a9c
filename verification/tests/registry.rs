use solana_escrow_engine::address::find_escrow_address;
use solana_escrow_engine::custody::Custody;
use solana_escrow_engine::error::EscrowError;
use solana_escrow_engine::pubkey::Pubkey;
use solana_escrow_engine::registry::Registry;
use solana_escrow_engine::state::EscrowState;
use solana_escrow_engine::vault::{TokenAccount, Vault};

fn key(tag: u8) -> Pubkey {
    Pubkey::new_from_array([tag; 32])
}

fn program() -> Pubkey {
    key(42)
}

fn buyer() -> Pubkey {
    key(1)
}

fn seller() -> Pubkey {
    key(2)
}

fn mint() -> Pubkey {
    key(3)
}

fn account(owner: Pubkey, amount: u64) -> TokenAccount {
    TokenAccount { owner, mint: mint(), amount }
}

fn with_widget() -> (Registry, Pubkey, TokenAccount) {
    let mut registry = Registry::new(program());
    let mut wallet = account(buyer(), 150);
    let id = registry
        .create(buyer(), mint(), &mut wallet, 100, 3600, String::from("widget"), 1000)
        .unwrap();
    (registry, id, wallet)
}

fn held(registry: &Registry, id: &Pubkey) -> Custody {
    registry.get(id).unwrap().clone()
}

#[test]
fn a_new_registry_is_empty() {
    let registry = Registry::new(program());
    assert_eq!(registry.program_id(), program());
    assert!(registry.get(&key(1)).is_none());
    assert_eq!(registry.get_info(&key(1)), Err(EscrowError::NotFound));
}

#[test]
fn an_escrow_lives_under_its_derived_address() {
    let (registry, id, wallet) = with_widget();
    let (derived, bump) = find_escrow_address(&buyer(), &mint(), &program()).unwrap();
    assert_eq!(id, derived);
    assert_eq!(wallet.amount, 50);
    let c = held(&registry, &id);
    assert_eq!(c.key, id);
    assert_eq!(c.escrow.bump, bump);
    assert_eq!(c.escrow.buyer, buyer());
    assert_eq!(c.escrow.state, EscrowState::Created);
    assert!(c.escrow.seller.is_default());
    assert_eq!(c.escrow.amount, 100);
    assert_eq!(c.escrow.timeout_at, 4600);
    assert_eq!(c.vault, Vault { authority: id, mint: mint(), balance: 100 });
}

#[test]
fn a_buyer_has_one_escrow_per_asset() {
    let (mut registry, id, mut wallet) = with_widget();
    let before = held(&registry, &id);
    let r = registry.create(buyer(), mint(), &mut wallet, 10, 60, String::from("again"), 2000);
    assert_eq!(r, Err(EscrowError::InvalidState));
    assert_eq!(wallet.amount, 50);
    assert_eq!(held(&registry, &id), before);

    // Another asset, or another buyer, is another escrow.
    let mut other = TokenAccount { owner: buyer(), mint: key(7), amount: 10 };
    let second = registry
        .create(buyer(), key(7), &mut other, 10, 60, String::from("other"), 2000)
        .unwrap();
    assert_ne!(second, id);
    let mut third_wallet = account(key(8), 10);
    let third = registry
        .create(key(8), mint(), &mut third_wallet, 10, 60, String::from("third"), 2000)
        .unwrap();
    assert_ne!(third, id);
    assert_ne!(third, second);
    assert_eq!(held(&registry, &id), before);
    assert_eq!(held(&registry, &second).escrow.amount, 10);
    assert_eq!(held(&registry, &third).escrow.buyer, key(8));
}

#[test]
fn a_rejected_create_leaves_no_escrow() {
    let mut registry = Registry::new(program());
    let id = find_escrow_address(&buyer(), &mint(), &program()).unwrap().0;
    let mut wallet = account(buyer(), 99);
    let r = registry.create(buyer(), mint(), &mut wallet, 100, 3600, String::new(), 1000);
    assert_eq!(r, Err(EscrowError::InsufficientFunds));
    assert_eq!(wallet.amount, 99);
    assert!(registry.get(&id).is_none());
    let r = registry.create(buyer(), mint(), &mut wallet, 0, 3600, String::new(), 1000);
    assert_eq!(r, Err(EscrowError::InvalidState));
    let r = registry.create(buyer(), mint(), &mut wallet, 10, 0, String::new(), 1000);
    assert_eq!(r, Err(EscrowError::InvalidState));
    let mut foreign = account(key(9), 500);
    let r = registry.create(buyer(), mint(), &mut foreign, 10, 60, String::new(), 1000);
    assert_eq!(r, Err(EscrowError::UnauthorizedBuyer));
    assert!(registry.get(&id).is_none());
    let r = registry.create(buyer(), mint(), &mut wallet, 99, 60, String::new(), 1000);
    assert_eq!(r, Ok(id));
    assert_eq!(wallet.amount, 0);
}

#[test]
fn an_unknown_identity_is_not_found() {
    let (mut registry, id, _) = with_widget();
    let nowhere = key(99);
    let mut to = account(seller(), 0);
    assert_eq!(registry.accept(seller(), &nowhere, 1100), Err(EscrowError::NotFound));
    assert_eq!(
        registry.confirm_delivery(buyer(), &nowhere, &mut to, 1100),
        Err(EscrowError::NotFound)
    );
    assert_eq!(registry.cancel(buyer(), &nowhere, &mut to, 1100), Err(EscrowError::NotFound));
    assert_eq!(
        registry.resolve_timeout(buyer(), &nowhere, &mut to, 9999),
        Err(EscrowError::NotFound)
    );
    assert_eq!(registry.get_info(&nowhere), Err(EscrowError::NotFound));
    assert_eq!(to.amount, 0);
    assert_eq!(held(&registry, &id).escrow.state, EscrowState::Created);
}

#[test]
fn the_happy_path_by_identity() {
    let (mut registry, id, _) = with_widget();
    assert_eq!(registry.accept(seller(), &id, 1100), Ok(()));
    assert_eq!(held(&registry, &id).escrow.state, EscrowState::Accepted);
    assert_eq!(held(&registry, &id).escrow.seller, seller());
    assert_eq!(registry.accept(key(9), &id, 1150), Err(EscrowError::InvalidState));

    let mut to = account(seller(), 5);
    assert_eq!(
        registry.confirm_delivery(seller(), &id, &mut to, 1200),
        Err(EscrowError::UnauthorizedBuyer)
    );
    assert_eq!(to.amount, 5);
    assert_eq!(held(&registry, &id).vault.balance, 100);

    assert_eq!(registry.confirm_delivery(buyer(), &id, &mut to, 1200), Ok(()));
    assert_eq!(to.amount, 105);
    let c = held(&registry, &id);
    assert_eq!(c.escrow.state, EscrowState::Completed);
    assert_eq!(c.escrow.completed_at, 1200);
    assert_eq!(c.vault.balance, 0);

    // Nothing more can be had from a completed escrow.
    assert_eq!(
        registry.confirm_delivery(buyer(), &id, &mut to, 1300),
        Err(EscrowError::InvalidState)
    );
    assert_eq!(
        registry.resolve_timeout(key(9), &id, &mut to, 99_999),
        Err(EscrowError::InvalidState)
    );
    let mut back = account(buyer(), 50);
    assert_eq!(registry.cancel(buyer(), &id, &mut back, 1300), Err(EscrowError::InvalidState));
    assert_eq!(to.amount, 105);
    assert_eq!(back.amount, 50);
    assert_eq!(held(&registry, &id), c);
}

#[test]
fn cancel_by_identity() {
    let (mut registry, id, mut wallet) = with_widget();
    assert_eq!(
        registry.cancel(seller(), &id, &mut wallet, 1100),
        Err(EscrowError::UnauthorizedBuyer)
    );
    assert_eq!(wallet.amount, 50);
    assert_eq!(registry.cancel(buyer(), &id, &mut wallet, 1100), Ok(()));
    assert_eq!(wallet.amount, 150);
    let c = held(&registry, &id);
    assert_eq!(c.escrow.state, EscrowState::Cancelled);
    assert_eq!(c.escrow.cancelled_at, 1100);
    assert_eq!(c.vault.balance, 0);
    assert_eq!(registry.accept(seller(), &id, 1200), Err(EscrowError::InvalidState));
}

#[test]
fn timeout_by_identity_is_open_to_anyone() {
    let (mut registry, id, _) = with_widget();
    let mut to = account(seller(), 0);
    assert_eq!(
        registry.resolve_timeout(key(9), &id, &mut to, 5000),
        Err(EscrowError::InvalidState)
    );
    assert_eq!(registry.accept(seller(), &id, 1100), Ok(()));
    assert_eq!(
        registry.resolve_timeout(key(9), &id, &mut to, 4599),
        Err(EscrowError::TimeoutNotReached)
    );
    assert_eq!(to.amount, 0);
    assert_eq!(held(&registry, &id).escrow.state, EscrowState::Accepted);
    assert_eq!(registry.resolve_timeout(key(9), &id, &mut to, 4600), Ok(()));
    assert_eq!(to.amount, 100);
    let c = held(&registry, &id);
    assert_eq!(c.escrow.state, EscrowState::TimedOut);
    assert_eq!(c.escrow.completed_at, 4600);
    assert_eq!(c.vault.balance, 0);
}

#[test]
fn escrows_do_not_touch_each_other() {
    let (mut registry, first, _) = with_widget();
    let mut wallet = account(key(8), 30);
    let second = registry
        .create(key(8), mint(), &mut wallet, 30, 100, String::from("gadget"), 2000)
        .unwrap();
    let second_before = held(&registry, &second);
    assert_eq!(registry.accept(seller(), &first, 1100), Ok(()));
    let mut to = account(seller(), 0);
    assert_eq!(registry.confirm_delivery(buyer(), &first, &mut to, 1200), Ok(()));
    assert_eq!(to.amount, 100);
    assert_eq!(held(&registry, &second), second_before);
    assert_eq!(registry.cancel(key(8), &second, &mut wallet, 2100), Ok(()));
    assert_eq!(wallet.amount, 30);
    assert_eq!(held(&registry, &first).escrow.state, EscrowState::Completed);
}

#[test]
fn info_by_identity() {
    let (mut registry, id, _) = with_widget();
    let info = registry.get_info(&id).unwrap();
    assert_eq!(info.address, id);
    assert_eq!(info.buyer, buyer());
    assert_eq!(info.amount, 100);
    assert_eq!(info.state, EscrowState::Created);
    assert_eq!(info.description, "widget");
    assert_eq!(info.created_at, 1000);
    assert_eq!(info.timeout_at, 4600);
    assert_eq!(info.accepted_at, None);
    assert_eq!(registry.accept(seller(), &id, 1100), Ok(()));
    let info = registry.get_info(&id).unwrap();
    assert_eq!(info.seller, seller());
    assert_eq!(info.accepted_at, Some(1100));
    assert_eq!(info.completed_at, None);
}

#[test]
fn conservation_along_a_run() {
    let (mut registry, id, mut wallet) = with_widget();
    let mut to = account(seller(), 0);
    let mut released: u64 = 0;
    let total = |registry: &Registry, released: u64| held(registry, &id).vault.balance + released;
    assert_eq!(total(&registry, released), 100);
    let _ = registry.confirm_delivery(buyer(), &id, &mut to, 1050);
    assert_eq!(total(&registry, released) + to.amount, 100);
    let _ = registry.accept(seller(), &id, 1100);
    assert_eq!(total(&registry, released), 100);
    let _ = registry.cancel(buyer(), &id, &mut wallet, 1150);
    assert_eq!(wallet.amount, 50);
    assert_eq!(total(&registry, released), 100);
    let _ = registry.resolve_timeout(key(9), &id, &mut to, 1200);
    assert_eq!(total(&registry, released), 100);
    let before = held(&registry, &id).vault.balance;
    assert_eq!(registry.confirm_delivery(buyer(), &id, &mut to, 1250), Ok(()));
    released += before - held(&registry, &id).vault.balance;
    assert_eq!(released, 100);
    assert_eq!(total(&registry, released), 100);
    assert_eq!(to.amount, 100);
    let _ = registry.resolve_timeout(key(9), &id, &mut to, 99_999);
    let _ = registry.confirm_delivery(buyer(), &id, &mut to, 99_999);
    assert_eq!(to.amount, 100);
    assert_eq!(total(&registry, released), 100);
}

fn rank(state: EscrowState) -> u8 {
    match state {
        EscrowState::Created => 0,
        EscrowState::Accepted => 1,
        _ => 2,
    }
}

fn is_edge(from: EscrowState, to: EscrowState) -> bool {
    matches!(
        (from, to),
        (EscrowState::Created, EscrowState::Accepted)
            | (EscrowState::Created, EscrowState::Cancelled)
            | (EscrowState::Accepted, EscrowState::Completed)
            | (EscrowState::Accepted, EscrowState::TimedOut)
    )
}

/// Makes the call with the given number on the escrow and says whether it
/// was accepted.
fn call(registry: &mut Registry, id: &Pubkey, which: usize, now: i64) -> bool {
    let mut to_seller = account(seller(), 0);
    let mut to_buyer = account(buyer(), 0);
    match which {
        0 => registry.accept(seller(), id, now).is_ok(),
        1 => registry.confirm_delivery(buyer(), id, &mut to_seller, now).is_ok(),
        2 => registry.cancel(buyer(), id, &mut to_buyer, now).is_ok(),
        3 => registry.resolve_timeout(key(9), id, &mut to_seller, now).is_ok(),
        4 => registry.confirm_delivery(seller(), id, &mut to_seller, now).is_ok(),
        _ => registry.resolve_timeout(key(9), id, &mut to_seller, now + 10_000).is_ok(),
    }
}

#[test]
fn the_state_only_moves_forward_along_the_graph() {
    // Every sequence of four calls, out of six kinds, on a fresh escrow.
    for sequence in 0..6usize.pow(4) {
        let (mut registry, id, _) = with_widget();
        let mut releases = 0;
        let mut code = sequence;
        for step in 0..4 {
            let which = code % 6;
            code /= 6;
            let before = held(&registry, &id);
            let accepted = call(&mut registry, &id, which, 1100 + step);
            let after = held(&registry, &id);
            if accepted {
                assert!(is_edge(before.escrow.state, after.escrow.state));
                assert!(rank(before.escrow.state) < rank(after.escrow.state));
                assert!(!before.escrow.state.is_terminal());
            } else {
                assert_eq!(before, after);
            }
            if after.vault.balance != before.vault.balance {
                releases += 1;
                assert_eq!(before.vault.balance, 100);
                assert_eq!(after.vault.balance, 0);
                assert!(after.escrow.state.is_terminal());
            }
            assert_eq!(after.escrow.state.is_terminal(), after.vault.balance == 0);
            assert_eq!(after.escrow.amount, 100);
            assert_eq!(after.escrow.buyer, buyer());
            assert_eq!(after.escrow.timeout_at, 4600);
            assert!(after.escrow.is_well_formed());
        }
        assert!(releases <= 1);
    }
}
