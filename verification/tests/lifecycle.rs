use solana_escrow_engine::error::EscrowError;
use solana_escrow_engine::escrow::Escrow;
use solana_escrow_engine::lifecycle::{
    accept_escrow, cancel_escrow, confirm_delivery, create_escrow, resolve_timeout,
    AcceptEscrow, CancelEscrow, ConfirmDelivery, CreateEscrow, ResolveTimeout,
};
use solana_escrow_engine::pubkey::Pubkey;
use solana_escrow_engine::state::EscrowState;
use solana_escrow_engine::vault::{TokenAccount, Vault};

fn key(tag: u8) -> Pubkey {
    Pubkey::new_from_array([tag; 32])
}

fn buyer() -> Pubkey {
    key(1)
}

fn seller() -> Pubkey {
    key(2)
}

fn mint() -> Pubkey {
    key(3)
}

fn escrow_key() -> Pubkey {
    key(4)
}

fn create_ctx(balance: u64) -> CreateEscrow {
    CreateEscrow {
        buyer: buyer(),
        escrow_key: escrow_key(),
        escrow: None,
        mint: mint(),
        buyer_token_account: TokenAccount { owner: buyer(), mint: mint(), amount: balance },
        vault_token_account: None,
        bump: 254,
    }
}

/// A widget escrow of 100 units, created at time 1000 with a timeout of 3600.
fn created() -> (Escrow, Vault, TokenAccount) {
    let mut ctx = create_ctx(150);
    let r = create_escrow(&mut ctx, 100, 3600, String::from("widget"), 1000);
    assert_eq!(r, Ok(()));
    (ctx.escrow.unwrap(), ctx.vault_token_account.unwrap(), ctx.buyer_token_account)
}

fn accepted() -> (Escrow, Vault) {
    let (escrow, vault, _) = created();
    let mut ctx = AcceptEscrow { seller: seller(), escrow };
    assert_eq!(accept_escrow(&mut ctx, 1100), Ok(()));
    (ctx.escrow, vault)
}

fn seller_account(amount: u64) -> TokenAccount {
    TokenAccount { owner: seller(), mint: mint(), amount }
}

fn buyer_account(amount: u64) -> TokenAccount {
    TokenAccount { owner: buyer(), mint: mint(), amount }
}

#[test]
fn create_writes_the_record_and_funds_the_vault() {
    let mut ctx = create_ctx(150);
    let r = create_escrow(&mut ctx, 100, 3600, String::from("widget"), 1000);
    assert_eq!(r, Ok(()));
    let escrow = ctx.escrow.clone().unwrap();
    let vault = ctx.vault_token_account.unwrap();
    assert_eq!(escrow.state, EscrowState::Created);
    assert_eq!(escrow.seller, Pubkey::default());
    assert!(escrow.seller.is_default());
    assert_eq!(escrow.buyer, buyer());
    assert_eq!(escrow.mint, mint());
    assert_eq!(escrow.amount, 100);
    assert_eq!(escrow.created_at, 1000);
    assert_eq!(escrow.timeout_at, 4600);
    assert_eq!(escrow.accepted_at, 0);
    assert_eq!(escrow.completed_at, 0);
    assert_eq!(escrow.cancelled_at, 0);
    assert_eq!(escrow.description, "widget");
    assert_eq!(escrow.bump, 254);
    assert_eq!(vault, Vault { authority: escrow_key(), mint: mint(), balance: 100 });
    assert_eq!(ctx.buyer_token_account.amount, 50);
    assert!(escrow.is_well_formed());
}

#[test]
fn accept_sets_the_seller_and_a_second_accept_is_rejected() {
    let (escrow, _, _) = created();
    let mut ctx = AcceptEscrow { seller: seller(), escrow };
    assert_eq!(accept_escrow(&mut ctx, 1100), Ok(()));
    assert_eq!(ctx.escrow.state, EscrowState::Accepted);
    assert_eq!(ctx.escrow.seller, seller());
    assert_eq!(ctx.escrow.accepted_at, 1100);
    assert!(ctx.escrow.is_well_formed());

    let before = ctx.clone();
    assert_eq!(accept_escrow(&mut ctx, 1200), Err(EscrowError::InvalidState));
    assert_eq!(ctx, before);

    let mut other = AcceptEscrow { seller: key(9), escrow: ctx.escrow.clone() };
    assert_eq!(accept_escrow(&mut other, 1200), Err(EscrowError::InvalidState));
    assert_eq!(other.escrow, ctx.escrow);
}

#[test]
fn confirm_delivery_pays_the_seller() {
    let (escrow, vault) = accepted();
    let mut ctx = ConfirmDelivery {
        buyer: buyer(),
        escrow_key: escrow_key(),
        escrow,
        vault_token_account: vault,
        seller_token_account: seller_account(7),
    };
    assert_eq!(ctx.check(), Ok(()));
    assert!(ctx.can_release());
    assert_eq!(confirm_delivery(&mut ctx, 1200), Ok(()));
    assert_eq!(ctx.vault_token_account.balance, 0);
    assert_eq!(ctx.seller_token_account.amount, 107);
    assert_eq!(ctx.escrow.state, EscrowState::Completed);
    assert_eq!(ctx.escrow.completed_at, 1200);
    assert_eq!(ctx.escrow.cancelled_at, 0);
    assert!(ctx.escrow.is_well_formed());
}

#[test]
fn cancel_after_accept_is_rejected() {
    let (escrow, vault) = accepted();
    let mut ctx = CancelEscrow {
        buyer: buyer(),
        escrow_key: escrow_key(),
        escrow,
        vault_token_account: vault,
        buyer_token_account: buyer_account(50),
    };
    let before = ctx.clone();
    assert_eq!(cancel_escrow(&mut ctx, 1200), Err(EscrowError::InvalidState));
    assert_eq!(ctx, before);
    assert_eq!(ctx.vault_token_account.balance, 100);
}

#[test]
fn timeout_is_gated_by_the_deadline() {
    let (escrow, vault) = accepted();
    let mut ctx = ResolveTimeout {
        resolver: key(77),
        escrow_key: escrow_key(),
        escrow,
        vault_token_account: vault,
        seller_token_account: seller_account(0),
    };
    let before = ctx.clone();
    assert_eq!(ctx.escrow.timeout_at, 4600);
    assert_eq!(resolve_timeout(&mut ctx, 4599), Err(EscrowError::TimeoutNotReached));
    assert_eq!(ctx, before);

    assert_eq!(resolve_timeout(&mut ctx, 4600), Ok(()));
    assert_eq!(ctx.escrow.state, EscrowState::TimedOut);
    assert_eq!(ctx.escrow.completed_at, 4600);
    assert_eq!(ctx.vault_token_account.balance, 0);
    assert_eq!(ctx.seller_token_account.amount, 100);
    assert!(ctx.escrow.is_well_formed());
}

#[test]
fn cancel_before_accept_refunds_the_buyer() {
    let (escrow, vault, buyer_token_account) = created();
    let mut ctx = CancelEscrow {
        buyer: buyer(),
        escrow_key: escrow_key(),
        escrow,
        vault_token_account: vault,
        buyer_token_account,
    };
    assert_eq!(cancel_escrow(&mut ctx, 1500), Ok(()));
    assert_eq!(ctx.escrow.state, EscrowState::Cancelled);
    assert_eq!(ctx.escrow.cancelled_at, 1500);
    assert_eq!(ctx.escrow.completed_at, 0);
    assert!(ctx.escrow.seller.is_default());
    assert_eq!(ctx.vault_token_account.balance, 0);
    assert_eq!(ctx.buyer_token_account.amount, 150);
    assert!(ctx.escrow.is_well_formed());
}

#[test]
fn create_rejects_a_zero_amount() {
    let mut ctx = create_ctx(150);
    let before = ctx.clone();
    let r = create_escrow(&mut ctx, 0, 3600, String::from("widget"), 1000);
    assert_eq!(r, Err(EscrowError::InvalidState));
    assert_eq!(ctx, before);
}

#[test]
fn create_rejects_a_timeout_that_is_not_positive() {
    let mut ctx = create_ctx(150);
    let before = ctx.clone();
    assert_eq!(
        create_escrow(&mut ctx, 100, 0, String::from("widget"), 1000),
        Err(EscrowError::InvalidState)
    );
    assert_eq!(
        create_escrow(&mut ctx, 100, -5, String::from("widget"), 1000),
        Err(EscrowError::InvalidState)
    );
    assert_eq!(ctx, before);
}

#[test]
fn create_bounds_the_description_by_its_bytes() {
    let mut ctx = create_ctx(150);
    let r = create_escrow(&mut ctx, 100, 3600, "d".repeat(200), 1000);
    assert_eq!(r, Ok(()));

    let mut ctx = create_ctx(150);
    let before = ctx.clone();
    let r = create_escrow(&mut ctx, 100, 3600, "d".repeat(201), 1000);
    assert_eq!(r, Err(EscrowError::InvalidState));
    assert_eq!(ctx, before);

    // 67 characters of three bytes each are 201 bytes.
    let mut ctx = create_ctx(150);
    let r = create_escrow(&mut ctx, 100, 3600, "\u{20ac}".repeat(67), 1000);
    assert_eq!(r, Err(EscrowError::InvalidState));
    let mut ctx = create_ctx(150);
    let r = create_escrow(&mut ctx, 100, 3600, "\u{20ac}".repeat(66), 1000);
    assert_eq!(r, Ok(()));
}

#[test]
fn create_rejects_an_identity_that_is_taken() {
    let (escrow, vault, buyer_token_account) = created();
    let mut ctx = create_ctx(150);
    ctx.escrow = Some(escrow);
    ctx.vault_token_account = Some(vault);
    ctx.buyer_token_account = buyer_token_account;
    let before = ctx.clone();
    let r = create_escrow(&mut ctx, 10, 3600, String::from("again"), 2000);
    assert_eq!(r, Err(EscrowError::InvalidState));
    assert_eq!(ctx, before);
}

#[test]
fn create_rejects_an_account_that_is_not_the_buyers() {
    let mut ctx = create_ctx(150);
    ctx.buyer_token_account.owner = key(8);
    let before = ctx.clone();
    let r = create_escrow(&mut ctx, 100, 3600, String::from("widget"), 1000);
    assert_eq!(r, Err(EscrowError::UnauthorizedBuyer));
    assert_eq!(ctx, before);

    let mut ctx = create_ctx(150);
    ctx.buyer_token_account.mint = key(8);
    let r = create_escrow(&mut ctx, 100, 3600, String::from("widget"), 1000);
    assert_eq!(r, Err(EscrowError::UnauthorizedBuyer));
}

#[test]
fn create_rejects_a_deposit_beyond_the_balance() {
    let mut ctx = create_ctx(99);
    let before = ctx.clone();
    let r = create_escrow(&mut ctx, 100, 3600, String::from("widget"), 1000);
    assert_eq!(r, Err(EscrowError::InsufficientFunds));
    assert_eq!(ctx, before);

    let mut ctx = create_ctx(100);
    let r = create_escrow(&mut ctx, 100, 3600, String::from("widget"), 1000);
    assert_eq!(r, Ok(()));
    assert_eq!(ctx.buyer_token_account.amount, 0);
}

#[test]
fn accept_checks_the_seller_field_too() {
    let (mut escrow, _, _) = created();
    escrow.seller = key(9);
    let mut ctx = AcceptEscrow { seller: seller(), escrow };
    let before = ctx.clone();
    assert_eq!(accept_escrow(&mut ctx, 1100), Err(EscrowError::AlreadyAccepted));
    assert_eq!(ctx, before);
}

#[test]
fn confirm_delivery_is_for_the_buyer_only() {
    let (escrow, vault) = accepted();
    let mut ctx = ConfirmDelivery {
        buyer: seller(),
        escrow_key: escrow_key(),
        escrow,
        vault_token_account: vault,
        seller_token_account: seller_account(0),
    };
    let before = ctx.clone();
    assert_eq!(confirm_delivery(&mut ctx, 1200), Err(EscrowError::UnauthorizedBuyer));
    assert_eq!(ctx, before);
}

#[test]
fn confirm_delivery_needs_an_accepted_escrow() {
    let (escrow, vault, _) = created();
    let mut ctx = ConfirmDelivery {
        buyer: buyer(),
        escrow_key: escrow_key(),
        escrow,
        vault_token_account: vault,
        seller_token_account: seller_account(0),
    };
    let before = ctx.clone();
    assert_eq!(confirm_delivery(&mut ctx, 1200), Err(EscrowError::InvalidState));
    assert_eq!(ctx, before);
}

#[test]
fn funds_go_to_the_sellers_account_only() {
    let (escrow, vault) = accepted();
    let mut ctx = ConfirmDelivery {
        buyer: buyer(),
        escrow_key: escrow_key(),
        escrow: escrow.clone(),
        vault_token_account: vault,
        seller_token_account: TokenAccount { owner: key(9), mint: mint(), amount: 0 },
    };
    let before = ctx.clone();
    assert_eq!(confirm_delivery(&mut ctx, 1200), Err(EscrowError::UnauthorizedSeller));
    assert_eq!(ctx, before);

    let mut ctx = ResolveTimeout {
        resolver: key(5),
        escrow_key: escrow_key(),
        escrow,
        vault_token_account: vault,
        seller_token_account: TokenAccount { owner: seller(), mint: key(9), amount: 0 },
    };
    let before = ctx.clone();
    assert_eq!(resolve_timeout(&mut ctx, 5000), Err(EscrowError::UnauthorizedSeller));
    assert_eq!(ctx, before);
}

#[test]
fn cancel_is_for_the_buyer_only() {
    let (escrow, vault, _) = created();
    let mut ctx = CancelEscrow {
        buyer: key(9),
        escrow_key: escrow_key(),
        escrow: escrow.clone(),
        vault_token_account: vault,
        buyer_token_account: buyer_account(50),
    };
    let before = ctx.clone();
    assert_eq!(cancel_escrow(&mut ctx, 1200), Err(EscrowError::UnauthorizedBuyer));
    assert_eq!(ctx, before);

    let mut ctx = CancelEscrow {
        buyer: buyer(),
        escrow_key: escrow_key(),
        escrow,
        vault_token_account: vault,
        buyer_token_account: TokenAccount { owner: key(9), mint: mint(), amount: 50 },
    };
    assert_eq!(cancel_escrow(&mut ctx, 1200), Err(EscrowError::UnauthorizedBuyer));
}

#[test]
fn resolve_timeout_needs_an_accepted_escrow() {
    let (escrow, vault, _) = created();
    let mut ctx = ResolveTimeout {
        resolver: key(5),
        escrow_key: escrow_key(),
        escrow,
        vault_token_account: vault,
        seller_token_account: seller_account(0),
    };
    assert_eq!(resolve_timeout(&mut ctx, 10_000), Err(EscrowError::InvalidState));
    assert_eq!(ctx.vault_token_account.balance, 100);
}

#[test]
fn terminal_states_reject_every_operation() {
    let (escrow, vault) = accepted();
    let mut done = ConfirmDelivery {
        buyer: buyer(),
        escrow_key: escrow_key(),
        escrow,
        vault_token_account: vault,
        seller_token_account: seller_account(0),
    };
    assert_eq!(confirm_delivery(&mut done, 1200), Ok(()));
    let before = done.clone();
    assert_eq!(confirm_delivery(&mut done, 1300), Err(EscrowError::InvalidState));
    assert_eq!(done, before);

    let mut a = AcceptEscrow { seller: seller(), escrow: done.escrow.clone() };
    assert_eq!(accept_escrow(&mut a, 1300), Err(EscrowError::InvalidState));
    let mut c = CancelEscrow {
        buyer: buyer(),
        escrow_key: escrow_key(),
        escrow: done.escrow.clone(),
        vault_token_account: done.vault_token_account,
        buyer_token_account: buyer_account(50),
    };
    assert_eq!(cancel_escrow(&mut c, 1300), Err(EscrowError::InvalidState));
    assert_eq!(c.buyer_token_account.amount, 50);
    let mut t = ResolveTimeout {
        resolver: key(5),
        escrow_key: escrow_key(),
        escrow: done.escrow.clone(),
        vault_token_account: done.vault_token_account,
        seller_token_account: done.seller_token_account,
    };
    assert_eq!(resolve_timeout(&mut t, 10_000), Err(EscrowError::InvalidState));
    assert_eq!(t.seller_token_account.amount, 100);
    assert_eq!(t.vault_token_account.balance, 0);
}

#[test]
fn the_vault_must_be_that_of_the_escrow() {
    let (escrow, vault) = accepted();
    let foreign_asset = Vault { authority: escrow_key(), mint: key(9), balance: 100 };
    let foreign_escrow = Vault { authority: key(9), mint: mint(), balance: 100 };
    for wrong in [foreign_asset, foreign_escrow] {
        let mut ctx = ConfirmDelivery {
            buyer: buyer(),
            escrow_key: escrow_key(),
            escrow: escrow.clone(),
            vault_token_account: wrong,
            seller_token_account: seller_account(0),
        };
        let before = ctx.clone();
        assert_eq!(ctx.check(), Err(EscrowError::NotFound));
        assert_eq!(confirm_delivery(&mut ctx, 1200), Err(EscrowError::NotFound));
        assert_eq!(ctx, before);

        let mut ctx = ResolveTimeout {
            resolver: key(5),
            escrow_key: escrow_key(),
            escrow: escrow.clone(),
            vault_token_account: wrong,
            seller_token_account: seller_account(0),
        };
        assert_eq!(ctx.check(4599), Err(EscrowError::TimeoutNotReached));
        assert_eq!(resolve_timeout(&mut ctx, 4600), Err(EscrowError::NotFound));
        assert_eq!(ctx.vault_token_account.balance, 100);
        assert_eq!(ctx.seller_token_account.amount, 0);
    }
    let (created_escrow, _, _) = created();
    let mut ctx = CancelEscrow {
        buyer: buyer(),
        escrow_key: escrow_key(),
        escrow: created_escrow,
        vault_token_account: foreign_escrow,
        buyer_token_account: buyer_account(50),
    };
    assert_eq!(cancel_escrow(&mut ctx, 1200), Err(EscrowError::NotFound));
    assert_eq!(ctx.buyer_token_account.amount, 50);

    // The state and the caller are judged first.
    let mut ctx = ConfirmDelivery {
        buyer: key(9),
        escrow_key: escrow_key(),
        escrow,
        vault_token_account: foreign_escrow,
        seller_token_account: seller_account(0),
    };
    assert_eq!(confirm_delivery(&mut ctx, 1200), Err(EscrowError::UnauthorizedBuyer));
    let _ = vault;
}

#[test]
fn a_release_needs_room_in_the_account() {
    let (escrow, vault) = accepted();
    let ctx = ConfirmDelivery {
        buyer: buyer(),
        escrow_key: escrow_key(),
        escrow,
        vault_token_account: vault,
        seller_token_account: seller_account(u64::MAX - 100),
    };
    assert!(ctx.can_release());
    assert!(vault.has_room_in(&seller_account(u64::MAX - 100)));
    assert!(!vault.has_room_in(&seller_account(u64::MAX - 99)));
    assert!(vault.is_vault_of(&escrow_key(), &mint()));
    assert!(!vault.is_vault_of(&key(9), &mint()));
    assert!(!vault.is_vault_of(&escrow_key(), &key(9)));
    let mut full = ctx.clone();
    assert_eq!(confirm_delivery(&mut full, 1200), Ok(()));
    assert_eq!(full.seller_token_account.amount, u64::MAX);
}

#[test]
fn a_check_decides_without_effect() {
    let ctx = create_ctx(150);
    assert_eq!(ctx.check(100, 3600, "widget"), Ok(()));
    assert_eq!(ctx.check(151, 3600, "widget"), Err(EscrowError::InsufficientFunds));
    assert_eq!(ctx.check(0, 3600, "widget"), Err(EscrowError::InvalidState));
    assert_eq!(ctx, create_ctx(150));

    let (escrow, vault, _) = created();
    let accept = AcceptEscrow { seller: seller(), escrow: escrow.clone() };
    assert_eq!(accept.check(), Ok(()));
    assert_eq!(accept.escrow, escrow);
    let cancel = CancelEscrow {
        buyer: buyer(),
        escrow_key: escrow_key(),
        escrow: escrow.clone(),
        vault_token_account: vault,
        buyer_token_account: buyer_account(50),
    };
    assert_eq!(cancel.check(), Ok(()));
    assert!(cancel.can_release());
    let timeout = ResolveTimeout {
        resolver: key(5),
        escrow_key: escrow_key(),
        escrow,
        vault_token_account: vault,
        seller_token_account: seller_account(0),
    };
    assert_eq!(timeout.check(9999), Err(EscrowError::InvalidState));
    assert!(timeout.can_release());
}
