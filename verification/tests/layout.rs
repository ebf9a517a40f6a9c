use anchor_lang::prelude::borsh;
use solana_escrow_engine::escrow::Escrow;
use solana_escrow_engine::layout::{decode, encode, state_of, tag_of};
use solana_escrow_engine::pubkey::Pubkey;
use solana_escrow_engine::state::EscrowState;

fn key(tag: u8) -> Pubkey {
    Pubkey::new_from_array([tag; 32])
}

fn record(description: &str) -> Escrow {
    Escrow {
        buyer: key(1),
        seller: key(2),
        mint: key(3),
        amount: 0x0102_0304_0506_0708,
        state: EscrowState::Accepted,
        created_at: 1000,
        accepted_at: 1100,
        completed_at: 0,
        cancelled_at: -2,
        timeout_at: i64::MAX,
        description: String::from(description),
        bump: 254,
    }
}

/// The same record as the serialization library writes it, field by field.
fn by_borsh(r: &Escrow) -> Vec<u8> {
    borsh::to_vec(&(
        r.buyer.to_bytes(),
        r.seller.to_bytes(),
        r.mint.to_bytes(),
        r.amount,
        tag_of(r.state),
        r.created_at,
        r.accepted_at,
        r.completed_at,
        r.cancelled_at,
        r.timeout_at,
        r.description.clone(),
        r.bump,
    ))
    .unwrap()
}

#[test]
fn states_have_their_bytes() {
    let all = [
        EscrowState::Created,
        EscrowState::Accepted,
        EscrowState::Completed,
        EscrowState::Cancelled,
        EscrowState::TimedOut,
    ];
    for (i, state) in all.into_iter().enumerate() {
        assert_eq!(tag_of(state), i as u8);
        assert_eq!(state_of(i as u8), Some(state));
    }
    assert_eq!(state_of(5), None);
    assert_eq!(state_of(255), None);
}

#[test]
fn a_record_is_stored_field_by_field() {
    let bytes = encode(&record("widget"));
    assert_eq!(bytes.len(), 156);
    assert_eq!(&bytes[0..32], &[1u8; 32]);
    assert_eq!(&bytes[32..64], &[2u8; 32]);
    assert_eq!(&bytes[64..96], &[3u8; 32]);
    assert_eq!(&bytes[96..104], &[8, 7, 6, 5, 4, 3, 2, 1]);
    assert_eq!(bytes[104], 1);
    assert_eq!(&bytes[105..113], &[0xe8, 0x03, 0, 0, 0, 0, 0, 0]);
    assert_eq!(&bytes[113..121], &[0x4c, 0x04, 0, 0, 0, 0, 0, 0]);
    assert_eq!(&bytes[121..129], &[0u8; 8]);
    assert_eq!(&bytes[129..137], &[0xfe, 0xff, 0xff, 0xff, 0xff, 0xff, 0xff, 0xff]);
    assert_eq!(&bytes[137..145], &[0xff, 0xff, 0xff, 0xff, 0xff, 0xff, 0xff, 0x7f]);
    assert_eq!(&bytes[145..149], &[6, 0, 0, 0]);
    assert_eq!(&bytes[149..155], b"widget");
    assert_eq!(bytes[155], 254);
}

#[test]
fn the_stored_form_is_that_of_the_serialization_library() {
    for text in ["", "widget", "\u{20ac}5 \u{1f600}", &"x".repeat(200)] {
        let mut r = record(text);
        assert_eq!(encode(&r), by_borsh(&r));
        r.state = EscrowState::TimedOut;
        r.created_at = i64::MIN;
        r.accepted_at = -1;
        r.amount = u64::MAX;
        assert_eq!(encode(&r), by_borsh(&r));
        assert_eq!(encode(&r).len(), r.serialized_len());
    }
    assert_eq!(encode(&record(&"x".repeat(200))).len(), Escrow::LEN);
}

#[test]
fn what_is_stored_is_read_back() {
    for text in ["", "widget", "\u{20ac}5 \u{1f600}", &"x".repeat(200)] {
        let mut r = record(text);
        assert_eq!(decode(&encode(&r)), Some(r.clone()));
        r.state = EscrowState::Cancelled;
        r.created_at = i64::MIN;
        r.completed_at = -1;
        r.seller = Pubkey::default();
        assert_eq!(decode(&encode(&r)), Some(r.clone()));
        assert_ne!(decode(&encode(&r)), Some(record(text)));
    }
}

#[test]
fn what_follows_a_record_is_not_read() {
    let r = record("widget");
    let mut bytes = encode(&r);
    bytes.resize(Escrow::LEN, 0);
    assert_eq!(decode(&bytes), Some(r.clone()));
    bytes.extend_from_slice(&[7, 7, 7]);
    assert_eq!(decode(&bytes), Some(r));
}

#[test]
fn bytes_that_hold_no_record_are_rejected() {
    let good = encode(&record("widget"));
    assert_eq!(decode(&[]), None);
    assert_eq!(decode(&good[..149]), None);
    assert_eq!(decode(&good[..155]), None);
    assert!(decode(&good[..156]).is_some());

    let mut bad_state = good.clone();
    bad_state[104] = 5;
    assert_eq!(decode(&bad_state), None);

    let mut too_long = good.clone();
    too_long[145] = 201;
    too_long[155] = b'x';
    too_long.resize(400, b'x');
    assert_eq!(decode(&too_long), None);
    too_long[145] = 200;
    assert_eq!(decode(&too_long).map(|r| r.description.len()), Some(200));

    let mut huge = good.clone();
    huge[148] = 1;
    assert_eq!(decode(&huge), None);

    let mut not_text = good.clone();
    not_text[149] = 0xff;
    assert_eq!(decode(&not_text), None);
    let mut cut_text = encode(&record("\u{20ac}"));
    cut_text[145] = 2;
    assert_eq!(decode(&cut_text), None);
}
