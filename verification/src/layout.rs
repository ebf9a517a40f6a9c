//! The stored form of an escrow record.
//!
//! A record is stored field by field, in the order in which `Escrow` declares
//! them: each identity as its 32 bytes, the amount and the timestamps as eight
//! bytes each with the lowest byte first (a negative timestamp in two's
//! complement), the state as one byte, the description as its length in four
//! bytes, lowest first, and then its text in UTF-8, and the bump seed as one
//! byte. A record with a full description takes `Escrow::LEN` bytes.

use crate::escrow::{byte_len, Escrow, MAX_DESCRIPTION_LEN};
use crate::pubkey::Pubkey;
use crate::state::EscrowState;
use vstd::bytes::{
    spec_u32_from_le_bytes, spec_u32_to_le_bytes, spec_u64_from_le_bytes, spec_u64_to_le_bytes,
    u32_from_le_bytes, u32_to_le_bytes, u64_from_le_bytes, u64_to_le_bytes,
};
use vstd::prelude::*;
use vstd::utf8::{decode_utf8, encode_utf8, valid_utf8};

verus! {

/// The byte that stands for a state.
pub open spec fn state_tag(state: EscrowState) -> u8 {
    match state {
        EscrowState::Created => 0,
        EscrowState::Accepted => 1,
        EscrowState::Completed => 2,
        EscrowState::Cancelled => 3,
        EscrowState::TimedOut => 4,
    }
}

/// A timestamp as an unsigned number: itself, or in two's complement where it
/// is negative.
pub open spec fn unsigned(timestamp: i64) -> u64 {
    if timestamp >= 0 {
        timestamp as u64
    } else {
        (timestamp + 0x1_0000_0000_0000_0000) as u64
    }
}

/// The eight bytes of a timestamp.
pub open spec fn timestamp_image(timestamp: i64) -> Seq<u8> {
    spec_u64_to_le_bytes(unsigned(timestamp))
}

/// The stored form of the description: its length in bytes, and its text.
pub open spec fn text_image(text: Seq<char>) -> Seq<u8> {
    spec_u32_to_le_bytes(byte_len(text) as u32) + encode_utf8(text)
}

/// The stored form of what precedes the description: 145 bytes.
pub open spec fn head_image(record: Escrow) -> Seq<u8> {
    record.buyer@ + record.seller@ + record.mint@ + spec_u64_to_le_bytes(record.amount)
        + seq![state_tag(record.state)] + timestamp_image(record.created_at) + timestamp_image(
        record.accepted_at,
    ) + timestamp_image(record.completed_at) + timestamp_image(record.cancelled_at)
        + timestamp_image(record.timeout_at)
}

/// The stored form of a record.
pub open spec fn image(record: Escrow) -> Seq<u8> {
    head_image(record) + text_image(record.description@) + seq![record.bump]
}

/// The byte that stands for a state.
pub fn tag_of(state: EscrowState) -> (r: u8)
    ensures
        r == state_tag(state),
{
    match state {
        EscrowState::Created => 0,
        EscrowState::Accepted => 1,
        EscrowState::Completed => 2,
        EscrowState::Cancelled => 3,
        EscrowState::TimedOut => 4,
    }
}

/// The state that a byte stands for, if it stands for one.
pub fn state_of(tag: u8) -> (r: Option<EscrowState>)
    ensures
        r is Some <==> tag <= 4,
        r matches Some(state) ==> state_tag(state) == tag,
{
    match tag {
        0 => Some(EscrowState::Created),
        1 => Some(EscrowState::Accepted),
        2 => Some(EscrowState::Completed),
        3 => Some(EscrowState::Cancelled),
        4 => Some(EscrowState::TimedOut),
        _ => None,
    }
}

fn to_unsigned(timestamp: i64) -> (r: u64)
    ensures
        r == unsigned(timestamp),
{
    if timestamp >= 0 {
        timestamp as u64
    } else {
        (timestamp as i128 + 0x1_0000_0000_0000_0000i128) as u64
    }
}

fn to_signed(number: u64) -> (r: i64)
    ensures
        unsigned(r) == number,
{
    if number <= 0x7fff_ffff_ffff_ffffu64 {
        number as i64
    } else {
        (number as i128 - 0x1_0000_0000_0000_0000i128) as i64
    }
}

fn put(out: &mut Vec<u8>, bytes: &[u8])
    ensures
        final(out)@ == old(out)@ + bytes@,
{
    let ghost before = out@;
    let mut i: usize = 0;
    while i < bytes.len()
        invariant
            i <= bytes@.len(),
            out@ == before + bytes@.subrange(0, i as int),
        decreases bytes@.len() - i,
    {
        out.push(bytes[i]);
        i += 1;
        assert(out@ =~= before + bytes@.subrange(0, i as int));
    }
    assert(bytes@.subrange(0, i as int) =~= bytes@);
}

fn put_key(out: &mut Vec<u8>, key: &Pubkey)
    ensures
        final(out)@ == old(out)@ + key@,
{
    let ghost before = out@;
    let mut i: usize = 0;
    while i < 32
        invariant
            i <= 32,
            out@ == before + key@.subrange(0, i as int),
        decreases 32 - i,
    {
        out.push(key.bytes[i]);
        i += 1;
        assert(out@ =~= before + key@.subrange(0, i as int));
    }
    assert(key@.subrange(0, 32) =~= key@);
}

fn put_timestamp(out: &mut Vec<u8>, timestamp: i64)
    ensures
        final(out)@ == old(out)@ + timestamp_image(timestamp),
{
    let bytes = u64_to_le_bytes(to_unsigned(timestamp));
    put(out, bytes.as_slice());
}

/// The stored form of a record whose description fits its bound.
pub fn encode(record: &Escrow) -> (r: Vec<u8>)
    requires
        byte_len(record.description@) <= MAX_DESCRIPTION_LEN,
    ensures
        r@ == image(*record),
        r@.len() == record.stored_len(),
        r@.len() <= Escrow::LEN,
{
    let mut out: Vec<u8> = Vec::new();
    put_key(&mut out, &record.buyer);
    put_key(&mut out, &record.seller);
    put_key(&mut out, &record.mint);
    let amount = u64_to_le_bytes(record.amount);
    put(&mut out, amount.as_slice());
    out.push(tag_of(record.state));
    put_timestamp(&mut out, record.created_at);
    put_timestamp(&mut out, record.accepted_at);
    put_timestamp(&mut out, record.completed_at);
    put_timestamp(&mut out, record.cancelled_at);
    put_timestamp(&mut out, record.timeout_at);
    assert(out@ =~= head_image(*record));
    let text = record.description.as_str().as_bytes();
    let length = u32_to_le_bytes(text.len() as u32);
    put(&mut out, length.as_slice());
    put(&mut out, text);
    out.push(record.bump);
    assert(out@ =~= image(*record));
    proof {
        lemma_image_len(*record);
    }
    out
}

/// Whether the bytes begin with the stored form of a record: they are long
/// enough, the byte of the state stands for a state, the description has no
/// more bytes than it may and all of them are there, and they are UTF-8.
pub open spec fn encoded_at_front(bytes: Seq<u8>) -> bool {
    &&& bytes.len() >= 150
    &&& bytes[104] <= 4
    &&& ({
        let n = spec_u32_from_le_bytes(bytes.subrange(145, 149));
        &&& n <= MAX_DESCRIPTION_LEN
        &&& bytes.len() >= 150 + n
        &&& valid_utf8(bytes.subrange(149, 149 + n))
    })
}

/// Calls `String::from_utf8` of the standard library, which makes a string of
/// the bytes as they are if they are UTF-8, and fails if they are not.
#[verifier::external_body]
fn text_of(bytes: Vec<u8>) -> (r: Option<String>)
    ensures
        r is Some <==> valid_utf8(bytes@),
        r matches Some(text) ==> encode_utf8(text@) == bytes@,
{
    match String::from_utf8(bytes) {
        Ok(text) => Some(text),
        Err(_) => None,
    }
}

fn take(bytes: &[u8], from: usize, len: usize) -> (r: Vec<u8>)
    requires
        from + len <= bytes@.len(),
    ensures
        r@ == bytes@.subrange(from as int, from + len),
{
    let total = bytes.len();
    let mut out: Vec<u8> = Vec::new();
    let mut i: usize = 0;
    while i < len
        invariant
            total == bytes@.len(),
            from + len <= total,
            i <= len,
            out@ == bytes@.subrange(from as int, from + i),
        decreases len - i,
    {
        out.push(bytes[from + i]);
        i += 1;
        assert(out@ =~= bytes@.subrange(from as int, from + i));
    }
    out
}

fn take_key(bytes: &[u8], from: usize) -> (r: Pubkey)
    requires
        from + 32 <= bytes@.len(),
    ensures
        r@ == bytes@.subrange(from as int, from + 32),
{
    let total = bytes.len();
    let mut key = [0u8;32];
    let mut i: usize = 0;
    while i < 32
        invariant
            total == bytes@.len(),
            from + 32 <= total,
            i <= 32,
            forall|j: int| 0 <= j < i ==> key[j] == bytes@[from + j],
        decreases 32 - i,
    {
        key[i] = bytes[from + i];
        i += 1;
    }
    let r = Pubkey { bytes: key };
    assert(r@ =~= bytes@.subrange(from as int, from + 32));
    r
}

fn take_number(bytes: &[u8], from: usize) -> (r: u64)
    requires
        from + 8 <= bytes@.len(),
    ensures
        spec_u64_to_le_bytes(r) == bytes@.subrange(from as int, from + 8),
{
    let part = take(bytes, from, 8);
    proof {
        vstd::bytes::lemma_auto_spec_u64_to_from_le_bytes();
    }
    u64_from_le_bytes(part.as_slice())
}

fn take_timestamp(bytes: &[u8], from: usize) -> (r: i64)
    requires
        from + 8 <= bytes@.len(),
    ensures
        timestamp_image(r) == bytes@.subrange(from as int, from + 8),
{
    to_signed(take_number(bytes, from))
}

/// Reads the record whose stored form the bytes begin with. What follows the
/// record is not looked at. `None` where the bytes do not begin with the
/// stored form of any record.
pub fn decode(bytes: &[u8]) -> (r: Option<Escrow>)
    ensures
        r is Some <==> encoded_at_front(bytes@),
        r matches Some(record) ==> byte_len(record.description@) <= MAX_DESCRIPTION_LEN
            && record.stored_len() <= bytes@.len() && image(record) == bytes@.subrange(
            0,
            record.stored_len() as int,
        ),
{
    if bytes.len() < 150 {
        return None;
    }
    let state = match state_of(bytes[104]) {
        Some(state) => state,
        None => { return None; },
    };
    let length = take(bytes, 145, 4);
    proof {
        vstd::bytes::lemma_auto_spec_u32_to_from_le_bytes();
    }
    let n = u32_from_le_bytes(length.as_slice());
    if n > 200 {
        return None;
    }
    let n = n as usize;
    if bytes.len() < 150 + n {
        return None;
    }
    let description = match text_of(take(bytes, 149, n)) {
        Some(text) => text,
        None => { return None; },
    };
    let record = Escrow {
        buyer: take_key(bytes, 0),
        seller: take_key(bytes, 32),
        mint: take_key(bytes, 64),
        amount: take_number(bytes, 96),
        state,
        created_at: take_timestamp(bytes, 105),
        accepted_at: take_timestamp(bytes, 113),
        completed_at: take_timestamp(bytes, 121),
        cancelled_at: take_timestamp(bytes, 129),
        timeout_at: take_timestamp(bytes, 137),
        description,
        bump: bytes[149 + n],
    };
    proof {
        lemma_image_len(record);
        assert(head_image(record) =~= bytes@.subrange(0, 145));
        assert(text_image(record.description@) =~= bytes@.subrange(145, 149 + n));
        assert(image(record) =~= bytes@.subrange(0, 150 + n));
    }
    Some(record)
}

/// The stored form of a record is as long as `stored_len` says: 150 bytes
/// and the text of the description.
pub proof fn lemma_image_len(record: Escrow)
    ensures
        head_image(record).len() == 145,
        image(record).len() == record.stored_len(),
{
    vstd::bytes::lemma_auto_spec_u64_to_from_le_bytes();
    vstd::bytes::lemma_auto_spec_u32_to_from_le_bytes();
}

/// Whether two records say the same: every field of the one is that of the
/// other, the descriptions as texts.
pub open spec fn same_record(a: Escrow, b: Escrow) -> bool {
    &&& a.buyer == b.buyer
    &&& a.seller == b.seller
    &&& a.mint == b.mint
    &&& a.amount == b.amount
    &&& a.state == b.state
    &&& a.created_at == b.created_at
    &&& a.accepted_at == b.accepted_at
    &&& a.completed_at == b.completed_at
    &&& a.cancelled_at == b.cancelled_at
    &&& a.timeout_at == b.timeout_at
    &&& a.description@ == b.description@
    &&& a.bump == b.bump
}

proof fn lemma_same_key(a: Pubkey, b: Pubkey)
    requires
        a@ == b@,
    ensures
        a == b,
{
    assert forall|i: int| 0 <= i < 32 implies a.bytes[i] == b.bytes[i] by {
        assert(a@[i] == b@[i]);
    }
    assert(a.bytes =~= b.bytes);
}

proof fn lemma_same_timestamp(a: i64, b: i64)
    requires
        timestamp_image(a) == timestamp_image(b),
    ensures
        a == b,
{
    vstd::bytes::lemma_auto_spec_u64_to_from_le_bytes();
    assert(spec_u64_from_le_bytes(spec_u64_to_le_bytes(unsigned(a))) == unsigned(a));
    assert(spec_u64_from_le_bytes(spec_u64_to_le_bytes(unsigned(b))) == unsigned(b));
}

/// The parts of a stored form, by their places.
proof fn lemma_image_parts(record: Escrow)
    requires
        byte_len(record.description@) <= MAX_DESCRIPTION_LEN,
    ensures
        image(record).len() == 150 + byte_len(record.description@),
        image(record).subrange(0, 32) == record.buyer@,
        image(record).subrange(32, 64) == record.seller@,
        image(record).subrange(64, 96) == record.mint@,
        image(record).subrange(96, 104) == spec_u64_to_le_bytes(record.amount),
        image(record)[104] == state_tag(record.state),
        image(record).subrange(105, 113) == timestamp_image(record.created_at),
        image(record).subrange(113, 121) == timestamp_image(record.accepted_at),
        image(record).subrange(121, 129) == timestamp_image(record.completed_at),
        image(record).subrange(129, 137) == timestamp_image(record.cancelled_at),
        image(record).subrange(137, 145) == timestamp_image(record.timeout_at),
        image(record).subrange(145, 149) == spec_u32_to_le_bytes(
            byte_len(record.description@) as u32,
        ),
        image(record).subrange(149, 149 + byte_len(record.description@) as int) == encode_utf8(
            record.description@,
        ),
        image(record)[149 + byte_len(record.description@) as int] == record.bump,
{
    vstd::bytes::lemma_auto_spec_u64_to_from_le_bytes();
    vstd::bytes::lemma_auto_spec_u32_to_from_le_bytes();
    let whole = image(record);
    let n = byte_len(record.description@) as int;
    assert(whole.subrange(0, 32) =~= record.buyer@);
    assert(whole.subrange(32, 64) =~= record.seller@);
    assert(whole.subrange(64, 96) =~= record.mint@);
    assert(whole.subrange(96, 104) =~= spec_u64_to_le_bytes(record.amount));
    assert(whole.subrange(105, 113) =~= timestamp_image(record.created_at));
    assert(whole.subrange(113, 121) =~= timestamp_image(record.accepted_at));
    assert(whole.subrange(121, 129) =~= timestamp_image(record.completed_at));
    assert(whole.subrange(129, 137) =~= timestamp_image(record.cancelled_at));
    assert(whole.subrange(137, 145) =~= timestamp_image(record.timeout_at));
    assert(whole.subrange(145, 149) =~= spec_u32_to_le_bytes(n as u32));
    assert(whole.subrange(149, 149 + n) =~= encode_utf8(record.description@));
}

/// `decode` finds a record in the stored form of every record whose
/// description fits its bound, whatever follows the stored form.
pub proof fn law_stored_form_is_read(record: Escrow, rest: Seq<u8>)
    requires
        byte_len(record.description@) <= MAX_DESCRIPTION_LEN,
    ensures
        encoded_at_front(image(record) + rest),
{
    broadcast use vstd::utf8::encode_utf8_valid_utf8;

    vstd::bytes::lemma_auto_spec_u32_to_from_le_bytes();
    let bytes = image(record) + rest;
    let a = image(record);
    let n = byte_len(record.description@) as int;
    lemma_image_parts(record);
    assert(bytes[104] == a[104]);
    assert(bytes.subrange(145, 149) =~= a.subrange(145, 149));
    assert(spec_u32_from_le_bytes(spec_u32_to_le_bytes(n as u32)) == n as u32);
    assert(bytes.subrange(149, 149 + n) =~= a.subrange(149, 149 + n));
}

/// What stands at the front of some bytes is one record only: if the bytes
/// begin with the stored form of `record`, then every record whose stored
/// form they begin with says the same as `record`. So what `decode` reads
/// from what `encode` wrote is what was written.
pub proof fn law_decode_inverts_encode(record: Escrow, rest: Seq<u8>, found: Escrow)
    requires
        byte_len(record.description@) <= MAX_DESCRIPTION_LEN,
        byte_len(found.description@) <= MAX_DESCRIPTION_LEN,
        found.stored_len() <= (image(record) + rest).len(),
        image(found) == (image(record) + rest).subrange(0, found.stored_len() as int),
    ensures
        same_record(found, record),
{
    broadcast use vstd::utf8::encode_utf8_decode_utf8;

    vstd::bytes::lemma_auto_spec_u64_to_from_le_bytes();
    vstd::bytes::lemma_auto_spec_u32_to_from_le_bytes();
    let bytes = image(record) + rest;
    let a = image(record);
    let b = image(found);
    let n = byte_len(record.description@) as int;
    let m = byte_len(found.description@) as int;
    lemma_image_parts(record);
    lemma_image_parts(found);
    lemma_image_len(record);
    lemma_image_len(found);
    assert(bytes.subrange(0, 150 + n) =~= a);
    assert(bytes.subrange(0, 32) =~= a.subrange(0, 32));
    assert(bytes.subrange(0, 32) =~= b.subrange(0, 32));
    assert(bytes.subrange(32, 64) =~= a.subrange(32, 64));
    assert(bytes.subrange(32, 64) =~= b.subrange(32, 64));
    assert(bytes.subrange(64, 96) =~= a.subrange(64, 96));
    assert(bytes.subrange(64, 96) =~= b.subrange(64, 96));
    assert(bytes.subrange(96, 104) =~= a.subrange(96, 104));
    assert(bytes.subrange(96, 104) =~= b.subrange(96, 104));
    assert(bytes[104] == a[104] && bytes[104] == b[104]);
    assert(bytes.subrange(105, 113) =~= a.subrange(105, 113));
    assert(bytes.subrange(105, 113) =~= b.subrange(105, 113));
    assert(bytes.subrange(113, 121) =~= a.subrange(113, 121));
    assert(bytes.subrange(113, 121) =~= b.subrange(113, 121));
    assert(bytes.subrange(121, 129) =~= a.subrange(121, 129));
    assert(bytes.subrange(121, 129) =~= b.subrange(121, 129));
    assert(bytes.subrange(129, 137) =~= a.subrange(129, 137));
    assert(bytes.subrange(129, 137) =~= b.subrange(129, 137));
    assert(bytes.subrange(137, 145) =~= a.subrange(137, 145));
    assert(bytes.subrange(137, 145) =~= b.subrange(137, 145));
    assert(bytes.subrange(145, 149) =~= a.subrange(145, 149));
    assert(bytes.subrange(145, 149) =~= b.subrange(145, 149));
    lemma_same_key(found.buyer, record.buyer);
    lemma_same_key(found.seller, record.seller);
    lemma_same_key(found.mint, record.mint);
    assert(spec_u64_from_le_bytes(spec_u64_to_le_bytes(found.amount)) == found.amount);
    assert(spec_u64_from_le_bytes(spec_u64_to_le_bytes(record.amount)) == record.amount);
    lemma_same_timestamp(found.created_at, record.created_at);
    lemma_same_timestamp(found.accepted_at, record.accepted_at);
    lemma_same_timestamp(found.completed_at, record.completed_at);
    lemma_same_timestamp(found.cancelled_at, record.cancelled_at);
    lemma_same_timestamp(found.timeout_at, record.timeout_at);
    assert(spec_u32_from_le_bytes(spec_u32_to_le_bytes(n as u32)) == n as u32);
    assert(spec_u32_from_le_bytes(spec_u32_to_le_bytes(m as u32)) == m as u32);
    assert(n == m);
    assert(bytes.subrange(149, 149 + n) =~= a.subrange(149, 149 + n));
    assert(bytes.subrange(149, 149 + n) =~= b.subrange(149, 149 + n));
    assert(decode_utf8(encode_utf8(found.description@)) == found.description@);
    assert(decode_utf8(encode_utf8(record.description@)) == record.description@);
    assert(bytes[149 + n] == a[149 + n] && bytes[149 + n] == b[149 + n]);
}

} // verus!
