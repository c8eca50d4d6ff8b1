//! The fixed-width persisted layout of an escrow record.
//!
//! A record is stored as 170 bytes, order-stable: the 16-byte trade id, the
//! three 32-byte party identities (seller, buyer, admin), the 32-byte asset
//! identifier, the amount as 8 little-endian bytes, a 1-byte status tag
//! (5 values), the signed creation timestamp as 8 little-endian bytes of its
//! two's-complement image, the timeout as 8 little-endian bytes, and the
//! 1-byte derivation value.  [`encodes`] is the layout's definition;
//! encoding and decoding are verified against it, and the lemmas below show
//! the layout pins the bytes given the record and the record given the
//! bytes.

use vstd::prelude::*;
use vstd::array::array_as_slice;
use vstd::bytes::{
    lemma_auto_spec_u64_to_from_le_bytes, spec_u64_to_le_bytes, u64_from_le_bytes, u64_to_le_bytes,
};
use vstd::slice::{slice_subrange, slice_to_vec};
use crate::state::{EscrowState, EscrowStatus};

verus! {

broadcast use vstd::array::group_array_axioms, vstd::slice::axiom_spec_len;

/// The exact size of an encoded record.
pub const RECORD_BYTES: usize = 170;

/// The byte tag a status is stored under, in declaration order.
pub open spec fn spec_status_tag(s: EscrowStatus) -> u8 {
    match s {
        EscrowStatus::Locked => 0u8,
        EscrowStatus::PaymentSent => 1u8,
        EscrowStatus::Released => 2u8,
        EscrowStatus::Refunded => 3u8,
        EscrowStatus::Disputed => 4u8,
    }
}

/// `b` is the persisted image of the record `s`.
pub open spec fn encodes(s: EscrowState, b: Seq<u8>) -> bool {
    &&& b.len() == RECORD_BYTES
    &&& b.subrange(0, 16) == s.trade_id@
    &&& b.subrange(16, 48) == s.seller@
    &&& b.subrange(48, 80) == s.buyer@
    &&& b.subrange(80, 112) == s.admin@
    &&& b.subrange(112, 144) == s.mint@
    &&& b.subrange(144, 152) == spec_u64_to_le_bytes(s.amount)
    &&& b[152] == spec_status_tag(s.status)
    &&& b.subrange(153, 161) == spec_u64_to_le_bytes(s.locked_at as u64)
    &&& b.subrange(161, 169) == spec_u64_to_le_bytes(s.timeout_seconds)
    &&& b[169] == s.bump
}

/// Serializes a record into its 170-byte persisted image.
pub fn encode_record(s: &EscrowState) -> (r: Vec<u8>)
    ensures
        encodes(*s, r@),
        r@.len() == RECORD_BYTES,
{
    let mut out: Vec<u8> = Vec::new();
    let mut piece: Vec<u8> = slice_to_vec(array_as_slice(&s.trade_id));
    out.append(&mut piece);
    let mut piece: Vec<u8> = slice_to_vec(array_as_slice(&s.seller));
    out.append(&mut piece);
    let mut piece: Vec<u8> = slice_to_vec(array_as_slice(&s.buyer));
    out.append(&mut piece);
    let mut piece: Vec<u8> = slice_to_vec(array_as_slice(&s.admin));
    out.append(&mut piece);
    let mut piece: Vec<u8> = slice_to_vec(array_as_slice(&s.mint));
    out.append(&mut piece);
    let mut piece: Vec<u8> = u64_to_le_bytes(s.amount);
    out.append(&mut piece);
    let tag: u8 = match s.status {
        EscrowStatus::Locked => 0u8,
        EscrowStatus::PaymentSent => 1u8,
        EscrowStatus::Released => 2u8,
        EscrowStatus::Refunded => 3u8,
        EscrowStatus::Disputed => 4u8,
    };
    out.push(tag);
    let locked_bits: u64 = #[verifier::truncate] (s.locked_at as u64);
    let mut piece: Vec<u8> = u64_to_le_bytes(locked_bits);
    out.append(&mut piece);
    let mut piece: Vec<u8> = u64_to_le_bytes(s.timeout_seconds);
    out.append(&mut piece);
    out.push(s.bump);
    proof {
        assert(out@.len() == RECORD_BYTES);
        assert(out@.subrange(0, 16) =~= s.trade_id@);
        assert(out@.subrange(16, 48) =~= s.seller@);
        assert(out@.subrange(48, 80) =~= s.buyer@);
        assert(out@.subrange(80, 112) =~= s.admin@);
        assert(out@.subrange(112, 144) =~= s.mint@);
        assert(out@.subrange(144, 152) =~= spec_u64_to_le_bytes(s.amount));
        assert(out@.subrange(153, 161) =~= spec_u64_to_le_bytes(s.locked_at as u64));
        assert(out@.subrange(161, 169) =~= spec_u64_to_le_bytes(s.timeout_seconds));
    }
    out
}

/// Copies 16 bytes out of the image, starting at `off`.
fn read_bytes16(bytes: &[u8], off: usize) -> (r: [u8; 16])
    requires
        off + 16 <= bytes@.len(),
    ensures
        r@ == bytes@.subrange(off as int, off as int + 16),
{
    let n: usize = bytes.len();
    let mut r: [u8; 16] = [0u8; 16];
    let mut i: usize = 0;
    while i < 16
        invariant
            0 <= i <= 16,
            off + 16 <= n == bytes@.len(),
            forall|j: int| 0 <= j < i ==> r@[j] == bytes@[off + j],
        decreases 16 - i,
    {
        r[i] = bytes[off + i];
        i += 1;
    }
    assert(r@ =~= bytes@.subrange(off as int, off as int + 16));
    r
}

/// Copies 32 bytes out of the image, starting at `off`.
fn read_bytes32(bytes: &[u8], off: usize) -> (r: [u8; 32])
    requires
        off + 32 <= bytes@.len(),
    ensures
        r@ == bytes@.subrange(off as int, off as int + 32),
{
    let n: usize = bytes.len();
    let mut r: [u8; 32] = [0u8; 32];
    let mut i: usize = 0;
    while i < 32
        invariant
            0 <= i <= 32,
            off + 32 <= n == bytes@.len(),
            forall|j: int| 0 <= j < i ==> r@[j] == bytes@[off + j],
        decreases 32 - i,
    {
        r[i] = bytes[off + i];
        i += 1;
    }
    assert(r@ =~= bytes@.subrange(off as int, off as int + 32));
    r
}

/// Every status is stored under a tag of at most 4.
proof fn lemma_status_tag_bound(st: EscrowStatus)
    ensures
        spec_status_tag(st) <= 4,
{
}

/// Distinct statuses are stored under distinct tags.
proof fn lemma_status_tag_injective(a: EscrowStatus, b: EscrowStatus)
    requires
        spec_status_tag(a) == spec_status_tag(b),
    ensures
        a == b,
{
}

/// The two's-complement image determines the timestamp.
proof fn lemma_i64_bits_injective(x: i64, y: i64)
    requires
        x as u64 == y as u64,
    ensures
        x == y,
{
    assert(x as u64 == y as u64 ==> x == y) by (bit_vector);
}

/// Deserializes a persisted image.  Returns the unique record the bytes
/// encode, or `None` exactly when no record at all has this image (wrong
/// length, or a status tag outside the five known values).
pub fn decode_record(bytes: &[u8]) -> (r: Option<EscrowState>)
    ensures
        (match r {
            Some(s) => encodes(s, bytes@),
            None => forall|s: EscrowState| !encodes(s, bytes@),
        }),
{
    let n: usize = bytes.len();
    if n != RECORD_BYTES {
        return None;
    }
    let tag: u8 = bytes[152];
    if tag > 4 {
        proof {
            assert forall|s: EscrowState| !encodes(s, bytes@) by {
                lemma_status_tag_bound(s.status);
            }
        }
        return None;
    }
    let status: EscrowStatus = if tag == 0 {
        EscrowStatus::Locked
    } else if tag == 1 {
        EscrowStatus::PaymentSent
    } else if tag == 2 {
        EscrowStatus::Released
    } else if tag == 3 {
        EscrowStatus::Refunded
    } else {
        EscrowStatus::Disputed
    };
    let trade_id = read_bytes16(bytes, 0);
    let seller = read_bytes32(bytes, 16);
    let buyer = read_bytes32(bytes, 48);
    let admin = read_bytes32(bytes, 80);
    let mint = read_bytes32(bytes, 112);
    let amount = u64_from_le_bytes(slice_subrange(bytes, 144, 152));
    let locked_bits = u64_from_le_bytes(slice_subrange(bytes, 153, 161));
    let locked_at: i64 = #[verifier::truncate] (locked_bits as i64);
    let timeout_seconds = u64_from_le_bytes(slice_subrange(bytes, 161, 169));
    let bump: u8 = bytes[169];
    let s = EscrowState {
        trade_id,
        seller,
        buyer,
        admin,
        mint,
        amount,
        status,
        locked_at,
        timeout_seconds,
        bump,
    };
    proof {
        lemma_auto_spec_u64_to_from_le_bytes();
        assert((locked_bits as i64) as u64 == locked_bits) by (bit_vector);
    }
    Some(s)
}

/// The image determines the record: two records with the same persisted
/// bytes are the same record.
pub proof fn lemma_encoding_injective(s1: EscrowState, s2: EscrowState, b: Seq<u8>)
    requires
        encodes(s1, b),
        encodes(s2, b),
    ensures
        s1 == s2,
{
    lemma_auto_spec_u64_to_from_le_bytes();
    assert(s1.trade_id =~= s2.trade_id);
    assert(s1.seller =~= s2.seller);
    assert(s1.buyer =~= s2.buyer);
    assert(s1.admin =~= s2.admin);
    assert(s1.mint =~= s2.mint);
    lemma_status_tag_injective(s1.status, s2.status);
    lemma_i64_bits_injective(s1.locked_at, s2.locked_at);
}

/// The record determines the image: the layout leaves no byte free, so a
/// record has exactly one persisted image.
pub proof fn lemma_encoding_deterministic(s: EscrowState, b1: Seq<u8>, b2: Seq<u8>)
    requires
        encodes(s, b1),
        encodes(s, b2),
    ensures
        b1 == b2,
{
    assert forall|i: int| 0 <= i < 170 implies b1[i] == b2[i] by {
        if i < 16 {
            assert(b1.subrange(0, 16)[i] == b1[i]);
            assert(b2.subrange(0, 16)[i] == b2[i]);
        } else if i < 48 {
            assert(b1.subrange(16, 48)[i - 16] == b1[i]);
            assert(b2.subrange(16, 48)[i - 16] == b2[i]);
        } else if i < 80 {
            assert(b1.subrange(48, 80)[i - 48] == b1[i]);
            assert(b2.subrange(48, 80)[i - 48] == b2[i]);
        } else if i < 112 {
            assert(b1.subrange(80, 112)[i - 80] == b1[i]);
            assert(b2.subrange(80, 112)[i - 80] == b2[i]);
        } else if i < 144 {
            assert(b1.subrange(112, 144)[i - 112] == b1[i]);
            assert(b2.subrange(112, 144)[i - 112] == b2[i]);
        } else if i < 152 {
            assert(b1.subrange(144, 152)[i - 144] == b1[i]);
            assert(b2.subrange(144, 152)[i - 144] == b2[i]);
        } else if i == 152 {
        } else if i < 161 {
            assert(b1.subrange(153, 161)[i - 153] == b1[i]);
            assert(b2.subrange(153, 161)[i - 153] == b2[i]);
        } else if i < 169 {
            assert(b1.subrange(161, 169)[i - 161] == b1[i]);
            assert(b2.subrange(161, 169)[i - 161] == b2[i]);
        } else {
        }
    }
    assert(b1 =~= b2);
}

} // verus!
