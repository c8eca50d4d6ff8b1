//! The persisted record layout: exact bytes and round trips.

use mvga_escrow::codec::{decode_record, encode_record, RECORD_BYTES};
use mvga_escrow::state::{EscrowState, EscrowStatus};

fn sample_record() -> EscrowState {
    EscrowState {
        trade_id: [9; 16],
        seller: [1; 32],
        buyer: [2; 32],
        admin: [3; 32],
        mint: [4; 32],
        amount: 1000,
        status: EscrowStatus::Disputed,
        locked_at: -1,
        timeout_seconds: 7200,
        bump: 254,
    }
}

#[test]
fn encode_layout_exact_bytes() {
    let bytes = encode_record(&sample_record());
    assert_eq!(bytes.len(), RECORD_BYTES);
    // 16-byte trade id, then seller, buyer, admin, mint at 32 bytes each.
    assert_eq!(&bytes[0..16], &[9u8; 16]);
    assert_eq!(&bytes[16..48], &[1u8; 32]);
    assert_eq!(&bytes[48..80], &[2u8; 32]);
    assert_eq!(&bytes[80..112], &[3u8; 32]);
    assert_eq!(&bytes[112..144], &[4u8; 32]);
    // Amount 1000 = 0x03E8, little endian.
    assert_eq!(&bytes[144..152], &[0xE8, 0x03, 0, 0, 0, 0, 0, 0]);
    // Status tag: Disputed is the fifth variant.
    assert_eq!(bytes[152], 4);
    // locked_at of -1 is all ones in two's complement.
    assert_eq!(&bytes[153..161], &[0xFF; 8]);
    // Timeout 7200 = 0x1C20, little endian.
    assert_eq!(&bytes[161..169], &[0x20, 0x1C, 0, 0, 0, 0, 0, 0]);
    assert_eq!(bytes[169], 254);
}

#[test]
fn encode_status_tags_follow_declaration_order() {
    let statuses = [
        (EscrowStatus::Locked, 0u8),
        (EscrowStatus::PaymentSent, 1u8),
        (EscrowStatus::Released, 2u8),
        (EscrowStatus::Refunded, 3u8),
        (EscrowStatus::Disputed, 4u8),
    ];
    for (status, tag) in statuses {
        let mut record = sample_record();
        record.status = status;
        let bytes = encode_record(&record);
        assert_eq!(bytes[152], tag);
    }
}

#[test]
fn encode_decode_round_trip() {
    let record = sample_record();
    let bytes = encode_record(&record);
    let decoded = decode_record(&bytes).expect("an encoded record must decode");
    assert_eq!(decoded, record);
}

#[test]
fn round_trip_extreme_timestamps() {
    for locked_at in [i64::MIN, -7200, 0, 7200, i64::MAX] {
        let mut record = sample_record();
        record.locked_at = locked_at;
        let bytes = encode_record(&record);
        let decoded = decode_record(&bytes).expect("an encoded record must decode");
        assert_eq!(decoded, record);
    }
}

#[test]
fn decode_rejects_wrong_length() {
    let record = sample_record();
    let mut bytes = encode_record(&record);
    bytes.push(0);
    assert_eq!(decode_record(&bytes), None);
    assert_eq!(decode_record(&bytes[0..RECORD_BYTES - 1]), None);
    assert_eq!(decode_record(&[]), None);
}

#[test]
fn decode_rejects_unknown_status_tag() {
    let record = sample_record();
    let mut bytes = encode_record(&record);
    bytes[152] = 5;
    assert_eq!(decode_record(&bytes), None);
    bytes[152] = 255;
    assert_eq!(decode_record(&bytes), None);
}
