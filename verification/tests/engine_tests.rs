//! Creation and payment-marking behaviour of the escrow engine.

use mvga_escrow::engine::{handle_initialize, handle_mark_paid};
use mvga_escrow::errors::EscrowError;
use mvga_escrow::state::{EscrowState, EscrowStatus, MAX_TIMEOUT_SECONDS};
use mvga_escrow::vault::Vault;

fn key(n: u8) -> [u8; 32] {
    [n; 32]
}

fn trade(n: u8) -> [u8; 16] {
    [n; 16]
}

fn fresh_escrow(amount: u64, timeout: u64, now: i64) -> (EscrowState, Vault) {
    let r = handle_initialize(
        trade(9),
        key(1),
        key(2),
        key(3),
        key(4),
        amount,
        timeout,
        now,
        255,
    );
    let (record, vault, _event) = r.expect("valid inputs must initialize");
    (record, vault)
}

#[test]
fn initialize_locks_and_funds_vault() {
    let r = handle_initialize(
        trade(9),
        key(1),
        key(2),
        key(3),
        key(4),
        1000,
        7200,
        50,
        255,
    );
    let (record, vault, event) = r.expect("valid inputs must initialize");
    assert_eq!(record.status, EscrowStatus::Locked);
    assert_eq!(record.trade_id, trade(9));
    assert_eq!(record.seller, key(1));
    assert_eq!(record.buyer, key(2));
    assert_eq!(record.admin, key(3));
    assert_eq!(record.mint, key(4));
    assert_eq!(record.amount, 1000);
    assert_eq!(record.locked_at, 50);
    assert_eq!(record.timeout_seconds, 7200);
    assert_eq!(record.bump, 255);
    assert!(vault.is_open);
    assert_eq!(vault.balance, 1000);
    assert_eq!(vault.authority_trade_id, trade(9));
    assert_eq!(vault.authority_seller, key(1));
    assert_eq!(event.amount, 1000);
    assert_eq!(event.timeout_seconds, 7200);
}

#[test]
fn initialize_rejects_zero_amount() {
    let r = handle_initialize(trade(9), key(1), key(2), key(3), key(4), 0, 7200, 50, 255);
    assert_eq!(r.err(), Some(EscrowError::ZeroAmount));
}

#[test]
fn initialize_rejects_zero_timeout() {
    let r = handle_initialize(trade(9), key(1), key(2), key(3), key(4), 1000, 0, 50, 255);
    assert_eq!(r.err(), Some(EscrowError::ZeroTimeout));
}

#[test]
fn initialize_rejects_timeout_over_cap() {
    let r = handle_initialize(
        trade(9),
        key(1),
        key(2),
        key(3),
        key(4),
        1000,
        MAX_TIMEOUT_SECONDS + 1,
        50,
        255,
    );
    assert_eq!(r.err(), Some(EscrowError::TimeoutTooLong));
}

#[test]
fn initialize_accepts_timeout_at_cap() {
    let r = handle_initialize(
        trade(9),
        key(1),
        key(2),
        key(3),
        key(4),
        1,
        MAX_TIMEOUT_SECONDS,
        50,
        255,
    );
    assert!(r.is_ok());
}

#[test]
fn mark_paid_moves_to_payment_sent() {
    let (mut record, vault) = fresh_escrow(1000, 7200, 50);
    let buyer = key(2);
    let event = handle_mark_paid(&mut record, &buyer).expect("buyer may mark payment");
    assert_eq!(record.status, EscrowStatus::PaymentSent);
    assert_eq!(event.trade_id, trade(9));
    assert_eq!(event.buyer, buyer);
    // No value moved.
    assert!(vault.is_open);
    assert_eq!(vault.balance, 1000);
}

#[test]
fn mark_paid_rejects_non_buyer() {
    let (mut record, _vault) = fresh_escrow(1000, 7200, 50);
    let seller = key(1);
    let stranger = key(7);
    assert_eq!(
        handle_mark_paid(&mut record, &seller),
        Err(EscrowError::UnauthorizedBuyer)
    );
    assert_eq!(
        handle_mark_paid(&mut record, &stranger),
        Err(EscrowError::UnauthorizedBuyer)
    );
    assert_eq!(record.status, EscrowStatus::Locked);
}

#[test]
fn error_messages_name_the_cause() {
    assert_eq!(
        EscrowError::InvalidStatus.message(),
        "Invalid escrow status for this operation"
    );
    assert_eq!(
        EscrowError::NotTimedOut.message(),
        "Escrow has not timed out yet"
    );
    assert_eq!(
        EscrowError::TimeoutTooLong.message(),
        "Timeout exceeds maximum allowed (30 days)"
    );
    assert_eq!(
        EscrowError::InvalidResolution.message(),
        "Invalid dispute resolution: must be 'release' or 'refund'"
    );
}

#[test]
fn mark_paid_rejects_when_already_sent() {
    let (mut record, _vault) = fresh_escrow(1000, 7200, 50);
    let buyer = key(2);
    handle_mark_paid(&mut record, &buyer).expect("first marking succeeds");
    assert_eq!(
        handle_mark_paid(&mut record, &buyer),
        Err(EscrowError::InvalidStatus)
    );
    assert_eq!(record.status, EscrowStatus::PaymentSent);
}
