//! Settlement, refund, dispute, and arbitration behaviour, including the
//! exactly-once property of terminal records.

use mvga_escrow::engine::{
    handle_dispute, handle_initialize, handle_mark_paid, handle_refund, handle_release,
    handle_resolve,
};
use mvga_escrow::errors::EscrowError;
use mvga_escrow::state::{EscrowState, EscrowStatus, Resolution};
use mvga_escrow::vault::Vault;

const SELLER: [u8; 32] = [1; 32];
const BUYER: [u8; 32] = [2; 32];
const ADMIN: [u8; 32] = [3; 32];
const MINT: [u8; 32] = [4; 32];
const STRANGER: [u8; 32] = [7; 32];
const TRADE: [u8; 16] = [9; 16];

fn locked_escrow(now: i64) -> (EscrowState, Vault) {
    let r = handle_initialize(TRADE, SELLER, BUYER, ADMIN, MINT, 1000, 7200, now, 254);
    let (record, vault, _event) = r.expect("valid inputs must initialize");
    (record, vault)
}

fn disputed_escrow() -> (EscrowState, Vault) {
    let (mut record, vault) = locked_escrow(100);
    handle_mark_paid(&mut record, &BUYER).expect("buyer marks payment");
    handle_dispute(&mut record, &BUYER).expect("buyer files dispute");
    (record, vault)
}

#[test]
fn release_after_payment_pays_buyer() {
    // Scenario: lock 1000 for 7200 seconds, buyer pays, seller releases.
    let (mut record, mut vault) = locked_escrow(100);
    handle_mark_paid(&mut record, &BUYER).expect("buyer marks payment");
    let event =
        handle_release(&mut record, &mut vault, &SELLER, &MINT).expect("seller may release");
    assert_eq!(record.status, EscrowStatus::Released);
    assert_eq!(vault.balance, 0);
    assert!(!vault.is_open);
    assert_eq!(event.buyer, BUYER);
    assert_eq!(event.seller, SELLER);
    assert_eq!(event.amount, 1000);
}

#[test]
fn release_rejects_before_payment_marked() {
    let (mut record, mut vault) = locked_escrow(100);
    assert_eq!(
        handle_release(&mut record, &mut vault, &SELLER, &MINT),
        Err(EscrowError::InvalidStatus)
    );
    assert_eq!(record.status, EscrowStatus::Locked);
    assert_eq!(vault.balance, 1000);
}

#[test]
fn release_rejects_non_seller() {
    let (mut record, mut vault) = locked_escrow(100);
    handle_mark_paid(&mut record, &BUYER).expect("buyer marks payment");
    assert_eq!(
        handle_release(&mut record, &mut vault, &BUYER, &MINT),
        Err(EscrowError::UnauthorizedSeller)
    );
    assert_eq!(record.status, EscrowStatus::PaymentSent);
    assert!(vault.is_open);
}

#[test]
fn release_rejects_wrong_mint() {
    let (mut record, mut vault) = locked_escrow(100);
    handle_mark_paid(&mut record, &BUYER).expect("buyer marks payment");
    let other_mint = [5u8; 32];
    assert_eq!(
        handle_release(&mut record, &mut vault, &SELLER, &other_mint),
        Err(EscrowError::InvalidMint)
    );
    assert_eq!(vault.balance, 1000);
}

#[test]
fn refund_after_timeout_returns_to_seller() {
    // Scenario: no payment marked; past the deadline the seller recovers.
    let (mut record, mut vault) = locked_escrow(100);
    let event =
        handle_refund(&mut record, &mut vault, &SELLER, &MINT, 7300).expect("deadline passed");
    assert_eq!(record.status, EscrowStatus::Refunded);
    assert_eq!(vault.balance, 0);
    assert!(!vault.is_open);
    assert_eq!(event.seller, SELLER);
    assert_eq!(event.amount, 1000);
}

#[test]
fn refund_before_deadline_not_timed_out() {
    let (mut record, mut vault) = locked_escrow(100);
    // Deadline is 100 + 7200 = 7300; one second earlier must fail.
    assert_eq!(
        handle_refund(&mut record, &mut vault, &SELLER, &MINT, 7299),
        Err(EscrowError::NotTimedOut)
    );
    assert_eq!(record.status, EscrowStatus::Locked);
    assert_eq!(vault.balance, 1000);
    // Exactly at the deadline it succeeds.
    assert!(handle_refund(&mut record, &mut vault, &SELLER, &MINT, 7300).is_ok());
}

#[test]
fn refund_rejects_after_payment_marked() {
    let (mut record, mut vault) = locked_escrow(100);
    handle_mark_paid(&mut record, &BUYER).expect("buyer marks payment");
    assert_eq!(
        handle_refund(&mut record, &mut vault, &SELLER, &MINT, 1_000_000),
        Err(EscrowError::InvalidStatus)
    );
}

#[test]
fn refund_rejects_non_seller() {
    let (mut record, mut vault) = locked_escrow(100);
    assert_eq!(
        handle_refund(&mut record, &mut vault, &BUYER, &MINT, 7300),
        Err(EscrowError::UnauthorizedSeller)
    );
}

#[test]
fn refund_deadline_overflow_is_reported() {
    let (mut record, mut vault) = locked_escrow(i64::MAX);
    assert_eq!(
        handle_refund(&mut record, &mut vault, &SELLER, &MINT, i64::MAX),
        Err(EscrowError::TimeoutOverflow)
    );
    assert_eq!(record.status, EscrowStatus::Locked);
}

#[test]
fn dispute_allowed_for_both_parties() {
    let (mut record, _vault) = locked_escrow(100);
    let event = handle_dispute(&mut record, &BUYER).expect("buyer may dispute from Locked");
    assert_eq!(event.disputer, BUYER);
    assert_eq!(record.status, EscrowStatus::Disputed);

    let (mut record2, _vault2) = locked_escrow(100);
    handle_mark_paid(&mut record2, &BUYER).expect("buyer marks payment");
    let event2 =
        handle_dispute(&mut record2, &SELLER).expect("seller may dispute from PaymentSent");
    assert_eq!(event2.disputer, SELLER);
    assert_eq!(record2.status, EscrowStatus::Disputed);
}

#[test]
fn dispute_rejects_third_party() {
    let (mut record, _vault) = locked_escrow(100);
    assert_eq!(
        handle_dispute(&mut record, &STRANGER),
        Err(EscrowError::UnauthorizedBuyer)
    );
    assert_eq!(record.status, EscrowStatus::Locked);
}

#[test]
fn dispute_rejects_terminal_states() {
    let (mut record, mut vault) = locked_escrow(100);
    handle_mark_paid(&mut record, &BUYER).expect("buyer marks payment");
    handle_release(&mut record, &mut vault, &SELLER, &MINT).expect("seller releases");
    assert_eq!(
        handle_dispute(&mut record, &BUYER),
        Err(EscrowError::InvalidStatus)
    );

    let (mut record2, mut vault2) = locked_escrow(100);
    handle_refund(&mut record2, &mut vault2, &SELLER, &MINT, 7300).expect("seller refunds");
    assert_eq!(
        handle_dispute(&mut record2, &SELLER),
        Err(EscrowError::InvalidStatus)
    );
}

#[test]
fn dispute_rejects_already_disputed() {
    let (mut record, _vault) = disputed_escrow();
    assert_eq!(
        handle_dispute(&mut record, &SELLER),
        Err(EscrowError::InvalidStatus)
    );
    assert_eq!(record.status, EscrowStatus::Disputed);
}

#[test]
fn resolve_release_to_buyer_settles_once() {
    // Scenario: buyer pays, files a dispute, admin releases to the buyer;
    // a second resolution finds a terminal record.
    let (mut record, mut vault) = disputed_escrow();
    let (event, payout) = handle_resolve(
        &mut record,
        &mut vault,
        &ADMIN,
        &MINT,
        Resolution::ReleaseToBuyer,
        &BUYER,
        &ADMIN,
    )
    .expect("matching resolution settles");
    assert_eq!(record.status, EscrowStatus::Released);
    assert_eq!(vault.balance, 0);
    assert!(!vault.is_open);
    assert_eq!(event.resolution, 0);
    assert_eq!(event.admin, ADMIN);
    assert_eq!(payout.recipient, BUYER);
    assert_eq!(payout.amount, 1000);

    assert_eq!(
        handle_resolve(
            &mut record,
            &mut vault,
            &ADMIN,
            &MINT,
            Resolution::ReleaseToBuyer,
            &BUYER,
            &ADMIN,
        ),
        Err(EscrowError::InvalidStatus)
    );
}

#[test]
fn resolve_refund_to_seller_pays_seller() {
    let (mut record, mut vault) = disputed_escrow();
    let (event, payout) = handle_resolve(
        &mut record,
        &mut vault,
        &ADMIN,
        &MINT,
        Resolution::RefundToSeller,
        &SELLER,
        &ADMIN,
    )
    .expect("matching resolution settles");
    assert_eq!(record.status, EscrowStatus::Refunded);
    assert_eq!(event.resolution, 1);
    assert_eq!(payout.recipient, SELLER);
    assert_eq!(payout.amount, 1000);
}

#[test]
fn resolve_rejects_mismatched_recipient() {
    // A refund-to-seller naming the buyer moves nothing.
    let (mut record, mut vault) = disputed_escrow();
    assert_eq!(
        handle_resolve(
            &mut record,
            &mut vault,
            &ADMIN,
            &MINT,
            Resolution::RefundToSeller,
            &BUYER,
            &ADMIN,
        ),
        Err(EscrowError::UnauthorizedSeller)
    );
    assert_eq!(record.status, EscrowStatus::Disputed);
    assert_eq!(vault.balance, 1000);
    assert!(vault.is_open);

    assert_eq!(
        handle_resolve(
            &mut record,
            &mut vault,
            &ADMIN,
            &MINT,
            Resolution::ReleaseToBuyer,
            &SELLER,
            &ADMIN,
        ),
        Err(EscrowError::UnauthorizedBuyer)
    );
    assert_eq!(record.status, EscrowStatus::Disputed);
}

#[test]
fn resolve_rejects_non_admin_caller() {
    let (mut record, mut vault) = disputed_escrow();
    assert_eq!(
        handle_resolve(
            &mut record,
            &mut vault,
            &SELLER,
            &MINT,
            Resolution::ReleaseToBuyer,
            &BUYER,
            &ADMIN,
        ),
        Err(EscrowError::UnauthorizedAdmin)
    );
}

#[test]
fn resolve_rejects_admin_missing_from_allowlist() {
    // The caller matches the record's admin field but not the separately
    // configured authorized admin: the second check still blocks it.
    let (mut record, mut vault) = disputed_escrow();
    let other_admin = [8u8; 32];
    assert_eq!(
        handle_resolve(
            &mut record,
            &mut vault,
            &ADMIN,
            &MINT,
            Resolution::ReleaseToBuyer,
            &BUYER,
            &other_admin,
        ),
        Err(EscrowError::UnauthorizedAdmin)
    );
    assert_eq!(record.status, EscrowStatus::Disputed);
}

#[test]
fn resolve_rejects_wrong_mint() {
    let (mut record, mut vault) = disputed_escrow();
    let other_mint = [5u8; 32];
    assert_eq!(
        handle_resolve(
            &mut record,
            &mut vault,
            &ADMIN,
            &other_mint,
            Resolution::ReleaseToBuyer,
            &BUYER,
            &ADMIN,
        ),
        Err(EscrowError::InvalidMint)
    );
}

#[test]
fn resolve_rejects_non_disputed_status() {
    let (mut record, mut vault) = locked_escrow(100);
    assert_eq!(
        handle_resolve(
            &mut record,
            &mut vault,
            &ADMIN,
            &MINT,
            Resolution::ReleaseToBuyer,
            &BUYER,
            &ADMIN,
        ),
        Err(EscrowError::InvalidStatus)
    );
}

#[test]
fn terminal_record_rejects_every_operation() {
    // Released and refunded records answer InvalidStatus to everything.
    let (mut record, mut vault) = locked_escrow(100);
    handle_mark_paid(&mut record, &BUYER).expect("buyer marks payment");
    handle_release(&mut record, &mut vault, &SELLER, &MINT).expect("seller releases");

    let (mut record2, mut vault2) = locked_escrow(100);
    handle_refund(&mut record2, &mut vault2, &SELLER, &MINT, 7300).expect("seller refunds");

    for (rec, vlt) in [(&mut record, &mut vault), (&mut record2, &mut vault2)] {
        assert_eq!(
            handle_mark_paid(rec, &BUYER),
            Err(EscrowError::InvalidStatus)
        );
        assert_eq!(
            handle_release(rec, vlt, &SELLER, &MINT),
            Err(EscrowError::InvalidStatus)
        );
        assert_eq!(
            handle_refund(rec, vlt, &SELLER, &MINT, i64::MAX),
            Err(EscrowError::InvalidStatus)
        );
        assert_eq!(handle_dispute(rec, &BUYER), Err(EscrowError::InvalidStatus));
        assert_eq!(
            handle_resolve(
                rec,
                vlt,
                &ADMIN,
                &MINT,
                Resolution::RefundToSeller,
                &SELLER,
                &ADMIN
            ),
            Err(EscrowError::InvalidStatus)
        );
        assert_eq!(vlt.balance, 0);
        assert!(!vlt.is_open);
    }
}
