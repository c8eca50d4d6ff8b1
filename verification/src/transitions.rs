//! The guarded transition functions of the escrow engine, at the
//! specification level.
//!
//! Each operation of the engine is defined here as a pure function from the
//! record, its vault, and the operation's inputs to either the successor
//! record/vault pair (with the notification to emit) or the exact error.
//! The executable handlers in [`crate::engine`] are verified to return
//! precisely these outcomes, and the lemmas in [`crate::laws`] state the
//! lifecycle properties over these functions.  Every operation checks the
//! status first, so a terminal record answers `InvalidStatus` to everything.

use vstd::prelude::*;
use crate::errors::EscrowError;
use crate::state::{
    DisputeFiled, DisputeResolved, EscrowInitialized, EscrowRefunded, EscrowReleased, EscrowState,
    EscrowStatus, PaymentMarked, Resolution, same_key, MAX_TIMEOUT_SECONDS,
};
use crate::vault::{Payout, Vault};

verus! {

/// The byte tag a resolution is reported under: 0 releases to the buyer,
/// 1 refunds to the seller.
pub open spec fn resolution_tag(r: Resolution) -> u8 {
    match r {
        Resolution::ReleaseToBuyer => 0u8,
        Resolution::RefundToSeller => 1u8,
    }
}

/// Creation: requires a positive amount and a timeout in
/// `(0, MAX_TIMEOUT_SECONDS]`; moves `amount` into a fresh vault controlled
/// by the `(trade_id, seller)` authority and locks the record.
pub open spec fn initialize_step(
    trade_id: [u8; 16],
    seller: [u8; 32],
    buyer: [u8; 32],
    admin: [u8; 32],
    mint: [u8; 32],
    amount: u64,
    timeout_seconds: u64,
    now: i64,
    bump: u8,
) -> Result<(EscrowState, Vault, EscrowInitialized), EscrowError> {
    if amount == 0 {
        Err(EscrowError::ZeroAmount)
    } else if timeout_seconds == 0 {
        Err(EscrowError::ZeroTimeout)
    } else if timeout_seconds > MAX_TIMEOUT_SECONDS {
        Err(EscrowError::TimeoutTooLong)
    } else {
        let record = EscrowState {
            trade_id,
            seller,
            buyer,
            admin,
            mint,
            amount,
            status: EscrowStatus::Locked,
            locked_at: now,
            timeout_seconds,
            bump,
        };
        let vault = Vault {
            authority_trade_id: trade_id,
            authority_seller: seller,
            balance: amount,
            is_open: true,
        };
        let event = EscrowInitialized { trade_id, seller, buyer, mint, amount, timeout_seconds };
        Ok((record, vault, event))
    }
}

/// The buyer marks the off-chain payment as sent.  Permitted only from
/// `Locked`, only to the recorded buyer; no value moves.
pub open spec fn mark_paid_step(s: EscrowState, caller: [u8; 32]) -> Result<
    (EscrowState, PaymentMarked),
    EscrowError,
> {
    if s.status != EscrowStatus::Locked {
        Err(EscrowError::InvalidStatus)
    } else if !same_key(caller, s.buyer) {
        Err(EscrowError::UnauthorizedBuyer)
    } else {
        let next = EscrowState { status: EscrowStatus::PaymentSent, ..s };
        let event = PaymentMarked { trade_id: s.trade_id, buyer: caller };
        Ok((next, event))
    }
}

/// The seller confirms receipt of the off-chain payment.  Permitted only
/// from `PaymentSent`, only to the recorded seller, only for the recorded
/// asset; settles the vault to the buyer.
pub open spec fn release_step(
    s: EscrowState,
    v: Vault,
    caller: [u8; 32],
    mint: [u8; 32],
) -> Result<(EscrowState, Vault, EscrowReleased), EscrowError> {
    if s.status != EscrowStatus::PaymentSent {
        Err(EscrowError::InvalidStatus)
    } else if !same_key(caller, s.seller) {
        Err(EscrowError::UnauthorizedSeller)
    } else if !same_key(mint, s.mint) {
        Err(EscrowError::InvalidMint)
    } else {
        let next = EscrowState { status: EscrowStatus::Released, ..s };
        let settled = Vault { balance: 0, is_open: false, ..v };
        let event = EscrowReleased {
            trade_id: s.trade_id,
            seller: s.seller,
            buyer: s.buyer,
            amount: s.amount,
        };
        Ok((next, settled, event))
    }
}

/// The deadline after which the seller may self-refund, as an unbounded
/// integer: creation time plus timeout.
pub open spec fn refund_deadline(s: EscrowState) -> int {
    s.locked_at as int + s.timeout_seconds as int
}

/// The seller self-refunds a locked escrow whose deadline has passed.
/// Permitted only from `Locked` (once payment is marked, only arbitration
/// remains), only to the recorded seller, only for the recorded asset, and
/// only once `now` has reached the overflow-checked deadline; settles the
/// vault back to the seller.
pub open spec fn refund_step(
    s: EscrowState,
    v: Vault,
    caller: [u8; 32],
    mint: [u8; 32],
    now: i64,
) -> Result<(EscrowState, Vault, EscrowRefunded), EscrowError> {
    if s.status != EscrowStatus::Locked {
        Err(EscrowError::InvalidStatus)
    } else if !same_key(caller, s.seller) {
        Err(EscrowError::UnauthorizedSeller)
    } else if !same_key(mint, s.mint) {
        Err(EscrowError::InvalidMint)
    } else if refund_deadline(s) > i64::MAX as int {
        Err(EscrowError::TimeoutOverflow)
    } else if (now as int) < refund_deadline(s) {
        Err(EscrowError::NotTimedOut)
    } else {
        let next = EscrowState { status: EscrowStatus::Refunded, ..s };
        let settled = Vault { balance: 0, is_open: false, ..v };
        let event = EscrowRefunded { trade_id: s.trade_id, seller: s.seller, amount: s.amount };
        Ok((next, settled, event))
    }
}

/// Either party files a dispute.  Permitted only from `Locked` or
/// `PaymentSent`, only to the recorded buyer or seller; no value moves.
pub open spec fn dispute_step(s: EscrowState, caller: [u8; 32]) -> Result<
    (EscrowState, DisputeFiled),
    EscrowError,
> {
    if !(s.status == EscrowStatus::Locked || s.status == EscrowStatus::PaymentSent) {
        Err(EscrowError::InvalidStatus)
    } else if !(same_key(caller, s.buyer) || same_key(caller, s.seller)) {
        Err(EscrowError::UnauthorizedBuyer)
    } else {
        let next = EscrowState { status: EscrowStatus::Disputed, ..s };
        let event = DisputeFiled { trade_id: s.trade_id, disputer: caller };
        Ok((next, event))
    }
}

/// The party a resolution pays out to: the buyer on release, the seller on
/// refund.
pub open spec fn resolution_recipient(s: EscrowState, r: Resolution) -> [u8; 32] {
    match r {
        Resolution::ReleaseToBuyer => s.buyer,
        Resolution::RefundToSeller => s.seller,
    }
}

/// The terminal status a resolution drives the record to.
pub open spec fn resolution_status(r: Resolution) -> EscrowStatus {
    match r {
        Resolution::ReleaseToBuyer => EscrowStatus::Released,
        Resolution::RefundToSeller => EscrowStatus::Refunded,
    }
}

/// The admin arbitrates a disputed escrow.  Permitted only from `Disputed`;
/// the caller must match both the record's admin and the independently
/// configured `authorized_admin` (defense in depth against a corrupt admin
/// field); the named recipient must agree with the resolution; settles the
/// vault to that recipient.
pub open spec fn resolve_step(
    s: EscrowState,
    v: Vault,
    caller: [u8; 32],
    mint: [u8; 32],
    resolution: Resolution,
    recipient: [u8; 32],
    authorized_admin: [u8; 32],
) -> Result<(EscrowState, Vault, DisputeResolved, Payout), EscrowError> {
    if s.status != EscrowStatus::Disputed {
        Err(EscrowError::InvalidStatus)
    } else if !same_key(caller, s.admin) {
        Err(EscrowError::UnauthorizedAdmin)
    } else if !same_key(caller, authorized_admin) {
        Err(EscrowError::UnauthorizedAdmin)
    } else if !same_key(mint, s.mint) {
        Err(EscrowError::InvalidMint)
    } else if resolution == Resolution::ReleaseToBuyer && !same_key(recipient, s.buyer) {
        Err(EscrowError::UnauthorizedBuyer)
    } else if resolution == Resolution::RefundToSeller && !same_key(recipient, s.seller) {
        Err(EscrowError::UnauthorizedSeller)
    } else {
        let next = EscrowState { status: resolution_status(resolution), ..s };
        let settled = Vault { balance: 0, is_open: false, ..v };
        let event = DisputeResolved {
            trade_id: s.trade_id,
            admin: caller,
            resolution: resolution_tag(resolution),
        };
        let payout = Payout { recipient, amount: s.amount };
        Ok((next, settled, event, payout))
    }
}

} // verus!
