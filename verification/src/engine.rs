//! The escrow engine: the executable state machine and authorization gate.
//!
//! Each handler is verified to return exactly the outcome of the matching
//! transition function in [`crate::transitions`]: the same successor record,
//! vault, and notification on success, the same error otherwise, with the
//! record and vault untouched on every error path.  The value ledger and the
//! wall clock act outside this crate: a handler receives `now` as a plain
//! timestamp and hands the settlement it decided on back to its caller, who
//! performs the actual movement the vault model records.

use vstd::prelude::*;
use crate::errors::EscrowError;
use crate::state::{
    DisputeFiled, DisputeResolved, EscrowInitialized, EscrowRefunded, EscrowReleased, EscrowState,
    EscrowStatus, PaymentMarked, Resolution, same_key, MAX_TIMEOUT_SECONDS,
};
use crate::transitions::{
    dispute_step, initialize_step, mark_paid_step, refund_deadline, refund_step, release_step,
    resolution_status, resolve_step,
};
use crate::vault::{custody_ok, Payout, Vault};

verus! {

/// Decides whether two party identities are the same, byte for byte.
pub fn keys_equal(a: &[u8; 32], b: &[u8; 32]) -> (r: bool)
    ensures
        r == same_key(*a, *b),
{
    let mut i: usize = 0;
    while i < 32
        invariant
            0 <= i <= 32,
            forall|j: int| 0 <= j < i ==> a@[j] == b@[j],
        decreases 32 - i,
    {
        if a[i] != b[i] {
            assert(a@ != b@);
            return false;
        }
        i += 1;
    }
    assert(a@ =~= b@);
    true
}

/// Creates and funds an escrow: the seller locks `amount` of `mint` into a
/// fresh vault controlled by the `(trade_id, seller)` authority, and the
/// record starts out `Locked` at time `now`.
pub fn handle_initialize(
    trade_id: [u8; 16],
    seller: [u8; 32],
    buyer: [u8; 32],
    admin: [u8; 32],
    mint: [u8; 32],
    amount: u64,
    timeout_seconds: u64,
    now: i64,
    bump: u8,
) -> (r: Result<(EscrowState, Vault, EscrowInitialized), EscrowError>)
    ensures
        r == initialize_step(trade_id, seller, buyer, admin, mint, amount, timeout_seconds, now, bump),
        r is Ok <==> amount > 0 && 0 < timeout_seconds <= MAX_TIMEOUT_SECONDS,
        (r matches Ok((record, vault, event)) ==> {
            &&& record.status == EscrowStatus::Locked
            &&& record.wf()
            &&& custody_ok(record, vault)
            &&& vault.balance == amount
            &&& vault.is_open
            &&& record.locked_at == now
            &&& record.amount == amount
            &&& event.amount == amount
        }),
{
    if amount == 0 {
        return Err(EscrowError::ZeroAmount);
    }
    if timeout_seconds == 0 {
        return Err(EscrowError::ZeroTimeout);
    }
    if timeout_seconds > MAX_TIMEOUT_SECONDS {
        return Err(EscrowError::TimeoutTooLong);
    }
    let record = EscrowState {
        trade_id,
        seller,
        buyer,
        admin,
        mint,
        amount,
        status: EscrowStatus::Locked,
        locked_at: now,
        timeout_seconds,
        bump,
    };
    let vault = Vault {
        authority_trade_id: trade_id,
        authority_seller: seller,
        balance: amount,
        is_open: true,
    };
    let event = EscrowInitialized { trade_id, seller, buyer, mint, amount, timeout_seconds };
    Ok((record, vault, event))
}

/// The buyer marks the off-chain payment as sent; the record moves from
/// `Locked` to `PaymentSent`.  No value moves.
pub fn handle_mark_paid(escrow: &mut EscrowState, caller: &[u8; 32]) -> (r: Result<
    PaymentMarked,
    EscrowError,
>)
    ensures
        (match mark_paid_step(*old(escrow), *caller) {
            Ok((next, event)) => {
                &&& r == Ok::<PaymentMarked, EscrowError>(event)
                &&& *final(escrow) == next
            },
            Err(e) => {
                &&& r == Err::<PaymentMarked, EscrowError>(e)
                &&& *final(escrow) == *old(escrow)
            },
        }),
        r is Ok <==> old(escrow).status == EscrowStatus::Locked && same_key(
            *caller,
            old(escrow).buyer,
        ),
{
    if escrow.status != EscrowStatus::Locked {
        return Err(EscrowError::InvalidStatus);
    }
    if !keys_equal(caller, &escrow.buyer) {
        return Err(EscrowError::UnauthorizedBuyer);
    }
    escrow.status = EscrowStatus::PaymentSent;
    Ok(PaymentMarked { trade_id: escrow.trade_id, buyer: *caller })
}

/// The seller confirms receipt of the off-chain payment: the vault's full
/// amount goes to the buyer, the vault closes, and the record reaches the
/// terminal `Released` state.
pub fn handle_release(
    escrow: &mut EscrowState,
    vault: &mut Vault,
    caller: &[u8; 32],
    mint: &[u8; 32],
) -> (r: Result<EscrowReleased, EscrowError>)
    requires
        custody_ok(*old(escrow), *old(vault)),
    ensures
        custody_ok(*final(escrow), *final(vault)),
        (match release_step(*old(escrow), *old(vault), *caller, *mint) {
            Ok((next, settled, event)) => {
                &&& r == Ok::<EscrowReleased, EscrowError>(event)
                &&& *final(escrow) == next
                &&& *final(vault) == settled
            },
            Err(e) => {
                &&& r == Err::<EscrowReleased, EscrowError>(e)
                &&& *final(escrow) == *old(escrow)
                &&& *final(vault) == *old(vault)
            },
        }),
        r is Ok <==> old(escrow).status == EscrowStatus::PaymentSent && same_key(
            *caller,
            old(escrow).seller,
        ) && same_key(*mint, old(escrow).mint),
        r is Ok ==> final(escrow).status == EscrowStatus::Released && !final(vault).is_open
            && final(vault).balance == 0,
{
    if escrow.status != EscrowStatus::PaymentSent {
        return Err(EscrowError::InvalidStatus);
    }
    if !keys_equal(caller, &escrow.seller) {
        return Err(EscrowError::UnauthorizedSeller);
    }
    if !keys_equal(mint, &escrow.mint) {
        return Err(EscrowError::InvalidMint);
    }
    vault.balance = 0;
    vault.is_open = false;
    escrow.status = EscrowStatus::Released;
    Ok(EscrowReleased {
        trade_id: escrow.trade_id,
        seller: escrow.seller,
        buyer: escrow.buyer,
        amount: escrow.amount,
    })
}

/// The seller self-refunds a locked escrow whose overflow-checked deadline
/// has passed: the vault's full amount returns to the seller, the vault
/// closes, and the record reaches the terminal `Refunded` state.
pub fn handle_refund(
    escrow: &mut EscrowState,
    vault: &mut Vault,
    caller: &[u8; 32],
    mint: &[u8; 32],
    now: i64,
) -> (r: Result<EscrowRefunded, EscrowError>)
    requires
        custody_ok(*old(escrow), *old(vault)),
        old(escrow).wf(),
    ensures
        custody_ok(*final(escrow), *final(vault)),
        (match refund_step(*old(escrow), *old(vault), *caller, *mint, now) {
            Ok((next, settled, event)) => {
                &&& r == Ok::<EscrowRefunded, EscrowError>(event)
                &&& *final(escrow) == next
                &&& *final(vault) == settled
            },
            Err(e) => {
                &&& r == Err::<EscrowRefunded, EscrowError>(e)
                &&& *final(escrow) == *old(escrow)
                &&& *final(vault) == *old(vault)
            },
        }),
        r is Ok <==> old(escrow).status == EscrowStatus::Locked && same_key(
            *caller,
            old(escrow).seller,
        ) && same_key(*mint, old(escrow).mint) && refund_deadline(*old(escrow)) <= i64::MAX as int
            && now >= refund_deadline(*old(escrow)),
        r is Ok ==> final(escrow).status == EscrowStatus::Refunded && !final(vault).is_open
            && final(vault).balance == 0,
{
    if escrow.status != EscrowStatus::Locked {
        return Err(EscrowError::InvalidStatus);
    }
    if !keys_equal(caller, &escrow.seller) {
        return Err(EscrowError::UnauthorizedSeller);
    }
    if !keys_equal(mint, &escrow.mint) {
        return Err(EscrowError::InvalidMint);
    }
    let timeout: i64 = escrow.timeout_seconds as i64;
    if escrow.locked_at > i64::MAX - timeout {
        return Err(EscrowError::TimeoutOverflow);
    }
    let deadline: i64 = escrow.locked_at + timeout;
    if now < deadline {
        return Err(EscrowError::NotTimedOut);
    }
    vault.balance = 0;
    vault.is_open = false;
    escrow.status = EscrowStatus::Refunded;
    Ok(EscrowRefunded {
        trade_id: escrow.trade_id,
        seller: escrow.seller,
        amount: escrow.amount,
    })
}

/// Either the buyer or the seller files a dispute; the record moves to
/// `Disputed` and only arbitration can settle it.  No value moves.
pub fn handle_dispute(escrow: &mut EscrowState, caller: &[u8; 32]) -> (r: Result<
    DisputeFiled,
    EscrowError,
>)
    ensures
        (match dispute_step(*old(escrow), *caller) {
            Ok((next, event)) => {
                &&& r == Ok::<DisputeFiled, EscrowError>(event)
                &&& *final(escrow) == next
            },
            Err(e) => {
                &&& r == Err::<DisputeFiled, EscrowError>(e)
                &&& *final(escrow) == *old(escrow)
            },
        }),
        r is Ok <==> (old(escrow).status == EscrowStatus::Locked || old(escrow).status
            == EscrowStatus::PaymentSent) && (same_key(*caller, old(escrow).buyer) || same_key(
            *caller,
            old(escrow).seller,
        )),
{
    if !(escrow.status == EscrowStatus::Locked || escrow.status == EscrowStatus::PaymentSent) {
        return Err(EscrowError::InvalidStatus);
    }
    let is_buyer = keys_equal(caller, &escrow.buyer);
    let is_seller = keys_equal(caller, &escrow.seller);
    if !(is_buyer || is_seller) {
        return Err(EscrowError::UnauthorizedBuyer);
    }
    escrow.status = EscrowStatus::Disputed;
    Ok(DisputeFiled { trade_id: escrow.trade_id, disputer: *caller })
}

/// The admin arbitrates a disputed escrow.  The caller must match both the
/// record's admin and the separately configured `authorized_admin`, and the
/// named recipient must agree with the resolution; then the vault's full
/// amount goes to that recipient, the vault closes, and the record reaches
/// the matching terminal state.
pub fn handle_resolve(
    escrow: &mut EscrowState,
    vault: &mut Vault,
    caller: &[u8; 32],
    mint: &[u8; 32],
    resolution: Resolution,
    recipient: &[u8; 32],
    authorized_admin: &[u8; 32],
) -> (r: Result<(DisputeResolved, Payout), EscrowError>)
    requires
        custody_ok(*old(escrow), *old(vault)),
    ensures
        custody_ok(*final(escrow), *final(vault)),
        (match resolve_step(
            *old(escrow),
            *old(vault),
            *caller,
            *mint,
            resolution,
            *recipient,
            *authorized_admin,
        ) {
            Ok((next, settled, event, payout)) => {
                &&& r == Ok::<(DisputeResolved, Payout), EscrowError>((event, payout))
                &&& *final(escrow) == next
                &&& *final(vault) == settled
            },
            Err(e) => {
                &&& r == Err::<(DisputeResolved, Payout), EscrowError>(e)
                &&& *final(escrow) == *old(escrow)
                &&& *final(vault) == *old(vault)
            },
        }),
        r is Ok <==> old(escrow).status == EscrowStatus::Disputed && same_key(
            *caller,
            old(escrow).admin,
        ) && same_key(*caller, *authorized_admin) && same_key(*mint, old(escrow).mint) && same_key(
            *recipient,
            if resolution == Resolution::ReleaseToBuyer {
                old(escrow).buyer
            } else {
                old(escrow).seller
            },
        ),
        r is Ok ==> final(escrow).status == resolution_status(resolution) && !final(vault).is_open
            && final(vault).balance == 0,
        (r matches Ok((event, payout)) ==> payout.amount == old(escrow).amount
            && same_key(payout.recipient, *recipient)),
{
    if escrow.status != EscrowStatus::Disputed {
        return Err(EscrowError::InvalidStatus);
    }
    if !keys_equal(caller, &escrow.admin) {
        return Err(EscrowError::UnauthorizedAdmin);
    }
    if !keys_equal(caller, authorized_admin) {
        return Err(EscrowError::UnauthorizedAdmin);
    }
    if !keys_equal(mint, &escrow.mint) {
        return Err(EscrowError::InvalidMint);
    }
    let tag: u8;
    match resolution {
        Resolution::ReleaseToBuyer => {
            if !keys_equal(recipient, &escrow.buyer) {
                return Err(EscrowError::UnauthorizedBuyer);
            }
            escrow.status = EscrowStatus::Released;
            tag = 0;
        },
        Resolution::RefundToSeller => {
            if !keys_equal(recipient, &escrow.seller) {
                return Err(EscrowError::UnauthorizedSeller);
            }
            escrow.status = EscrowStatus::Refunded;
            tag = 1;
        },
    }
    vault.balance = 0;
    vault.is_open = false;
    let event = DisputeResolved { trade_id: escrow.trade_id, admin: *caller, resolution: tag };
    let payout = Payout { recipient: *recipient, amount: escrow.amount };
    Ok((event, payout))
}

} // verus!
