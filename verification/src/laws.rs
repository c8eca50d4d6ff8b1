//! Lifecycle laws of the escrow engine, proved over the transition
//! functions of [`crate::transitions`].
//!
//! The handlers in [`crate::engine`] are verified to return exactly these
//! transitions' outcomes, so each law below carries over to the executable
//! operations: what holds of a step holds of the handler that implements it.

use vstd::prelude::*;
use crate::errors::EscrowError;
use crate::state::{
    DisputeFiled, DisputeResolved, EscrowRefunded, EscrowReleased, EscrowState, EscrowStatus,
    PaymentMarked, Resolution, same_key, MAX_TIMEOUT_SECONDS,
};
use crate::transitions::{
    dispute_step, initialize_step, mark_paid_step, refund_deadline, refund_step, release_step,
    resolution_status, resolve_step,
};
use crate::vault::{custody_ok, Payout, Vault};

verus! {

/// For every positive amount and every timeout in `(0, 30 days]`,
/// initialization succeeds, locks the record, and leaves the vault holding
/// exactly the escrowed amount under the record's custody invariant; any
/// other amount or timeout fails with the matching validation error.
pub proof fn lemma_initialize_locks_amount(
    trade_id: [u8; 16],
    seller: [u8; 32],
    buyer: [u8; 32],
    admin: [u8; 32],
    mint: [u8; 32],
    amount: u64,
    timeout_seconds: u64,
    now: i64,
    bump: u8,
)
    ensures
        amount > 0 && 0 < timeout_seconds <= MAX_TIMEOUT_SECONDS ==> (match initialize_step(
            trade_id,
            seller,
            buyer,
            admin,
            mint,
            amount,
            timeout_seconds,
            now,
            bump,
        ) {
            Ok((record, vault, event)) => {
                &&& record.status == EscrowStatus::Locked
                &&& vault.balance == amount
                &&& vault.is_open
                &&& record.wf()
                &&& custody_ok(record, vault)
            },
            Err(e) => false,
        }),
        amount == 0 ==> initialize_step(
            trade_id,
            seller,
            buyer,
            admin,
            mint,
            amount,
            timeout_seconds,
            now,
            bump,
        ) == Err::<(EscrowState, Vault, crate::state::EscrowInitialized), EscrowError>(
            EscrowError::ZeroAmount,
        ),
        amount > 0 && timeout_seconds == 0 ==> initialize_step(
            trade_id,
            seller,
            buyer,
            admin,
            mint,
            amount,
            timeout_seconds,
            now,
            bump,
        ) == Err::<(EscrowState, Vault, crate::state::EscrowInitialized), EscrowError>(
            EscrowError::ZeroTimeout,
        ),
        amount > 0 && timeout_seconds > MAX_TIMEOUT_SECONDS ==> initialize_step(
            trade_id,
            seller,
            buyer,
            admin,
            mint,
            amount,
            timeout_seconds,
            now,
            bump,
        ) == Err::<(EscrowState, Vault, crate::state::EscrowInitialized), EscrowError>(
            EscrowError::TimeoutTooLong,
        ),
{
}

/// Release succeeds exactly when the record is in `PaymentSent` and the
/// caller is the recorded seller; any other caller or state fails with the
/// matching error.  (The supplied asset is the recorded one; a mismatched
/// asset fails with `InvalidMint` instead.)
pub proof fn lemma_release_succeeds_iff(s: EscrowState, v: Vault, caller: [u8; 32], mint: [u8; 32])
    requires
        same_key(mint, s.mint),
    ensures
        release_step(s, v, caller, mint) is Ok <==> s.status == EscrowStatus::PaymentSent
            && same_key(caller, s.seller),
        s.status != EscrowStatus::PaymentSent ==> release_step(s, v, caller, mint) == Err::<
            (EscrowState, Vault, EscrowReleased),
            EscrowError,
        >(EscrowError::InvalidStatus),
        s.status == EscrowStatus::PaymentSent && !same_key(caller, s.seller) ==> release_step(
            s,
            v,
            caller,
            mint,
        ) == Err::<(EscrowState, Vault, EscrowReleased), EscrowError>(
            EscrowError::UnauthorizedSeller,
        ),
        (release_step(s, v, caller, mint) matches Ok((next, settled, event)) ==> {
            &&& next.status == EscrowStatus::Released
            &&& settled.balance == 0
            &&& !settled.is_open
            &&& event.amount == s.amount
            &&& same_key(event.buyer, s.buyer)
        }),
{
}

/// A refund attempted before the deadline fails with `NotTimedOut`; once
/// `now` reaches the deadline of a still-locked record it succeeds, zeroes
/// the vault, and closes it.
pub proof fn lemma_refund_timing(
    s: EscrowState,
    v: Vault,
    caller: [u8; 32],
    mint: [u8; 32],
    now: i64,
)
    requires
        s.status == EscrowStatus::Locked,
        same_key(caller, s.seller),
        same_key(mint, s.mint),
        refund_deadline(s) <= i64::MAX as int,
    ensures
        (now as int) < refund_deadline(s) ==> refund_step(s, v, caller, mint, now) == Err::<
            (EscrowState, Vault, EscrowRefunded),
            EscrowError,
        >(EscrowError::NotTimedOut),
        now as int >= refund_deadline(s) ==> (match refund_step(s, v, caller, mint, now) {
            Ok((next, settled, event)) => {
                &&& next.status == EscrowStatus::Refunded
                &&& settled.balance == 0
                &&& !settled.is_open
                &&& event.amount == s.amount
                &&& same_key(event.seller, s.seller)
            },
            Err(e) => false,
        }),
{
}

/// A deadline whose computation overflows the timestamp range fails with
/// `TimeoutOverflow`, whatever `now` is.
pub proof fn lemma_refund_overflow(
    s: EscrowState,
    v: Vault,
    caller: [u8; 32],
    mint: [u8; 32],
    now: i64,
)
    requires
        s.status == EscrowStatus::Locked,
        same_key(caller, s.seller),
        same_key(mint, s.mint),
        refund_deadline(s) > i64::MAX as int,
    ensures
        refund_step(s, v, caller, mint, now) == Err::<
            (EscrowState, Vault, EscrowRefunded),
            EscrowError,
        >(EscrowError::TimeoutOverflow),
{
}

/// Filing a dispute fails with `InvalidStatus` from either terminal state
/// (and from `Disputed` itself), succeeds from `Locked` or `PaymentSent`
/// when the caller is the buyer or the seller, and fails as unauthorized
/// for any third party.
pub proof fn lemma_dispute_access(s: EscrowState, caller: [u8; 32])
    ensures
        s.status.is_terminal() ==> dispute_step(s, caller) == Err::<
            (EscrowState, DisputeFiled),
            EscrowError,
        >(EscrowError::InvalidStatus),
        dispute_step(s, caller) is Ok <==> (s.status == EscrowStatus::Locked || s.status
            == EscrowStatus::PaymentSent) && (same_key(caller, s.buyer) || same_key(
            caller,
            s.seller,
        )),
        (s.status == EscrowStatus::Locked || s.status == EscrowStatus::PaymentSent) && !same_key(
            caller,
            s.buyer,
        ) && !same_key(caller, s.seller) ==> dispute_step(s, caller) == Err::<
            (EscrowState, DisputeFiled),
            EscrowError,
        >(EscrowError::UnauthorizedBuyer),
        (dispute_step(s, caller) matches Ok((next, event)) ==> next.status
            == EscrowStatus::Disputed),
{
}

/// Resolution fails on any non-`Disputed` status and on any
/// resolution/recipient mismatch; on a matching pair by the doubly-checked
/// admin it pays the full amount to the recipient, closes the vault, and
/// drives the record to the matching terminal state.
pub proof fn lemma_resolve_arbitration(
    s: EscrowState,
    v: Vault,
    caller: [u8; 32],
    mint: [u8; 32],
    resolution: Resolution,
    recipient: [u8; 32],
    authorized_admin: [u8; 32],
)
    ensures
        s.status != EscrowStatus::Disputed ==> resolve_step(
            s,
            v,
            caller,
            mint,
            resolution,
            recipient,
            authorized_admin,
        ) == Err::<(EscrowState, Vault, DisputeResolved, Payout), EscrowError>(
            EscrowError::InvalidStatus,
        ),
        s.status == EscrowStatus::Disputed && same_key(caller, s.admin) && same_key(
            caller,
            authorized_admin,
        ) && same_key(mint, s.mint) && resolution == Resolution::ReleaseToBuyer && !same_key(
            recipient,
            s.buyer,
        ) ==> resolve_step(s, v, caller, mint, resolution, recipient, authorized_admin) == Err::<
            (EscrowState, Vault, DisputeResolved, Payout),
            EscrowError,
        >(EscrowError::UnauthorizedBuyer),
        s.status == EscrowStatus::Disputed && same_key(caller, s.admin) && same_key(
            caller,
            authorized_admin,
        ) && same_key(mint, s.mint) && resolution == Resolution::RefundToSeller && !same_key(
            recipient,
            s.seller,
        ) ==> resolve_step(s, v, caller, mint, resolution, recipient, authorized_admin) == Err::<
            (EscrowState, Vault, DisputeResolved, Payout),
            EscrowError,
        >(EscrowError::UnauthorizedSeller),
        (resolve_step(s, v, caller, mint, resolution, recipient, authorized_admin) matches Ok(
            (next, settled, event, payout),
        ) ==> {
            &&& next.status == resolution_status(resolution)
            &&& next.status.is_terminal()
            &&& settled.balance == 0
            &&& !settled.is_open
            &&& payout.amount == s.amount
            &&& same_key(payout.recipient, recipient)
            &&& custody_ok(s, v) ==> custody_ok(next, settled)
        }),
{
}

/// The record's admin field alone does not authorize a resolution: a caller
/// who is not also the separately configured authorized admin is rejected,
/// whoever the record names.
pub proof fn lemma_resolve_needs_both_admin_checks(
    s: EscrowState,
    v: Vault,
    caller: [u8; 32],
    mint: [u8; 32],
    resolution: Resolution,
    recipient: [u8; 32],
    authorized_admin: [u8; 32],
)
    requires
        s.status == EscrowStatus::Disputed,
        !same_key(caller, s.admin) || !same_key(caller, authorized_admin),
    ensures
        resolve_step(s, v, caller, mint, resolution, recipient, authorized_admin) == Err::<
            (EscrowState, Vault, DisputeResolved, Payout),
            EscrowError,
        >(EscrowError::UnauthorizedAdmin),
{
}

/// Exactly-once settlement: once a record is terminal (`Released` or
/// `Refunded`) every operation fails with `InvalidStatus`, so no second
/// settlement and no further mutation is possible.
pub proof fn lemma_terminal_state_is_final(
    s: EscrowState,
    v: Vault,
    caller: [u8; 32],
    mint: [u8; 32],
    now: i64,
    resolution: Resolution,
    recipient: [u8; 32],
    authorized_admin: [u8; 32],
)
    requires
        s.status.is_terminal(),
    ensures
        mark_paid_step(s, caller) == Err::<(EscrowState, PaymentMarked), EscrowError>(
            EscrowError::InvalidStatus,
        ),
        release_step(s, v, caller, mint) == Err::<
            (EscrowState, Vault, EscrowReleased),
            EscrowError,
        >(EscrowError::InvalidStatus),
        refund_step(s, v, caller, mint, now) == Err::<
            (EscrowState, Vault, EscrowRefunded),
            EscrowError,
        >(EscrowError::InvalidStatus),
        dispute_step(s, caller) == Err::<(EscrowState, DisputeFiled), EscrowError>(
            EscrowError::InvalidStatus,
        ),
        resolve_step(s, v, caller, mint, resolution, recipient, authorized_admin) == Err::<
            (EscrowState, Vault, DisputeResolved, Payout),
            EscrowError,
        >(EscrowError::InvalidStatus),
{
}

/// No operation ever changes a record's identity, parties, asset, amount,
/// creation time, timeout, or derivation value: a successful step changes
/// the status alone, and so keeps well-formedness.
pub proof fn lemma_only_status_changes(
    s: EscrowState,
    v: Vault,
    caller: [u8; 32],
    mint: [u8; 32],
    now: i64,
    resolution: Resolution,
    recipient: [u8; 32],
    authorized_admin: [u8; 32],
)
    ensures
        (mark_paid_step(s, caller) matches Ok((next, event)) ==> next == (EscrowState {
            status: next.status,
            ..s
        })),
        (release_step(s, v, caller, mint) matches Ok((next, settled, event)) ==> next == (
        EscrowState { status: next.status, ..s })),
        (refund_step(s, v, caller, mint, now) matches Ok((next, settled, event)) ==> next == (
        EscrowState { status: next.status, ..s })),
        (dispute_step(s, caller) matches Ok((next, event)) ==> next == (EscrowState {
            status: next.status,
            ..s
        })),
        (resolve_step(s, v, caller, mint, resolution, recipient, authorized_admin) matches Ok(
            (next, settled, event, payout),
        ) ==> next == (EscrowState { status: next.status, ..s })),
{
}

/// An edge of the lifecycle graph: these five transitions exist and no
/// others.
pub open spec fn allowed_edge(from: EscrowStatus, to: EscrowStatus) -> bool {
    ||| from == EscrowStatus::Locked && to == EscrowStatus::PaymentSent
    ||| from == EscrowStatus::Locked && to == EscrowStatus::Refunded
    ||| from == EscrowStatus::PaymentSent && to == EscrowStatus::Released
    ||| (from == EscrowStatus::Locked || from == EscrowStatus::PaymentSent) && to
        == EscrowStatus::Disputed
    ||| from == EscrowStatus::Disputed && (to == EscrowStatus::Released || to
        == EscrowStatus::Refunded)
}

/// Every successful operation moves the status along an edge of the
/// lifecycle graph; since no edge leaves a terminal state, every record
/// moves monotonically toward `Released` or `Refunded`.
pub proof fn lemma_steps_follow_graph(
    s: EscrowState,
    v: Vault,
    caller: [u8; 32],
    mint: [u8; 32],
    now: i64,
    resolution: Resolution,
    recipient: [u8; 32],
    authorized_admin: [u8; 32],
)
    ensures
        (mark_paid_step(s, caller) matches Ok((next, event)) ==> allowed_edge(
            s.status,
            next.status,
        )),
        (release_step(s, v, caller, mint) matches Ok((next, settled, event)) ==> allowed_edge(
            s.status,
            next.status,
        )),
        (refund_step(s, v, caller, mint, now) matches Ok((next, settled, event)) ==> allowed_edge(
            s.status,
            next.status,
        )),
        (dispute_step(s, caller) matches Ok((next, event)) ==> allowed_edge(
            s.status,
            next.status,
        )),
        (resolve_step(s, v, caller, mint, resolution, recipient, authorized_admin) matches Ok(
            (next, settled, event, payout),
        ) ==> allowed_edge(s.status, next.status)),
        forall|to: EscrowStatus| s.status.is_terminal() ==> !allowed_edge(s.status, to),
{
}

/// The operations that move no value keep the custody invariant with the
/// unchanged vault: marking payment and filing a dispute leave the vault
/// holding the full amount.
pub proof fn lemma_custody_preserved_without_movement(s: EscrowState, v: Vault, caller: [u8; 32])
    requires
        custody_ok(s, v),
    ensures
        (mark_paid_step(s, caller) matches Ok((next, event)) ==> custody_ok(next, v)),
        (dispute_step(s, caller) matches Ok((next, event)) ==> custody_ok(next, v)),
{
}

/// The settling operations close the vault exactly when they succeed, and
/// re-establish the custody invariant for the terminal record.
pub proof fn lemma_settlement_closes_vault(
    s: EscrowState,
    v: Vault,
    caller: [u8; 32],
    mint: [u8; 32],
    now: i64,
)
    requires
        custody_ok(s, v),
    ensures
        (release_step(s, v, caller, mint) matches Ok((next, settled, event)) ==> custody_ok(
            next,
            settled,
        ) && next.status.is_terminal()),
        (refund_step(s, v, caller, mint, now) matches Ok((next, settled, event)) ==> custody_ok(
            next,
            settled,
        ) && next.status.is_terminal()),
{
}

} // verus!
