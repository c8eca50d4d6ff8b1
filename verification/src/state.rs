//! The persistent escrow record, its status machine, and the notification
//! payloads emitted on successful mutation.

use vstd::prelude::*;

verus! {

/// Upper bound on `timeout_seconds`: 30 days, in seconds.
pub const MAX_TIMEOUT_SECONDS: u64 = 2592000;

/// The lifecycle status of an escrow record.
///
/// The only transitions are `Locked -> PaymentSent -> Released`,
/// `Locked -> Refunded`, and `{Locked, PaymentSent} -> Disputed ->
/// {Released, Refunded}`.  `Released` and `Refunded` are terminal.
#[derive(Clone, Copy, PartialEq, Eq, Structural, Debug)]
pub enum EscrowStatus {
    /// Funds locked in the vault, awaiting the buyer's off-chain payment.
    Locked,
    /// The buyer has marked the off-chain payment as sent.
    PaymentSent,
    /// The seller confirmed receipt; funds were released to the buyer.
    Released,
    /// The escrow was refunded back to the seller.
    Refunded,
    /// Under dispute, awaiting admin resolution.
    Disputed,
}

impl EscrowStatus {
    /// A terminal status: the record is settled and its vault is closed.
    pub open spec fn is_terminal(self) -> bool {
        self == EscrowStatus::Released || self == EscrowStatus::Refunded
    }

    /// A status in which the vault still holds the escrowed amount.
    pub open spec fn holds_funds(self) -> bool {
        ||| self == EscrowStatus::Locked
        ||| self == EscrowStatus::PaymentSent
        ||| self == EscrowStatus::Disputed
    }
}

/// The admin's binary decision on a disputed escrow.
#[derive(Clone, Copy, PartialEq, Eq, Structural, Debug)]
pub enum Resolution {
    /// The buyer paid: release the escrowed funds to the buyer.
    ReleaseToBuyer,
    /// The buyer did not pay: refund the escrowed funds to the seller.
    RefundToSeller,
}

/// Party identities are 32-byte public identifiers; two identities are the
/// same exactly when their bytes agree.
pub open spec fn same_key(a: [u8; 32], b: [u8; 32]) -> bool {
    a@ == b@
}

/// The sole persistent entity: one record per `(trade_id, seller)` pair.
///
/// `amount`, the parties, and the asset are fixed at creation; only `status`
/// changes afterwards, monotonically toward a terminal state.
#[derive(Clone, Copy, PartialEq, Eq, Debug)]
pub struct EscrowState {
    /// 128-bit identifier correlating with an off-chain trade.
    pub trade_id: [u8; 16],
    /// The seller's public identifier.
    pub seller: [u8; 32],
    /// The buyer's public identifier.
    pub buyer: [u8; 32],
    /// The admin identity empowered to resolve disputes.
    pub admin: [u8; 32],
    /// Identifier of the fungible asset being escrowed.
    pub mint: [u8; 32],
    /// The escrowed quantity, fixed at creation.
    pub amount: u64,
    /// The current lifecycle status.
    pub status: EscrowStatus,
    /// Timestamp of creation.
    pub locked_at: i64,
    /// Seconds after which the seller may self-refund; capped at 30 days.
    pub timeout_seconds: u64,
    /// Derivation value for the custody authority.
    pub bump: u8,
}

impl EscrowState {
    /// Well-formedness, established at creation and preserved by every
    /// operation: the amount is positive and the timeout lies in
    /// `(0, MAX_TIMEOUT_SECONDS]`.
    pub open spec fn wf(self) -> bool {
        &&& self.amount > 0
        &&& 0 < self.timeout_seconds <= MAX_TIMEOUT_SECONDS
    }
}

/// Notification: a new escrow was created and funded.
#[derive(Clone, Copy, PartialEq, Eq, Debug)]
pub struct EscrowInitialized {
    pub trade_id: [u8; 16],
    pub seller: [u8; 32],
    pub buyer: [u8; 32],
    pub mint: [u8; 32],
    pub amount: u64,
    pub timeout_seconds: u64,
}

/// Notification: the buyer marked the off-chain payment as sent.
#[derive(Clone, Copy, PartialEq, Eq, Debug)]
pub struct PaymentMarked {
    pub trade_id: [u8; 16],
    pub buyer: [u8; 32],
}

/// Notification: the escrowed funds were released to the buyer.
#[derive(Clone, Copy, PartialEq, Eq, Debug)]
pub struct EscrowReleased {
    pub trade_id: [u8; 16],
    pub seller: [u8; 32],
    pub buyer: [u8; 32],
    pub amount: u64,
}

/// Notification: the escrowed funds were refunded to the seller.
#[derive(Clone, Copy, PartialEq, Eq, Debug)]
pub struct EscrowRefunded {
    pub trade_id: [u8; 16],
    pub seller: [u8; 32],
    pub amount: u64,
}

/// Notification: a party filed a dispute.
#[derive(Clone, Copy, PartialEq, Eq, Debug)]
pub struct DisputeFiled {
    pub trade_id: [u8; 16],
    pub disputer: [u8; 32],
}

/// Notification: the admin resolved a dispute.  `resolution` is 0 for
/// release-to-buyer and 1 for refund-to-seller.
#[derive(Clone, Copy, PartialEq, Eq, Debug)]
pub struct DisputeResolved {
    pub trade_id: [u8; 16],
    pub admin: [u8; 32],
    pub resolution: u8,
}

} // verus!
