//! The error taxonomy of the escrow engine.

use vstd::prelude::*;

verus! {

/// Every way an escrow operation can fail.  Each operation's contract states
/// exactly which inputs produce which variant; on any error the record and
/// the vault are left unchanged.
#[derive(Clone, Copy, PartialEq, Eq, Structural, Debug)]
pub enum EscrowError {
    /// The operation was invoked while the record is in a state that does not
    /// permit it.
    InvalidStatus,
    /// The caller is not the seller the operation requires.
    UnauthorizedSeller,
    /// The caller is not the buyer (or, for filing a dispute, neither party).
    UnauthorizedBuyer,
    /// The caller is not an authorized admin.
    UnauthorizedAdmin,
    /// A refund was attempted before the computed deadline.
    NotTimedOut,
    /// The escrowed amount must be greater than zero.
    ZeroAmount,
    /// The timeout duration must be greater than zero.
    ZeroTimeout,
    /// The dispute resolution is neither release-to-buyer nor
    /// refund-to-seller.
    InvalidResolution,
    /// The supplied asset does not match the recorded one.
    InvalidMint,
    /// The deadline computation overflowed.
    TimeoutOverflow,
    /// The requested timeout exceeds the 30-day cap.
    TimeoutTooLong,
}

impl EscrowError {
    /// A human-readable description of the error.
    pub fn message(&self) -> (m: &'static str)
        ensures
            (m@ == match *self {
                EscrowError::InvalidStatus => "Invalid escrow status for this operation"@,
                EscrowError::UnauthorizedSeller => "Unauthorized: only the seller can perform this action"@,
                EscrowError::UnauthorizedBuyer => "Unauthorized: only the buyer can perform this action"@,
                EscrowError::UnauthorizedAdmin => "Unauthorized: only the admin can perform this action"@,
                EscrowError::NotTimedOut => "Escrow has not timed out yet"@,
                EscrowError::ZeroAmount => "Escrow amount must be greater than zero"@,
                EscrowError::ZeroTimeout => "Timeout duration must be greater than zero"@,
                EscrowError::InvalidResolution => "Invalid dispute resolution: must be 'release' or 'refund'"@,
                EscrowError::InvalidMint => "Mint does not match escrow"@,
                EscrowError::TimeoutOverflow => "Timeout calculation overflow"@,
                EscrowError::TimeoutTooLong => "Timeout exceeds maximum allowed (30 days)"@,
            }),
    {
        match *self {
            EscrowError::InvalidStatus => "Invalid escrow status for this operation",
            EscrowError::UnauthorizedSeller => "Unauthorized: only the seller can perform this action",
            EscrowError::UnauthorizedBuyer => "Unauthorized: only the buyer can perform this action",
            EscrowError::UnauthorizedAdmin => "Unauthorized: only the admin can perform this action",
            EscrowError::NotTimedOut => "Escrow has not timed out yet",
            EscrowError::ZeroAmount => "Escrow amount must be greater than zero",
            EscrowError::ZeroTimeout => "Timeout duration must be greater than zero",
            EscrowError::InvalidResolution => "Invalid dispute resolution: must be 'release' or 'refund'",
            EscrowError::InvalidMint => "Mint does not match escrow",
            EscrowError::TimeoutOverflow => "Timeout calculation overflow",
            EscrowError::TimeoutTooLong => "Timeout exceeds maximum allowed (30 days)",
        }
    }
}

} // verus!
