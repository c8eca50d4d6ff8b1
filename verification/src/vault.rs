//! The custody vault model and the exclusive-custody invariant.

use vstd::prelude::*;
use crate::state::{EscrowState, same_key};

verus! {

/// The custody account holding the locked amount.
///
/// The vault's controlling authority is derived from the record's
/// `(trade_id, seller)` pair and is exercised only by the engine's own
/// operations: no external caller moves value out of an open vault.  The
/// engine settles a vault exactly once — the value movement and the closure
/// are a single step, so no state with funds moved but the account still
/// open is ever observable.
#[derive(Clone, Copy, PartialEq, Eq, Debug)]
pub struct Vault {
    /// Trade identifier the controlling authority was derived from.
    pub authority_trade_id: [u8; 16],
    /// Seller identity the controlling authority was derived from.
    pub authority_seller: [u8; 32],
    /// The balance held in custody.
    pub balance: u64,
    /// Whether the account is still open; a closed vault holds nothing.
    pub is_open: bool,
}

/// The payout instruction the engine hands to the value ledger when it
/// settles a vault: move `amount` of the recorded asset to `recipient`.
#[derive(Clone, Copy, PartialEq, Eq, Debug)]
pub struct Payout {
    /// The party receiving the escrowed funds.
    pub recipient: [u8; 32],
    /// The quantity moved, always the full recorded amount.
    pub amount: u64,
}

impl Vault {
    /// The vault's controlling authority is the one derived from this
    /// record's `(trade_id, seller)` pair.
    pub open spec fn controlled_by(self, s: EscrowState) -> bool {
        &&& self.authority_trade_id@ == s.trade_id@
        &&& same_key(self.authority_seller, s.seller)
    }
}

/// The exclusive-custody invariant tying a record to its vault:
/// while the record can still settle, the vault is open and holds exactly
/// the recorded amount; once the record is terminal, the vault is closed
/// and empty.
pub open spec fn custody_ok(s: EscrowState, v: Vault) -> bool {
    &&& v.controlled_by(s)
    &&& s.status.holds_funds() ==> v.is_open && v.balance == s.amount
    &&& s.status.is_terminal() ==> !v.is_open && v.balance == 0
}

} // verus!
