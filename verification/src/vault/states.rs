//! The per-user vault state record.

use vstd::prelude::*;

verus! {

/// One record per user.  `is_initialized` is the vault's lock flag —
/// `true` freezes deposits and withdrawals, `false` permits them; the
/// field keeps its historical name, but it is a lock bit, not a
/// set-up marker.  `amount` is advisory bookkeeping of the intended
/// balance, written only by `initialize`; the vault's actual balance
/// lives in its token holding.
#[derive(Clone, Copy, Debug, PartialEq, Eq, Structural)]
pub struct VaultState {
    /// The lock flag: `true` means frozen for all transfers.
    pub is_initialized: bool,
    /// Last recorded intended balance; not authoritative.
    pub amount: u64,
    /// Cached bump of the vault's custodial authority, reused to re-derive
    /// the authority that signs withdrawals.
    pub vault_bump: u8,
    /// Cached bump of this state record's own derivation.
    pub state_bump: u8,
}

} // verus!
