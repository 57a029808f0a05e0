//! Errors of the offer-escrow handlers.  Each handler wraps a primitive's
//! failure into the variant naming the leg that failed, so a caller can
//! tell which step of a multi-leg operation went wrong.

use vstd::prelude::*;

verus! {

/// One discrete error per failed invocation; a failing handler writes
/// nothing, so no variant ever reports a partial effect.
#[derive(Clone, Copy, Debug, PartialEq, Eq, Structural)]
pub enum ErrorCode {
    /// An account handed to the handler fails the structural constraints
    /// the runtime checks before the handler body runs: a wrong mint, a
    /// wrong owning authority, a non-canonical derivation, or a caller who
    /// is not the party the record names.
    InvalidAccounts,
    /// The token amount demanded by an offer must be greater than zero.
    InvalidTokenAmount,
    /// Escrowing the NFT failed: the maker's holding does not contain
    /// exactly one unit, or the transfer into the vault was refused.
    FailedNftTransfer,
    /// Transferring the NFT out of the vault to the taker failed.
    FailedVaultNftTransfer,
    /// Closing the emptied NFT vault during `take_offer` failed.
    FailedVaultClosure,
    /// Transferring payment tokens failed.
    FailedPaymentTransfer,
    /// The taker's balance cannot cover the offer's payment amount.
    InsufficientPaymentBalance,
    /// Returning the NFT to the maker during cancellation failed.
    FailedNftReturn,
    /// Closing the NFT vault during cancellation failed.
    FailedCancelClosure,
    /// The NFT vault does not hold exactly one unit, so the offer cannot
    /// be completed.
    EmptyVault,
}

} // verus!
