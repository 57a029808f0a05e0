//! The offer record: the terms of one NFT-for-token swap.

use vstd::prelude::*;
use crate::ledger::{Address, AssetId};

verus! {

/// One ledger record per active offer.  While the record exists, the
/// escrow holding keyed by it holds exactly one unit of `nft_mint`, owned
/// by the authority derived from the record's own seeds and `bump`.
#[derive(Clone, Copy, Debug, PartialEq, Eq, Structural)]
pub struct NftOffer {
    /// Caller-chosen unique identifier; part of the record's address
    /// derivation, so no two live offers share it.
    pub offer_id: u64,
    /// The user who created the offer; only the maker may cancel it.
    pub maker: Address,
    /// The non-fungible asset escrowed.
    pub nft_mint: AssetId,
    /// The fungible asset the maker demands.
    pub payment_mint: AssetId,
    /// Amount of `payment_mint` required to take the offer; greater than
    /// zero for every record a handler creates.
    pub token_amount: u64,
    /// The cached disambiguation byte of the record's own derivation, kept
    /// so later operations re-derive the escrow authority without
    /// recomputation.
    pub bump: u8,
}

} // verus!
