//! Cancelling an offer: the maker takes the escrowed NFT back and the
//! record closes.  Only the maker the record names may cancel, and the
//! check precedes every effect.

use vstd::prelude::*;
use crate::ledger::{
    canonical_bump, close_account_spec, derive_address, transfer_checked_spec, Address, AssetId,
    Refund, Seeds, TokenHolding,
};
use crate::nft_escrow::error::ErrorCode;
use crate::nft_escrow::handlers::shared::{close_token_account, transfer_tokens};
use crate::nft_escrow::state::NftOffer;

verus! {

/// The accounts `cancel_offer` runs against.
#[derive(Clone, Copy, Debug, PartialEq, Eq, Structural)]
pub struct CancelOffer {
    /// The invocation's signer; the cancellation goes through only when
    /// this user is the maker the record names.
    pub maker: u64,
    /// The NFT mint.
    pub nft_mint: AssetId,
    /// The maker's NFT holding, which receives the returned NFT.
    pub maker_nft_account: TokenHolding,
    /// The record of the offer being cancelled; consumed on success.
    pub offer: NftOffer,
    /// The storage deposit held by the offer record, refunded to the maker
    /// when the record closes.
    pub offer_rent: u64,
    /// The escrow holding keyed by the offer; consumed on success.
    pub nft_vault: TokenHolding,
}

impl CancelOffer {
    /// The structural constraints the runtime checks before the handler
    /// body runs.  The clause `offer.maker == User(maker)` is the
    /// ownership check: a signer other than the stored maker fails here,
    /// before any effect.
    pub open spec fn wf(self) -> bool {
        &&& self.maker_nft_account.owner == Address::User(self.maker)
        &&& self.maker_nft_account.mint == self.nft_mint
        &&& self.offer.maker == Address::User(self.maker)
        &&& self.offer.nft_mint == self.nft_mint
        &&& self.offer.bump == canonical_bump(Seeds::NftOffer { offer_id: self.offer.offer_id })
        &&& self.nft_vault.owner == Address::Derived(
            Seeds::NftOffer { offer_id: self.offer.offer_id },
            self.offer.bump,
        )
        &&& self.nft_vault.mint == self.nft_mint
    }

    /// Evaluates [`Self::wf`] at run time.
    pub fn validate(&self) -> (r: bool)
        ensures
            r == self.wf(),
    {
        let (_, bump) = derive_address(Seeds::NftOffer { offer_id: self.offer.offer_id });
        self.maker_nft_account.owner == Address::User(self.maker)
            && self.maker_nft_account.mint == self.nft_mint
            && self.offer.maker == Address::User(self.maker)
            && self.offer.nft_mint == self.nft_mint
            && self.offer.bump == bump
            && self.nft_vault.owner == Address::Derived(
            Seeds::NftOffer { offer_id: self.offer.offer_id },
            self.offer.bump,
        )
            && self.nft_vault.mint == self.nft_mint
    }
}

/// The write-set of a successful `cancel_offer`.  The offer record and the
/// escrow holding are absent: both are destroyed, their storage deposits
/// refunded to the maker.
#[derive(Clone, Copy, Debug, PartialEq, Eq, Structural)]
pub struct CancelOfferResult {
    pub maker_nft_account: TokenHolding,
    /// The emptied vault's deposit, refunded to the maker.
    pub vault_refund: Refund,
    /// The closed record's deposit, refunded to the maker.
    pub offer_refund: Refund,
}

/// The exact outcome of `cancel_offer` on the given accounts: the NFT
/// return leg and the vault closure, with the error of the first leg that
/// fails.  There is no payment leg.
pub open spec fn cancel_offer_spec(ctx: CancelOffer) -> Result<CancelOfferResult, ErrorCode> {
    let seeds = Seeds::NftOffer { offer_id: ctx.offer.offer_id };
    let authority = Address::Derived(seeds, ctx.offer.bump);
    let signer_seeds = Some((seeds, ctx.offer.bump));
    if !ctx.wf() {
        Err(ErrorCode::InvalidAccounts)
    } else if ctx.nft_vault.amount != 1 {
        Err(ErrorCode::EmptyVault)
    } else {
        match transfer_checked_spec(
            ctx.nft_vault,
            ctx.maker_nft_account,
            1,
            ctx.nft_mint,
            authority,
            signer_seeds,
        ) {
            Err(_) => Err(ErrorCode::FailedNftReturn),
            Ok((vault_emptied, maker_nft)) => match close_account_spec(
                vault_emptied,
                Address::User(ctx.maker),
                authority,
                signer_seeds,
            ) {
                Err(_) => Err(ErrorCode::FailedCancelClosure),
                Ok(vault_refund) => Ok(
                    (CancelOfferResult {
                        maker_nft_account: maker_nft,
                        vault_refund,
                        offer_refund: (Refund {
                            to: Address::User(ctx.maker),
                            amount: ctx.offer_rent,
                        }),
                    }),
                ),
            },
        }
    }
}

/// Cancels an offer: mirrors the NFT leg of `take_offer` but returns the
/// NFT to the maker, closes the emptied vault, and closes the record, both
/// deposits refunded to the maker.  A signer other than the stored maker
/// is rejected before any effect; any error writes nothing.
pub fn cancel_offer(ctx: &CancelOffer) -> (r: Result<CancelOfferResult, ErrorCode>)
    ensures
        r == cancel_offer_spec(*ctx),
        ctx.offer.maker != Address::User(ctx.maker) ==> r == Err::<CancelOfferResult, ErrorCode>(
            ErrorCode::InvalidAccounts,
        ),
        ctx.wf() && ctx.nft_vault.amount != 1 ==> r == Err::<CancelOfferResult, ErrorCode>(
            ErrorCode::EmptyVault,
        ),
        r is Ok <==> ctx.wf() && ctx.nft_vault.amount == 1 && ctx.maker_nft_account.amount
            < u64::MAX,
        r matches Ok(res) ==> {
            &&& res.maker_nft_account == (TokenHolding {
                amount: (ctx.maker_nft_account.amount + 1) as u64,
                ..ctx.maker_nft_account
            })
            &&& res.vault_refund == (Refund {
                to: Address::User(ctx.maker),
                amount: ctx.nft_vault.rent,
            })
            &&& res.offer_refund == (Refund { to: Address::User(ctx.maker), amount: ctx.offer_rent })
        },
{
    if !ctx.validate() {
        return Err(ErrorCode::InvalidAccounts);
    }
    if ctx.nft_vault.amount != 1 {
        return Err(ErrorCode::EmptyVault);
    }
    let seeds = Seeds::NftOffer { offer_id: ctx.offer.offer_id };
    let authority = Address::Derived(seeds, ctx.offer.bump);
    let signer_seeds = Some((seeds, ctx.offer.bump));
    let (vault_emptied, maker_nft) = match transfer_tokens(
        ctx.nft_vault,
        ctx.maker_nft_account,
        1,
        ctx.nft_mint,
        authority,
        signer_seeds,
    ) {
        Err(_) => {
            return Err(ErrorCode::FailedNftReturn);
        },
        Ok(pair) => pair,
    };
    match close_token_account(vault_emptied, Address::User(ctx.maker), authority, signer_seeds) {
        Err(_) => Err(ErrorCode::FailedCancelClosure),
        Ok(vault_refund) => Ok(
            CancelOfferResult {
                maker_nft_account: maker_nft,
                vault_refund,
                offer_refund: Refund { to: Address::User(ctx.maker), amount: ctx.offer_rent },
            },
        ),
    }
}

} // verus!
