//! Creating an offer: escrow one NFT unit in exchange for a demanded
//! amount of payment tokens.

use vstd::prelude::*;
use crate::ledger::{
    canonical_bump, derive_address, transfer_checked_spec, Address, AssetId, Seeds, TokenHolding,
};
use crate::nft_escrow::error::ErrorCode;
use crate::nft_escrow::handlers::shared::transfer_tokens;
use crate::nft_escrow::state::NftOffer;

verus! {

/// The accounts `make_offer` runs against, as the runtime hands them to
/// the handler.
#[derive(Clone, Copy, Debug, PartialEq, Eq, Structural)]
pub struct MakeOffer {
    /// The user creating the offer: the invocation's signer, who pays the
    /// storage deposits.
    pub maker: u64,
    /// The NFT mint being offered.
    pub nft_mint: AssetId,
    /// The mint the maker wants in payment.
    pub payment_mint: AssetId,
    /// The maker's NFT holding; must contain exactly one unit.
    pub maker_nft_account: TokenHolding,
    /// The storage deposit the maker puts into the freshly created escrow
    /// holding; it comes back to whoever closes the emptied vault.
    pub vault_rent: u64,
}

impl MakeOffer {
    /// The structural constraints the runtime checks before the handler
    /// body runs: the offered holding belongs to the maker and carries the
    /// offered mint.
    pub open spec fn wf(self) -> bool {
        &&& self.maker_nft_account.owner == Address::User(self.maker)
        &&& self.maker_nft_account.mint == self.nft_mint
    }

    /// Evaluates [`Self::wf`] at run time.
    pub fn validate(&self) -> (r: bool)
        ensures
            r == self.wf(),
    {
        self.maker_nft_account.owner == Address::User(self.maker)
            && self.maker_nft_account.mint == self.nft_mint
    }
}

/// The write-set of a successful `make_offer`: the new offer record, the
/// escrow holding now containing the NFT, and the maker's emptied NFT
/// holding.  The runtime applies all three writes atomically.
#[derive(Clone, Copy, Debug, PartialEq, Eq, Structural)]
pub struct MakeOfferResult {
    pub offer: NftOffer,
    pub nft_vault: TokenHolding,
    pub maker_nft_account: TokenHolding,
}

/// The exact outcome of `make_offer` on the given accounts and arguments.
pub open spec fn make_offer_spec(
    ctx: MakeOffer,
    offer_id: u64,
    token_amount: u64,
) -> Result<MakeOfferResult, ErrorCode> {
    let seeds = Seeds::NftOffer { offer_id };
    let vault = (TokenHolding {
        owner: Address::Derived(seeds, canonical_bump(seeds)),
        mint: ctx.nft_mint,
        amount: 0,
        rent: ctx.vault_rent,
    });
    if !ctx.wf() {
        Err(ErrorCode::InvalidAccounts)
    } else if token_amount == 0 {
        Err(ErrorCode::InvalidTokenAmount)
    } else if ctx.maker_nft_account.amount != 1 {
        Err(ErrorCode::FailedNftTransfer)
    } else {
        match transfer_checked_spec(
            ctx.maker_nft_account,
            vault,
            1,
            ctx.nft_mint,
            Address::User(ctx.maker),
            None,
        ) {
            Err(_) => Err(ErrorCode::FailedNftTransfer),
            Ok((maker_nft, vault_after)) => Ok(
                (MakeOfferResult {
                    offer: (NftOffer {
                        offer_id,
                        maker: Address::User(ctx.maker),
                        nft_mint: ctx.nft_mint,
                        payment_mint: ctx.payment_mint,
                        token_amount,
                        bump: canonical_bump(seeds),
                    }),
                    nft_vault: vault_after,
                    maker_nft_account: maker_nft,
                }),
            ),
        }
    }
}

/// Creates an offer.  Rejects a zero token amount and a maker holding
/// without exactly one NFT unit; otherwise it moves the single unit into a
/// fresh escrow holding owned by the offer's derived authority and builds
/// the record.  The offer succeeds exactly on well-formed accounts with a
/// positive amount and a single-unit holding; any error writes nothing.
pub fn make_offer(ctx: &MakeOffer, offer_id: u64, token_amount: u64) -> (r: Result<
    MakeOfferResult,
    ErrorCode,
>)
    ensures
        r == make_offer_spec(*ctx, offer_id, token_amount),
        r is Ok <==> ctx.wf() && token_amount > 0 && ctx.maker_nft_account.amount == 1,
        ctx.wf() && token_amount == 0 ==> r == Err::<MakeOfferResult, ErrorCode>(
            ErrorCode::InvalidTokenAmount,
        ),
        r matches Ok(res) ==> {
            &&& res.offer == (NftOffer {
                offer_id,
                maker: Address::User(ctx.maker),
                nft_mint: ctx.nft_mint,
                payment_mint: ctx.payment_mint,
                token_amount,
                bump: canonical_bump(Seeds::NftOffer { offer_id }),
            })
            &&& res.nft_vault.amount == 1
            &&& res.nft_vault.owner == Address::Derived(
                Seeds::NftOffer { offer_id },
                canonical_bump(Seeds::NftOffer { offer_id }),
            )
            &&& res.nft_vault.mint == ctx.nft_mint
            &&& res.nft_vault.rent == ctx.vault_rent
            &&& res.maker_nft_account == (TokenHolding {
                amount: 0,
                ..ctx.maker_nft_account
            })
        },
{
    if !ctx.validate() {
        return Err(ErrorCode::InvalidAccounts);
    }
    if token_amount == 0 {
        return Err(ErrorCode::InvalidTokenAmount);
    }
    if ctx.maker_nft_account.amount != 1 {
        return Err(ErrorCode::FailedNftTransfer);
    }
    let (vault_owner, bump) = derive_address(Seeds::NftOffer { offer_id });
    let vault = TokenHolding {
        owner: vault_owner,
        mint: ctx.nft_mint,
        amount: 0,
        rent: ctx.vault_rent,
    };
    match transfer_tokens(
        ctx.maker_nft_account,
        vault,
        1,
        ctx.nft_mint,
        Address::User(ctx.maker),
        None,
    ) {
        Err(_) => Err(ErrorCode::FailedNftTransfer),
        Ok((maker_nft, nft_vault)) => Ok(
            MakeOfferResult {
                offer: NftOffer {
                    offer_id,
                    maker: Address::User(ctx.maker),
                    nft_mint: ctx.nft_mint,
                    payment_mint: ctx.payment_mint,
                    token_amount,
                    bump,
                },
                nft_vault,
                maker_nft_account: maker_nft,
            },
        ),
    }
}

} // verus!
