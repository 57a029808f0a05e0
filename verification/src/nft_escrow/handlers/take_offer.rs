//! Fulfilling an offer: the taker receives the escrowed NFT and pays the
//! demanded tokens to the maker.

use vstd::prelude::*;
use crate::ledger::{
    canonical_bump, close_account_spec, derive_address, transfer_checked_spec, Address, AssetId,
    Refund, Seeds, TokenHolding,
};
use crate::nft_escrow::error::ErrorCode;
use crate::nft_escrow::handlers::shared::{close_token_account, transfer_tokens};
use crate::nft_escrow::state::NftOffer;

verus! {

/// The accounts `take_offer` runs against.
#[derive(Clone, Copy, Debug, PartialEq, Eq, Structural)]
pub struct TakeOffer {
    /// The user accepting the offer: the invocation's signer, who pays the
    /// tokens and receives the NFT.
    pub taker: u64,
    /// The offer's creator, who receives the payment; must be the address
    /// the record names.
    pub maker: Address,
    /// The NFT mint being transferred.
    pub nft_mint: AssetId,
    /// The payment token mint.
    pub payment_mint: AssetId,
    /// The taker's payment holding, the source of the payment.
    pub taker_payment_account: TokenHolding,
    /// The taker's NFT holding, which receives the NFT.
    pub taker_nft_account: TokenHolding,
    /// The maker's payment holding, which receives the payment.
    pub maker_payment_account: TokenHolding,
    /// The record of the offer being taken; consumed on success.
    pub offer: NftOffer,
    /// The storage deposit held by the offer record, refunded to the maker
    /// when the record closes.
    pub offer_rent: u64,
    /// The escrow holding keyed by the offer; consumed on success.
    pub nft_vault: TokenHolding,
}

impl TakeOffer {
    /// The structural constraints the runtime checks before the handler
    /// body runs: each holding belongs to the party and mint the operation
    /// names, the record names this maker and these mints, the cached bump
    /// is the canonical one, and the vault is owned by the offer's derived
    /// authority.
    pub open spec fn wf(self) -> bool {
        &&& self.taker_payment_account.owner == Address::User(self.taker)
        &&& self.taker_payment_account.mint == self.payment_mint
        &&& self.taker_nft_account.owner == Address::User(self.taker)
        &&& self.taker_nft_account.mint == self.nft_mint
        &&& self.maker_payment_account.owner == self.maker
        &&& self.maker_payment_account.mint == self.payment_mint
        &&& self.offer.maker == self.maker
        &&& self.offer.nft_mint == self.nft_mint
        &&& self.offer.payment_mint == self.payment_mint
        &&& self.offer.bump == canonical_bump(Seeds::NftOffer { offer_id: self.offer.offer_id })
        &&& self.nft_vault.owner == Address::Derived(
            Seeds::NftOffer { offer_id: self.offer.offer_id },
            self.offer.bump,
        )
        &&& self.nft_vault.mint == self.nft_mint
    }

    /// Evaluates [`Self::wf`] at run time.
    pub fn validate(&self) -> (r: bool)
        ensures
            r == self.wf(),
    {
        let (_, bump) = derive_address(Seeds::NftOffer { offer_id: self.offer.offer_id });
        self.taker_payment_account.owner == Address::User(self.taker)
            && self.taker_payment_account.mint == self.payment_mint
            && self.taker_nft_account.owner == Address::User(self.taker)
            && self.taker_nft_account.mint == self.nft_mint
            && self.maker_payment_account.owner == self.maker
            && self.maker_payment_account.mint == self.payment_mint
            && self.offer.maker == self.maker
            && self.offer.nft_mint == self.nft_mint
            && self.offer.payment_mint == self.payment_mint
            && self.offer.bump == bump
            && self.nft_vault.owner == Address::Derived(
            Seeds::NftOffer { offer_id: self.offer.offer_id },
            self.offer.bump,
        )
            && self.nft_vault.mint == self.nft_mint
    }
}

/// The write-set of a successful `take_offer`.  The offer record and the
/// escrow holding are absent: both are destroyed, their storage deposits
/// carried by the two refunds.
#[derive(Clone, Copy, Debug, PartialEq, Eq, Structural)]
pub struct TakeOfferResult {
    pub taker_nft_account: TokenHolding,
    pub taker_payment_account: TokenHolding,
    pub maker_payment_account: TokenHolding,
    /// The emptied vault's deposit, refunded to the taker as compensation
    /// for the holdings the taker had to open.
    pub vault_refund: Refund,
    /// The closed record's deposit, refunded to the maker.
    pub offer_refund: Refund,
}

/// The exact outcome of `take_offer` on the given accounts: the NFT leg,
/// the vault closure, and the payment leg, in that order, with the error
/// of the first leg that fails.
pub open spec fn take_offer_spec(ctx: TakeOffer) -> Result<TakeOfferResult, ErrorCode> {
    let seeds = Seeds::NftOffer { offer_id: ctx.offer.offer_id };
    let authority = Address::Derived(seeds, ctx.offer.bump);
    let signer_seeds = Some((seeds, ctx.offer.bump));
    if !ctx.wf() {
        Err(ErrorCode::InvalidAccounts)
    } else if ctx.nft_vault.amount != 1 {
        Err(ErrorCode::EmptyVault)
    } else {
        match transfer_checked_spec(
            ctx.nft_vault,
            ctx.taker_nft_account,
            1,
            ctx.nft_mint,
            authority,
            signer_seeds,
        ) {
            Err(_) => Err(ErrorCode::FailedVaultNftTransfer),
            Ok((vault_emptied, taker_nft)) => match close_account_spec(
                vault_emptied,
                Address::User(ctx.taker),
                authority,
                signer_seeds,
            ) {
                Err(_) => Err(ErrorCode::FailedVaultClosure),
                Ok(vault_refund) => match transfer_checked_spec(
                    ctx.taker_payment_account,
                    ctx.maker_payment_account,
                    ctx.offer.token_amount,
                    ctx.payment_mint,
                    Address::User(ctx.taker),
                    None,
                ) {
                    Err(_) => Err(ErrorCode::InsufficientPaymentBalance),
                    Ok((taker_payment, maker_payment)) => Ok(
                        (TakeOfferResult {
                            taker_nft_account: taker_nft,
                            taker_payment_account: taker_payment,
                            maker_payment_account: maker_payment,
                            vault_refund,
                            offer_refund: (Refund { to: ctx.offer.maker, amount: ctx.offer_rent }),
                        }),
                    ),
                },
            },
        }
    }
}

/// Accepts an offer, in strict order: (1) the NFT moves from the vault to
/// the taker, signed by the offer's derived authority reconstructed from
/// the record's seeds and cached bump — never from a stored key; (2) the
/// emptied vault closes, its deposit refunded to the taker; (3) the
/// payment moves from taker to maker, signed by the taker directly; (4)
/// the record closes, its deposit refunded to the maker.  All four writes
/// are applied atomically or not at all.
pub fn take_offer(ctx: &TakeOffer) -> (r: Result<TakeOfferResult, ErrorCode>)
    ensures
        r == take_offer_spec(*ctx),
        ctx.wf() && ctx.nft_vault.amount != 1 ==> r == Err::<TakeOfferResult, ErrorCode>(
            ErrorCode::EmptyVault,
        ),
        r is Ok <==> {
            &&& ctx.wf()
            &&& ctx.nft_vault.amount == 1
            &&& ctx.taker_nft_account.amount < u64::MAX
            &&& ctx.taker_payment_account.amount >= ctx.offer.token_amount
            &&& ctx.maker_payment_account.amount + ctx.offer.token_amount <= u64::MAX
        },
        r matches Ok(res) ==> {
            &&& res.taker_nft_account.amount == ctx.taker_nft_account.amount + 1
            &&& res.taker_payment_account.amount == ctx.taker_payment_account.amount
                - ctx.offer.token_amount
            &&& res.maker_payment_account.amount == ctx.maker_payment_account.amount
                + ctx.offer.token_amount
            &&& res.vault_refund == (Refund {
                to: Address::User(ctx.taker),
                amount: ctx.nft_vault.rent,
            })
            &&& res.offer_refund == (Refund { to: ctx.offer.maker, amount: ctx.offer_rent })
        },
{
    if !ctx.validate() {
        return Err(ErrorCode::InvalidAccounts);
    }
    if ctx.nft_vault.amount != 1 {
        return Err(ErrorCode::EmptyVault);
    }
    let seeds = Seeds::NftOffer { offer_id: ctx.offer.offer_id };
    let authority = Address::Derived(seeds, ctx.offer.bump);
    let signer_seeds = Some((seeds, ctx.offer.bump));
    let (vault_emptied, taker_nft) = match transfer_tokens(
        ctx.nft_vault,
        ctx.taker_nft_account,
        1,
        ctx.nft_mint,
        authority,
        signer_seeds,
    ) {
        Err(_) => {
            return Err(ErrorCode::FailedVaultNftTransfer);
        },
        Ok(pair) => pair,
    };
    let vault_refund = match close_token_account(
        vault_emptied,
        Address::User(ctx.taker),
        authority,
        signer_seeds,
    ) {
        Err(_) => {
            return Err(ErrorCode::FailedVaultClosure);
        },
        Ok(refund) => refund,
    };
    match transfer_tokens(
        ctx.taker_payment_account,
        ctx.maker_payment_account,
        ctx.offer.token_amount,
        ctx.payment_mint,
        Address::User(ctx.taker),
        None,
    ) {
        Err(_) => Err(ErrorCode::InsufficientPaymentBalance),
        Ok((taker_payment, maker_payment)) => Ok(
            TakeOfferResult {
                taker_nft_account: taker_nft,
                taker_payment_account: taker_payment,
                maker_payment_account: maker_payment,
                vault_refund,
                offer_refund: Refund { to: ctx.offer.maker, amount: ctx.offer_rent },
            },
        ),
    }
}

} // verus!
