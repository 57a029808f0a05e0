//! Laws relating the escrow operations across an offer's whole lifecycle.

use vstd::prelude::*;
use crate::ledger::{canonical_bump, Address, Refund, Seeds, TokenHolding};
use crate::nft_escrow::handlers::cancel_offer::{cancel_offer_spec, CancelOffer};
use crate::nft_escrow::handlers::make_offer::{make_offer_spec, MakeOffer};
use crate::nft_escrow::handlers::take_offer::{take_offer_spec, TakeOffer};

verus! {

/// Law: a successful `make_offer` followed by `cancel_offer` — same maker,
/// on the record and escrow holding the creation produced — succeeds and
/// restores the maker's NFT holding exactly as it was before the offer was
/// made.  The record and the holding are consumed by the cancellation, and
/// both storage deposits come back to the maker.
pub proof fn lemma_make_then_cancel(
    ctx: MakeOffer,
    offer_id: u64,
    token_amount: u64,
    offer_rent: u64,
)
    requires
        make_offer_spec(ctx, offer_id, token_amount) is Ok,
    ensures
        ({
            let made = make_offer_spec(ctx, offer_id, token_amount)->Ok_0;
            let cancelled = cancel_offer_spec(
                (CancelOffer {
                    maker: ctx.maker,
                    nft_mint: ctx.nft_mint,
                    maker_nft_account: made.maker_nft_account,
                    offer: made.offer,
                    offer_rent,
                    nft_vault: made.nft_vault,
                }),
            );
            &&& cancelled is Ok
            &&& cancelled->Ok_0.maker_nft_account == ctx.maker_nft_account
            &&& cancelled->Ok_0.vault_refund == (Refund {
                to: Address::User(ctx.maker),
                amount: ctx.vault_rent,
            })
            &&& cancelled->Ok_0.offer_refund == (Refund {
                to: Address::User(ctx.maker),
                amount: offer_rent,
            })
        }),
{
}

/// Law: a successful `make_offer` followed by `take_offer` from a funded
/// taker succeeds; the taker's NFT holding gains the single unit, the
/// maker's payment holding gains exactly the demanded amount, the taker's
/// payment holding loses it, and the record and escrow holding are
/// consumed — the vault's deposit refunded to the taker, the record's to
/// the maker.  "Funded" is the taker holding at least the demanded
/// amount; the two bounds keep the receiving balances representable.
pub proof fn lemma_make_then_take(
    ctx: MakeOffer,
    offer_id: u64,
    token_amount: u64,
    offer_rent: u64,
    taker: u64,
    taker_payment_account: TokenHolding,
    taker_nft_account: TokenHolding,
    maker_payment_account: TokenHolding,
)
    requires
        make_offer_spec(ctx, offer_id, token_amount) is Ok,
        taker_payment_account.owner == Address::User(taker),
        taker_payment_account.mint == ctx.payment_mint,
        taker_nft_account.owner == Address::User(taker),
        taker_nft_account.mint == ctx.nft_mint,
        maker_payment_account.owner == Address::User(ctx.maker),
        maker_payment_account.mint == ctx.payment_mint,
        taker_payment_account.amount >= token_amount,
        taker_nft_account.amount < u64::MAX,
        maker_payment_account.amount + token_amount <= u64::MAX,
    ensures
        ({
            let made = make_offer_spec(ctx, offer_id, token_amount)->Ok_0;
            let taken = take_offer_spec(
                (TakeOffer {
                    taker,
                    maker: Address::User(ctx.maker),
                    nft_mint: ctx.nft_mint,
                    payment_mint: ctx.payment_mint,
                    taker_payment_account,
                    taker_nft_account,
                    maker_payment_account,
                    offer: made.offer,
                    offer_rent,
                    nft_vault: made.nft_vault,
                }),
            );
            &&& taken is Ok
            &&& taken->Ok_0.taker_nft_account.amount == taker_nft_account.amount + 1
            &&& taken->Ok_0.maker_payment_account.amount == maker_payment_account.amount
                + token_amount
            &&& taken->Ok_0.taker_payment_account.amount == taker_payment_account.amount
                - token_amount
            &&& taken->Ok_0.vault_refund == (Refund {
                to: Address::User(taker),
                amount: ctx.vault_rent,
            })
            &&& taken->Ok_0.offer_refund == (Refund {
                to: Address::User(ctx.maker),
                amount: offer_rent,
            })
        }),
{
}

/// Law: every record a handler creates establishes the escrow invariant —
/// the record demands a positive token amount, its cached bump is the
/// canonical one for its own seeds, and the escrow holding holds exactly
/// one unit of the offered mint, owned by the authority derived from the
/// record's seeds and bump, never by a key-holding user.  The invariant
/// holds for the record's whole life: the only operations that touch the
/// pair, `take_offer` and `cancel_offer`, consume both together.
pub proof fn lemma_make_offer_establishes_escrow(ctx: MakeOffer, offer_id: u64, token_amount: u64)
    requires
        make_offer_spec(ctx, offer_id, token_amount) is Ok,
    ensures
        ({
            let made = make_offer_spec(ctx, offer_id, token_amount)->Ok_0;
            &&& made.offer.token_amount > 0
            &&& made.offer.offer_id == offer_id
            &&& made.offer.bump == canonical_bump(
                Seeds::NftOffer { offer_id },
            )
            &&& made.nft_vault.amount == 1
            &&& made.nft_vault.mint == made.offer.nft_mint
            &&& made.nft_vault.owner == Address::Derived(
                Seeds::NftOffer { offer_id: made.offer.offer_id },
                made.offer.bump,
            )
        }),
{
}

} // verus!
