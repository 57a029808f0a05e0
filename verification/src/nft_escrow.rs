//! The offer-escrow component: create, fulfil, or cancel a
//! one-NFT-for-N-tokens offer.  An offer's lifecycle is `make_offer`
//! (record created, NFT escrowed) followed by exactly one of `take_offer`
//! or `cancel_offer`, each of which consumes the record and the escrow
//! holding.

pub mod error;
pub mod handlers;
pub mod laws;
pub mod state;

use vstd::prelude::*;
use handlers::cancel_offer::{cancel_offer_spec, CancelOffer, CancelOfferResult};
use handlers::make_offer::{make_offer_spec, MakeOffer, MakeOfferResult};
use handlers::take_offer::{take_offer_spec, TakeOffer, TakeOfferResult};
use error::ErrorCode;

verus! {

/// Creates an NFT offer: escrows the NFT in exchange for tokens.
pub fn make_offer(ctx: &MakeOffer, offer_id: u64, token_amount: u64) -> (r: Result<
    MakeOfferResult,
    ErrorCode,
>)
    ensures
        r == make_offer_spec(*ctx, offer_id, token_amount),
{
    handlers::make_offer::make_offer(ctx, offer_id, token_amount)
}

/// Accepts an NFT offer: pays tokens to receive the NFT.
pub fn take_offer(ctx: &TakeOffer) -> (r: Result<TakeOfferResult, ErrorCode>)
    ensures
        r == take_offer_spec(*ctx),
{
    handlers::take_offer::take_offer(ctx)
}

/// Cancels an NFT offer: returns the NFT to the maker.
pub fn cancel_offer(ctx: &CancelOffer) -> (r: Result<CancelOfferResult, ErrorCode>)
    ensures
        r == cancel_offer_spec(*ctx),
{
    handlers::cancel_offer::cancel_offer(ctx)
}

} // verus!
