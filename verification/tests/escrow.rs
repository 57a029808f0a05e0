use custodial_escrow::ledger::{
    close_account, derive_address, transfer_checked, Address, Refund, Seeds, TokenError,
    TokenHolding,
};
use custodial_escrow::nft_escrow::error::ErrorCode;
use custodial_escrow::nft_escrow::handlers::cancel_offer::CancelOffer;
use custodial_escrow::nft_escrow::handlers::make_offer::MakeOffer;
use custodial_escrow::nft_escrow::handlers::shared::{close_token_account, transfer_tokens};
use custodial_escrow::nft_escrow::handlers::take_offer::TakeOffer;
use custodial_escrow::nft_escrow::{cancel_offer, make_offer, take_offer};

const NFT: u64 = 100;
const PAY: u64 = 200;
const MAKER: u64 = 7;
const TAKER: u64 = 8;

fn maker_nft_account(amount: u64) -> TokenHolding {
    TokenHolding { owner: Address::User(MAKER), mint: NFT, amount, rent: 5 }
}

fn make_ctx() -> MakeOffer {
    MakeOffer {
        maker: MAKER,
        nft_mint: NFT,
        payment_mint: PAY,
        maker_nft_account: maker_nft_account(1),
        vault_rent: 3,
    }
}

fn take_ctx(made: &custodial_escrow::nft_escrow::handlers::make_offer::MakeOfferResult) -> TakeOffer {
    TakeOffer {
        taker: TAKER,
        maker: Address::User(MAKER),
        nft_mint: NFT,
        payment_mint: PAY,
        taker_payment_account: TokenHolding {
            owner: Address::User(TAKER),
            mint: PAY,
            amount: 700,
            rent: 2,
        },
        taker_nft_account: TokenHolding { owner: Address::User(TAKER), mint: NFT, amount: 0, rent: 2 },
        maker_payment_account: TokenHolding {
            owner: Address::User(MAKER),
            mint: PAY,
            amount: 40,
            rent: 2,
        },
        offer: made.offer,
        offer_rent: 11,
        nft_vault: made.nft_vault,
    }
}

fn cancel_ctx(
    made: &custodial_escrow::nft_escrow::handlers::make_offer::MakeOfferResult,
) -> CancelOffer {
    CancelOffer {
        maker: MAKER,
        nft_mint: NFT,
        maker_nft_account: made.maker_nft_account,
        offer: made.offer,
        offer_rent: 11,
        nft_vault: made.nft_vault,
    }
}

#[test]
fn make_offer_zero_amount_fails() {
    let ctx = make_ctx();
    assert_eq!(make_offer(&ctx, 1, 0), Err(ErrorCode::InvalidTokenAmount));
}

#[test]
fn make_offer_requires_exactly_one_nft() {
    let mut ctx = make_ctx();
    ctx.maker_nft_account = maker_nft_account(0);
    assert_eq!(make_offer(&ctx, 1, 500), Err(ErrorCode::FailedNftTransfer));
    ctx.maker_nft_account = maker_nft_account(2);
    assert_eq!(make_offer(&ctx, 1, 500), Err(ErrorCode::FailedNftTransfer));
}

#[test]
fn make_offer_rejects_foreign_nft_account() {
    let mut ctx = make_ctx();
    ctx.maker_nft_account.owner = Address::User(TAKER);
    assert_eq!(make_offer(&ctx, 1, 500), Err(ErrorCode::InvalidAccounts));
}

#[test]
fn make_offer_escrows_the_nft() {
    let ctx = make_ctx();
    let made = make_offer(&ctx, 1, 500).unwrap();
    assert_eq!(made.offer.offer_id, 1);
    assert_eq!(made.offer.token_amount, 500);
    assert_eq!(made.offer.maker, Address::User(MAKER));
    assert_eq!(made.offer.nft_mint, NFT);
    assert_eq!(made.offer.payment_mint, PAY);
    let (expected_owner, expected_bump) = derive_address(Seeds::NftOffer { offer_id: 1 });
    assert_eq!(made.offer.bump, expected_bump);
    assert_eq!(made.nft_vault.owner, expected_owner);
    assert_eq!(made.nft_vault.amount, 1);
    assert_eq!(made.maker_nft_account.amount, 0);
}

#[test]
fn take_offer_full_scenario() {
    // makeOffer(offerId = 1, tokenAmount = 500), then takeOffer by a taker
    // holding 700 payment units.
    let ctx = make_ctx();
    let made = make_offer(&ctx, 1, 500).unwrap();
    let tctx = take_ctx(&made);
    let taken = take_offer(&tctx).unwrap();
    assert_eq!(taken.taker_nft_account.amount, 1);
    assert_eq!(taken.taker_payment_account.amount, 200);
    assert_eq!(taken.maker_payment_account.amount, 540);
    assert_eq!(taken.vault_refund, Refund { to: Address::User(TAKER), amount: 3 });
    assert_eq!(taken.offer_refund, Refund { to: Address::User(MAKER), amount: 11 });
}

#[test]
fn take_offer_empty_vault_fails() {
    let ctx = make_ctx();
    let made = make_offer(&ctx, 1, 500).unwrap();
    let mut tctx = take_ctx(&made);
    tctx.nft_vault.amount = 0;
    assert_eq!(take_offer(&tctx), Err(ErrorCode::EmptyVault));
}

#[test]
fn take_offer_underfunded_taker_fails() {
    let ctx = make_ctx();
    let made = make_offer(&ctx, 1, 500).unwrap();
    let mut tctx = take_ctx(&made);
    tctx.taker_payment_account.amount = 499;
    assert_eq!(take_offer(&tctx), Err(ErrorCode::InsufficientPaymentBalance));
}

#[test]
fn take_offer_rejects_wrong_maker_account() {
    let ctx = make_ctx();
    let made = make_offer(&ctx, 1, 500).unwrap();
    let mut tctx = take_ctx(&made);
    tctx.maker = Address::User(TAKER);
    tctx.maker_payment_account.owner = Address::User(TAKER);
    assert_eq!(take_offer(&tctx), Err(ErrorCode::InvalidAccounts));
}

#[test]
fn cancel_offer_restores_maker() {
    let ctx = make_ctx();
    let made = make_offer(&ctx, 1, 500).unwrap();
    let cancelled = cancel_offer(&cancel_ctx(&made)).unwrap();
    assert_eq!(cancelled.maker_nft_account, ctx.maker_nft_account);
    assert_eq!(cancelled.vault_refund, Refund { to: Address::User(MAKER), amount: 3 });
    assert_eq!(cancelled.offer_refund, Refund { to: Address::User(MAKER), amount: 11 });
}

#[test]
fn cancel_offer_by_other_signer_fails() {
    let ctx = make_ctx();
    let made = make_offer(&ctx, 1, 500).unwrap();
    let mut cctx = cancel_ctx(&made);
    cctx.maker = TAKER;
    cctx.maker_nft_account.owner = Address::User(TAKER);
    assert_eq!(cancel_offer(&cctx), Err(ErrorCode::InvalidAccounts));
}

#[test]
fn cancel_offer_empty_vault_fails() {
    let ctx = make_ctx();
    let made = make_offer(&ctx, 1, 500).unwrap();
    let mut cctx = cancel_ctx(&made);
    cctx.nft_vault.amount = 0;
    assert_eq!(cancel_offer(&cctx), Err(ErrorCode::EmptyVault));
}

#[test]
fn derive_address_is_deterministic() {
    let a = derive_address(Seeds::NftOffer { offer_id: 42 });
    let b = derive_address(Seeds::NftOffer { offer_id: 42 });
    assert_eq!(a, b);
    let c = derive_address(Seeds::Vault { user: 42 });
    assert_ne!(a.0, c.0);
}

#[test]
fn transfer_rejects_wrong_mint() {
    let from = TokenHolding { owner: Address::User(1), mint: NFT, amount: 5, rent: 0 };
    let to = TokenHolding { owner: Address::User(2), mint: PAY, amount: 0, rent: 0 };
    assert_eq!(
        transfer_tokens(from, to, 1, NFT, Address::User(1), None),
        Err(TokenError::MintMismatch)
    );
}

#[test]
fn transfer_rejects_foreign_authority() {
    let from = TokenHolding { owner: Address::User(1), mint: NFT, amount: 5, rent: 0 };
    let to = TokenHolding { owner: Address::User(2), mint: NFT, amount: 0, rent: 0 };
    assert_eq!(
        transfer_tokens(from, to, 1, NFT, Address::User(2), None),
        Err(TokenError::AuthorityMismatch)
    );
}

#[test]
fn transfer_rejects_wrong_signer_seeds() {
    let (owner, bump) = derive_address(Seeds::NftOffer { offer_id: 1 });
    let from = TokenHolding { owner, mint: NFT, amount: 1, rent: 0 };
    let to = TokenHolding { owner: Address::User(2), mint: NFT, amount: 0, rent: 0 };
    // The right seeds with the wrong bump do not re-derive the authority.
    assert_eq!(
        transfer_checked(
            from,
            to,
            1,
            NFT,
            owner,
            Some((Seeds::NftOffer { offer_id: 1 }, bump.wrapping_add(1))),
        ),
        Err(TokenError::AuthorityMismatch)
    );
    // The exact seeds and bump do.
    let (moved_from, moved_to) = transfer_checked(
        from,
        to,
        1,
        NFT,
        owner,
        Some((Seeds::NftOffer { offer_id: 1 }, bump)),
    )
    .unwrap();
    assert_eq!(moved_from.amount, 0);
    assert_eq!(moved_to.amount, 1);
}

#[test]
fn transfer_rejects_insufficient_funds_and_overflow() {
    let from = TokenHolding { owner: Address::User(1), mint: PAY, amount: 5, rent: 0 };
    let to = TokenHolding { owner: Address::User(2), mint: PAY, amount: u64::MAX, rent: 0 };
    assert_eq!(
        transfer_tokens(from, to, 6, PAY, Address::User(1), None),
        Err(TokenError::InsufficientFunds)
    );
    assert_eq!(
        transfer_tokens(from, to, 5, PAY, Address::User(1), None),
        Err(TokenError::Overflow)
    );
}

#[test]
fn close_refuses_nonempty_account() {
    let acct = TokenHolding { owner: Address::User(1), mint: NFT, amount: 1, rent: 9 };
    assert_eq!(
        close_token_account(acct, Address::User(2), Address::User(1), None),
        Err(TokenError::NonEmptyAccount)
    );
    let emptied = TokenHolding { amount: 0, ..acct };
    assert_eq!(
        close_account(emptied, Address::User(2), Address::User(1), None),
        Ok(Refund { to: Address::User(2), amount: 9 })
    );
}
