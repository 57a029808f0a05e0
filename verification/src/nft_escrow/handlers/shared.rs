//! Transfer helpers shared by the escrow handlers.  Both support a
//! key-holding signer and a derived custodial authority proven by its
//! seeds, so one helper serves the maker's deposit leg and the vault's
//! authority-signed legs alike.

use vstd::prelude::*;
use crate::ledger::{
    close_account, close_account_spec, transfer_checked, transfer_checked_spec, Address, AssetId,
    Refund, Seeds, TokenError, TokenHolding,
};

verus! {

/// Moves `amount` units of `mint` between two holdings.  With
/// `signer_seeds` absent the authority is a key-holding signer; with seeds
/// present the authority is the derived address they reproduce.  Returns
/// the updated pair of holdings (source first); on an error nothing moves.
pub fn transfer_tokens(
    from: TokenHolding,
    to: TokenHolding,
    amount: u64,
    mint: AssetId,
    authority: Address,
    signer_seeds: Option<(Seeds, u8)>,
) -> (r: Result<(TokenHolding, TokenHolding), TokenError>)
    ensures
        r == transfer_checked_spec(from, to, amount, mint, authority, signer_seeds),
{
    transfer_checked(from, to, amount, mint, authority, signer_seeds)
}

/// Destroys an emptied holding and directs its storage deposit to
/// `destination`, with the same two signing modes as [`transfer_tokens`].
pub fn close_token_account(
    token_account: TokenHolding,
    destination: Address,
    authority: Address,
    signer_seeds: Option<(Seeds, u8)>,
) -> (r: Result<Refund, TokenError>)
    ensures
        r == close_account_spec(token_account, destination, authority, signer_seeds),
{
    close_account(token_account, destination, authority, signer_seeds)
}

} // verus!
