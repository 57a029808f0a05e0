//! The ledger boundary that both state machines run on: addresses, derived
//! custodial authorities, token holdings, and the checked transfer and close
//! primitives.  Each primitive is specified exactly: what it returns, when
//! it fails, and that a failure changes nothing.

use vstd::prelude::*;

verus! {

/// Identifier of an asset class (a token mint), fungible or not.
pub type AssetId = u64;

/// Seeds from which the ledger derives a custodial address.  Each variant
/// names one family of derived accounts and carries the value that makes
/// the address unique within it.
#[derive(Clone, Copy, Debug, PartialEq, Eq, Structural)]
pub enum Seeds {
    /// The record of one offer, keyed by the caller-chosen offer id.
    NftOffer { offer_id: u64 },
    /// The custodial authority of one user's vault.
    Vault { user: u64 },
    /// The state record of one user's vault.
    State { user: u64 },
}

/// An address on the ledger: either a user's key-holding address, or an
/// address derived from seeds plus a disambiguation byte.  A derived
/// address has no key; spending from it is authorized only by reproducing
/// the exact seeds and byte it was derived from.
#[derive(Clone, Copy, Debug, PartialEq, Eq, Structural)]
pub enum Address {
    User(u64),
    Derived(Seeds, u8),
}

/// The disambiguation byte ("bump") that the canonical derivation picks for
/// the given seeds.  The model folds the numeric seed into a byte; all that
/// callers rely on is that the choice is a function of the seeds alone, so
/// a cached bump re-derives the same address on every later call.
pub open spec fn canonical_bump(seeds: Seeds) -> u8 {
    match seeds {
        Seeds::NftOffer { offer_id } => (offer_id % 256) as u8,
        Seeds::Vault { user } => (user % 256) as u8,
        Seeds::State { user } => (user % 256) as u8,
    }
}

/// Derives the custodial address for the given seeds, returning the address
/// and the bump.  Deterministic: the same seeds always give the same pair.
pub fn derive_address(seeds: Seeds) -> (r: (Address, u8))
    ensures
        r.0 == Address::Derived(seeds, canonical_bump(seeds)),
        r.1 == canonical_bump(seeds),
{
    let bump: u8 = match seeds {
        Seeds::NftOffer { offer_id } => (offer_id % 256) as u8,
        Seeds::Vault { user } => (user % 256) as u8,
        Seeds::State { user } => (user % 256) as u8,
    };
    (Address::Derived(seeds, bump), bump)
}

/// One token account: a balance of `mint` owned by `owner`, together with
/// the storage deposit that was paid to create the account and that comes
/// back when it is closed.
#[derive(Clone, Copy, Debug, PartialEq, Eq, Structural)]
pub struct TokenHolding {
    pub owner: Address,
    pub mint: AssetId,
    pub amount: u64,
    pub rent: u64,
}

/// The storage deposit of a destroyed account or record, refunded to `to`.
#[derive(Clone, Copy, Debug, PartialEq, Eq, Structural)]
pub struct Refund {
    pub to: Address,
    pub amount: u64,
}

/// Failures of the token primitives.
#[derive(Clone, Copy, Debug, PartialEq, Eq, Structural)]
pub enum TokenError {
    /// A holding does not carry the asset named in the call.
    MintMismatch,
    /// The presented authority does not own the source holding, or the
    /// signer material does not prove the authority.
    AuthorityMismatch,
    /// The source holding's balance is below the requested amount.
    InsufficientFunds,
    /// The destination balance would exceed the largest representable value.
    Overflow,
    /// A holding cannot be closed while it still holds a balance.
    NonEmptyAccount,
}

/// Whether the presented signer material proves the right to act as
/// `authority`.  A key-holding user signs directly, with no seeds (the
/// surrounding runtime has already checked the key's signature).  A derived
/// address is proven by reproducing exactly the seeds and bump it was
/// derived from; no other material spends from it.
pub open spec fn signs_for(authority: Address, signer_seeds: Option<(Seeds, u8)>) -> bool {
    match signer_seeds {
        None => authority is User,
        Some(sb) => authority == Address::Derived(sb.0, sb.1),
    }
}

/// What `transfer_checked` returns: either the pair of updated holdings
/// (source first), or the error naming the first check that failed.
pub open spec fn transfer_checked_spec(
    from: TokenHolding,
    to: TokenHolding,
    amount: u64,
    mint: AssetId,
    authority: Address,
    signer_seeds: Option<(Seeds, u8)>,
) -> Result<(TokenHolding, TokenHolding), TokenError> {
    if from.mint != mint || to.mint != mint {
        Err(TokenError::MintMismatch)
    } else if authority != from.owner || !signs_for(authority, signer_seeds) {
        Err(TokenError::AuthorityMismatch)
    } else if from.amount < amount {
        Err(TokenError::InsufficientFunds)
    } else if to.amount + amount > u64::MAX {
        Err(TokenError::Overflow)
    } else {
        Ok((
            (TokenHolding {
                owner: from.owner,
                mint: from.mint,
                amount: (from.amount - amount) as u64,
                rent: from.rent,
            }),
            (TokenHolding {
                owner: to.owner,
                mint: to.mint,
                amount: (to.amount + amount) as u64,
                rent: to.rent,
            }),
        ))
    }
}

/// Moves `amount` units of `mint` from one holding to another.  The caller
/// proves authority over the source either as a key-holding signer or by
/// reproducing a derived address's seeds and bump.  Returns the updated
/// pair of holdings; on any failure nothing moves.
pub fn transfer_checked(
    from: TokenHolding,
    to: TokenHolding,
    amount: u64,
    mint: AssetId,
    authority: Address,
    signer_seeds: Option<(Seeds, u8)>,
) -> (r: Result<(TokenHolding, TokenHolding), TokenError>)
    ensures
        r == transfer_checked_spec(from, to, amount, mint, authority, signer_seeds),
{
    if from.mint != mint || to.mint != mint {
        return Err(TokenError::MintMismatch);
    }
    let signed: bool = match (authority, signer_seeds) {
        (Address::User(_), None) => true,
        (Address::Derived(s, b), Some((s2, b2))) => s == s2 && b == b2,
        _ => false,
    };
    if authority != from.owner || !signed {
        return Err(TokenError::AuthorityMismatch);
    }
    if from.amount < amount {
        return Err(TokenError::InsufficientFunds);
    }
    if amount > u64::MAX - to.amount {
        return Err(TokenError::Overflow);
    }
    Ok((
        TokenHolding {
            owner: from.owner,
            mint: from.mint,
            amount: from.amount - amount,
            rent: from.rent,
        },
        TokenHolding {
            owner: to.owner,
            mint: to.mint,
            amount: to.amount + amount,
            rent: to.rent,
        },
    ))
}

/// What `close_account` returns: the refund of the holding's storage
/// deposit, or the error naming the first check that failed.
pub open spec fn close_account_spec(
    acct: TokenHolding,
    destination: Address,
    authority: Address,
    signer_seeds: Option<(Seeds, u8)>,
) -> Result<Refund, TokenError> {
    if authority != acct.owner || !signs_for(authority, signer_seeds) {
        Err(TokenError::AuthorityMismatch)
    } else if acct.amount != 0 {
        Err(TokenError::NonEmptyAccount)
    } else {
        Ok((Refund { to: destination, amount: acct.rent }))
    }
}

/// Destroys an emptied holding and directs its storage deposit to
/// `destination`.  Only the holding's owner — proven as in
/// [`transfer_checked`] — may close it, and only once its balance is zero.
pub fn close_account(
    acct: TokenHolding,
    destination: Address,
    authority: Address,
    signer_seeds: Option<(Seeds, u8)>,
) -> (r: Result<Refund, TokenError>)
    ensures
        r == close_account_spec(acct, destination, authority, signer_seeds),
{
    let signed: bool = match (authority, signer_seeds) {
        (Address::User(_), None) => true,
        (Address::Derived(s, b), Some((s2, b2))) => s == s2 && b == b2,
        _ => false,
    };
    if authority != acct.owner || !signed {
        return Err(TokenError::AuthorityMismatch);
    }
    if acct.amount != 0 {
        return Err(TokenError::NonEmptyAccount);
    }
    Ok(Refund { to: destination, amount: acct.rent })
}

} // verus!
