//! The deposit/lock vault: a per-user single-asset custodial vault whose
//! binary lock flag gates deposits and withdrawals.  Deposits are signed
//! by the user directly; withdrawals are signed by the vault's derived
//! custodial authority, reconstructed from the cached bump — the vault's
//! custody mechanism, structurally the same as the offer escrow's.

pub mod states;

use vstd::prelude::*;
use crate::ledger::{
    canonical_bump, derive_address, transfer_checked, transfer_checked_spec, Address, AssetId,
    Seeds, TokenError, TokenHolding,
};
use states::VaultState;

verus! {

/// Errors the vault's own checks raise.
#[derive(Clone, Copy, Debug, PartialEq, Eq, Structural)]
pub enum Errors {
    /// The vault's lock flag is set: deposits and withdrawals are frozen.
    VaultInitialized,
}

/// A failed vault invocation: the account validation stage, one of the
/// vault's own checks, or a token primitive whose failure propagates
/// uninterpreted.  Whatever the variant, a failed invocation writes
/// nothing.
#[derive(Clone, Copy, Debug, PartialEq, Eq, Structural)]
pub enum VaultError {
    /// An account fails the structural constraints checked before the
    /// handler body runs.
    InvalidAccounts,
    /// One of the vault's own checks failed.
    Vault(Errors),
    /// A token primitive failed.
    Token(TokenError),
}

/// The accounts `initialize` runs against.
#[derive(Clone, Copy, Debug, PartialEq, Eq, Structural)]
pub struct Initialize {
    /// The vault's user: the invocation's signer.
    pub user: u64,
    /// The user's own holding of the vault's asset.
    pub user_ata: TokenHolding,
    /// The user's state record, created zeroed on first use.
    pub state: VaultState,
    /// The single asset this vault holds.
    pub vault_mint: AssetId,
    /// The vault's custodial holding, owned by the derived authority.
    pub vault_ata: TokenHolding,
}

/// The accounts `deposit`, `withdraw`, `lock` and `unlock` run against;
/// the same shape as [`Initialize`].
#[derive(Clone, Copy, Debug, PartialEq, Eq, Structural)]
pub struct Operations {
    /// The vault's user: the invocation's signer.
    pub user: u64,
    /// The user's own holding of the vault's asset.
    pub user_ata: TokenHolding,
    /// The user's state record.
    pub state: VaultState,
    /// The single asset this vault holds.
    pub vault_mint: AssetId,
    /// The vault's custodial holding, owned by the derived authority.
    pub vault_ata: TokenHolding,
}

/// The structural constraints the runtime checks on a vault context before
/// any handler body runs: the user's holding belongs to the user, both
/// holdings carry the vault's asset, and the custodial holding is owned by
/// the authority derived from the user's vault seeds — never by the user
/// directly.
pub open spec fn vault_accounts_wf(
    user: u64,
    user_ata: TokenHolding,
    vault_mint: AssetId,
    vault_ata: TokenHolding,
) -> bool {
    &&& user_ata.owner == Address::User(user)
    &&& user_ata.mint == vault_mint
    &&& vault_ata.mint == vault_mint
    &&& vault_ata.owner == Address::Derived(
        Seeds::Vault { user },
        canonical_bump(Seeds::Vault { user }),
    )
}

/// Evaluates [`vault_accounts_wf`] at run time.
fn validate_vault_accounts(
    user: u64,
    user_ata: &TokenHolding,
    vault_mint: AssetId,
    vault_ata: &TokenHolding,
) -> (r: bool)
    ensures
        r == vault_accounts_wf(user, *user_ata, vault_mint, *vault_ata),
{
    let (vault_authority, _) = derive_address(Seeds::Vault { user });
    user_ata.owner == Address::User(user) && user_ata.mint == vault_mint
        && vault_ata.mint == vault_mint && vault_ata.owner == vault_authority
}

impl Initialize {
    /// The constraints the runtime checks on this context.
    pub open spec fn wf(self) -> bool {
        vault_accounts_wf(self.user, self.user_ata, self.vault_mint, self.vault_ata)
    }

    /// The exact outcome of `initialize`: the state record rewritten with
    /// the supplied advisory amount, both freshly derived bumps, and the
    /// lock flag cleared.  No tokens move.  Re-invoking on an existing
    /// record rewrites it the same way — the creation is idempotent.
    pub open spec fn initialize_spec(pre: Initialize, amount: u64) -> Result<Initialize, VaultError> {
        if !pre.wf() {
            Err(VaultError::InvalidAccounts)
        } else {
            Ok(
                (Initialize {
                    state: (VaultState {
                        is_initialized: false,
                        amount,
                        vault_bump: canonical_bump(Seeds::Vault { user: pre.user }),
                        state_bump: canonical_bump(Seeds::State { user: pre.user }),
                    }),
                    ..pre
                }),
            )
        }
    }

    /// Initializes the vault state: records the advisory amount, caches
    /// the two derivation bumps, and leaves the vault unlocked.  Moves no
    /// tokens.
    pub fn initialize(&mut self, amount: u64) -> (r: Result<(), VaultError>)
        ensures
            match Self::initialize_spec(*old(self), amount) {
                Ok(post) => r is Ok && *final(self) == post,
                Err(e) => r == Err::<(), VaultError>(e) && *final(self) == *old(self),
            },
            final(self).user_ata == old(self).user_ata,
            final(self).vault_ata == old(self).vault_ata,
            r is Ok ==> !final(self).state.is_initialized && final(self).state.amount == amount,
    {
        if !validate_vault_accounts(self.user, &self.user_ata, self.vault_mint, &self.vault_ata) {
            return Err(VaultError::InvalidAccounts);
        }
        let (_, vault_bump) = derive_address(Seeds::Vault { user: self.user });
        let (_, state_bump) = derive_address(Seeds::State { user: self.user });
        self.state = VaultState { is_initialized: false, amount, vault_bump, state_bump };
        Ok(())
    }
}

impl Operations {
    /// The constraints the runtime checks on this context.
    pub open spec fn wf(self) -> bool {
        vault_accounts_wf(self.user, self.user_ata, self.vault_mint, self.vault_ata)
    }

    /// The exact outcome of `deposit`: with the vault unlocked, the amount
    /// moves from the user's holding to the custodial holding, signed by
    /// the user; the state record is untouched.
    pub open spec fn deposit_spec(pre: Operations, amount: u64) -> Result<Operations, VaultError> {
        if !pre.wf() {
            Err(VaultError::InvalidAccounts)
        } else if pre.state.is_initialized {
            Err(VaultError::Vault(Errors::VaultInitialized))
        } else {
            match transfer_checked_spec(
                pre.user_ata,
                pre.vault_ata,
                amount,
                pre.vault_mint,
                Address::User(pre.user),
                None,
            ) {
                Err(e) => Err(VaultError::Token(e)),
                Ok((user_ata, vault_ata)) => Ok((Operations { user_ata, vault_ata, ..pre })),
            }
        }
    }

    /// The exact outcome of `withdraw`: with the vault unlocked, the
    /// amount moves from the custodial holding back to the user, signed by
    /// the authority re-derived from the vault seeds and the *cached*
    /// bump.  A record whose cached bump is not the canonical one cannot
    /// reproduce the authority, so the transfer is refused.
    pub open spec fn withdraw_spec(pre: Operations, amount: u64) -> Result<Operations, VaultError> {
        if !pre.wf() {
            Err(VaultError::InvalidAccounts)
        } else if pre.state.is_initialized {
            Err(VaultError::Vault(Errors::VaultInitialized))
        } else {
            match transfer_checked_spec(
                pre.vault_ata,
                pre.user_ata,
                amount,
                pre.vault_mint,
                Address::Derived(Seeds::Vault { user: pre.user }, pre.state.vault_bump),
                Some((Seeds::Vault { user: pre.user }, pre.state.vault_bump)),
            ) {
                Err(e) => Err(VaultError::Token(e)),
                Ok((vault_ata, user_ata)) => Ok((Operations { user_ata, vault_ata, ..pre })),
            }
        }
    }

    /// Deposits `amount` into the vault.  Frozen while the lock flag is
    /// set; succeeds exactly when the vault is unlocked, the user's
    /// balance covers the amount, and the vault's balance stays
    /// representable.  Never changes the state record.
    pub fn deposit(&mut self, amount: u64) -> (r: Result<(), VaultError>)
        ensures
            match Self::deposit_spec(*old(self), amount) {
                Ok(post) => r is Ok && *final(self) == post,
                Err(e) => r == Err::<(), VaultError>(e) && *final(self) == *old(self),
            },
            old(self).wf() && old(self).state.is_initialized ==> r == Err::<(), VaultError>(
                VaultError::Vault(Errors::VaultInitialized),
            ) && *final(self) == *old(self),
            r is Ok <==> {
                &&& old(self).wf()
                &&& !old(self).state.is_initialized
                &&& old(self).user_ata.amount >= amount
                &&& old(self).vault_ata.amount + amount <= u64::MAX
            },
            r is Ok ==> {
                &&& final(self).user_ata.amount == old(self).user_ata.amount - amount
                &&& final(self).vault_ata.amount == old(self).vault_ata.amount + amount
            },
            final(self).state == old(self).state,
            final(self).user == old(self).user,
            final(self).vault_mint == old(self).vault_mint,
    {
        if !validate_vault_accounts(self.user, &self.user_ata, self.vault_mint, &self.vault_ata) {
            return Err(VaultError::InvalidAccounts);
        }
        if self.state.is_initialized {
            return Err(VaultError::Vault(Errors::VaultInitialized));
        }
        match transfer_checked(
            self.user_ata,
            self.vault_ata,
            amount,
            self.vault_mint,
            Address::User(self.user),
            None,
        ) {
            Err(e) => Err(VaultError::Token(e)),
            Ok((user_ata, vault_ata)) => {
                self.user_ata = user_ata;
                self.vault_ata = vault_ata;
                Ok(())
            },
        }
    }

    /// Withdraws `amount` from the vault, signed by the derived custodial
    /// authority — the user's key never owns the vault's holding.  Frozen
    /// while the lock flag is set; succeeds exactly when the vault is
    /// unlocked, the cached bump re-derives the vault authority, the
    /// vault's balance covers the amount, and the user's balance stays
    /// representable.  Never changes the state record.
    pub fn withdraw(&mut self, amount: u64) -> (r: Result<(), VaultError>)
        ensures
            match Self::withdraw_spec(*old(self), amount) {
                Ok(post) => r is Ok && *final(self) == post,
                Err(e) => r == Err::<(), VaultError>(e) && *final(self) == *old(self),
            },
            old(self).wf() && old(self).state.is_initialized ==> r == Err::<(), VaultError>(
                VaultError::Vault(Errors::VaultInitialized),
            ) && *final(self) == *old(self),
            r is Ok <==> {
                &&& old(self).wf()
                &&& !old(self).state.is_initialized
                &&& old(self).state.vault_bump == canonical_bump(
                    Seeds::Vault { user: old(self).user },
                )
                &&& old(self).vault_ata.amount >= amount
                &&& old(self).user_ata.amount + amount <= u64::MAX
            },
            r is Ok ==> {
                &&& final(self).vault_ata.amount == old(self).vault_ata.amount - amount
                &&& final(self).user_ata.amount == old(self).user_ata.amount + amount
            },
            final(self).state == old(self).state,
            final(self).user == old(self).user,
            final(self).vault_mint == old(self).vault_mint,
    {
        if !validate_vault_accounts(self.user, &self.user_ata, self.vault_mint, &self.vault_ata) {
            return Err(VaultError::InvalidAccounts);
        }
        if self.state.is_initialized {
            return Err(VaultError::Vault(Errors::VaultInitialized));
        }
        match transfer_checked(
            self.vault_ata,
            self.user_ata,
            amount,
            self.vault_mint,
            Address::Derived(Seeds::Vault { user: self.user }, self.state.vault_bump),
            Some((Seeds::Vault { user: self.user }, self.state.vault_bump)),
        ) {
            Err(e) => Err(VaultError::Token(e)),
            Ok((vault_ata, user_ata)) => {
                self.user_ata = user_ata;
                self.vault_ata = vault_ata;
                Ok(())
            },
        }
    }

    /// Sets the lock flag, freezing deposits and withdrawals.  Touches
    /// nothing but the flag: both holdings' balances are left as they are.
    pub fn lock_vault(&mut self) -> (r: Result<(), VaultError>)
        ensures
            old(self).wf() ==> r is Ok && final(self).state == (VaultState {
                is_initialized: true,
                ..old(self).state
            }),
            !old(self).wf() ==> r == Err::<(), VaultError>(VaultError::InvalidAccounts)
                && *final(self) == *old(self),
            final(self).user_ata == old(self).user_ata,
            final(self).vault_ata == old(self).vault_ata,
            final(self).user == old(self).user,
            final(self).vault_mint == old(self).vault_mint,
    {
        if !validate_vault_accounts(self.user, &self.user_ata, self.vault_mint, &self.vault_ata) {
            return Err(VaultError::InvalidAccounts);
        }
        self.state = VaultState { is_initialized: true, ..self.state };
        Ok(())
    }

    /// Clears the lock flag, permitting deposits and withdrawals again.
    /// Touches nothing but the flag.
    pub fn unlock_vault(&mut self) -> (r: Result<(), VaultError>)
        ensures
            old(self).wf() ==> r is Ok && final(self).state == (VaultState {
                is_initialized: false,
                ..old(self).state
            }),
            !old(self).wf() ==> r == Err::<(), VaultError>(VaultError::InvalidAccounts)
                && *final(self) == *old(self),
            final(self).user_ata == old(self).user_ata,
            final(self).vault_ata == old(self).vault_ata,
            final(self).user == old(self).user,
            final(self).vault_mint == old(self).vault_mint,
    {
        if !validate_vault_accounts(self.user, &self.user_ata, self.vault_mint, &self.vault_ata) {
            return Err(VaultError::InvalidAccounts);
        }
        self.state = VaultState { is_initialized: false, ..self.state };
        Ok(())
    }
}

/// Initializes the vault state for a user.
pub fn initialize(ctx: &mut Initialize, amount: u64) -> (r: Result<(), VaultError>)
    ensures
        match Initialize::initialize_spec(*old(ctx), amount) {
            Ok(post) => r is Ok && *final(ctx) == post,
            Err(e) => r == Err::<(), VaultError>(e) && *final(ctx) == *old(ctx),
        },
        final(ctx).user_ata == old(ctx).user_ata,
        final(ctx).vault_ata == old(ctx).vault_ata,
{
    ctx.initialize(amount)
}

/// Deposits tokens into the user's vault.
pub fn deposit(ctx: &mut Operations, amount: u64) -> (r: Result<(), VaultError>)
    ensures
        match Operations::deposit_spec(*old(ctx), amount) {
            Ok(post) => r is Ok && *final(ctx) == post,
            Err(e) => r == Err::<(), VaultError>(e) && *final(ctx) == *old(ctx),
        },
{
    ctx.deposit(amount)
}

/// Withdraws tokens from the user's vault.
pub fn withdraw(ctx: &mut Operations, amount: u64) -> (r: Result<(), VaultError>)
    ensures
        match Operations::withdraw_spec(*old(ctx), amount) {
            Ok(post) => r is Ok && *final(ctx) == post,
            Err(e) => r == Err::<(), VaultError>(e) && *final(ctx) == *old(ctx),
        },
{
    ctx.withdraw(amount)
}

/// Locks the user's vault.
pub fn lock(ctx: &mut Operations) -> (r: Result<(), VaultError>)
    ensures
        old(ctx).wf() ==> r is Ok && final(ctx).state == (VaultState {
            is_initialized: true,
            ..old(ctx).state
        }),
        !old(ctx).wf() ==> r == Err::<(), VaultError>(VaultError::InvalidAccounts) && *final(ctx)
            == *old(ctx),
        final(ctx).user_ata == old(ctx).user_ata,
        final(ctx).vault_ata == old(ctx).vault_ata,
        final(ctx).user == old(ctx).user,
        final(ctx).vault_mint == old(ctx).vault_mint,
{
    ctx.lock_vault()
}

/// Unlocks the user's vault.
pub fn unlock(ctx: &mut Operations) -> (r: Result<(), VaultError>)
    ensures
        old(ctx).wf() ==> r is Ok && final(ctx).state == (VaultState {
            is_initialized: false,
            ..old(ctx).state
        }),
        !old(ctx).wf() ==> r == Err::<(), VaultError>(VaultError::InvalidAccounts) && *final(ctx)
            == *old(ctx),
        final(ctx).user_ata == old(ctx).user_ata,
        final(ctx).vault_ata == old(ctx).vault_ata,
        final(ctx).user == old(ctx).user,
        final(ctx).vault_mint == old(ctx).vault_mint,
{
    ctx.unlock_vault()
}

} // verus!
