use custodial_escrow::ledger::{derive_address, Address, Seeds, TokenError, TokenHolding};
use custodial_escrow::vault::states::VaultState;
use custodial_escrow::vault::{
    deposit, initialize, lock, unlock, withdraw, Errors, Initialize, Operations, VaultError,
};

const MINT: u64 = 4;
const USER: u64 = 9;

fn vault_authority() -> (Address, u8) {
    derive_address(Seeds::Vault { user: USER })
}

fn fresh_ops(user_amount: u64, vault_amount: u64) -> Operations {
    let (owner, bump) = vault_authority();
    Operations {
        user: USER,
        user_ata: TokenHolding { owner: Address::User(USER), mint: MINT, amount: user_amount, rent: 1 },
        state: VaultState { is_initialized: false, amount: 0, vault_bump: bump, state_bump: 0 },
        vault_mint: MINT,
        vault_ata: TokenHolding { owner, mint: MINT, amount: vault_amount, rent: 1 },
    }
}

#[test]
fn initialize_sets_state() {
    let (owner, vault_bump) = vault_authority();
    let (_, state_bump) = derive_address(Seeds::State { user: USER });
    let mut ctx = Initialize {
        user: USER,
        user_ata: TokenHolding { owner: Address::User(USER), mint: MINT, amount: 50, rent: 1 },
        state: VaultState { is_initialized: true, amount: 77, vault_bump: 0, state_bump: 0 },
        vault_mint: MINT,
        vault_ata: TokenHolding { owner, mint: MINT, amount: 0, rent: 1 },
    };
    assert_eq!(initialize(&mut ctx, 25), Ok(()));
    assert_eq!(
        ctx.state,
        VaultState { is_initialized: false, amount: 25, vault_bump, state_bump }
    );
    // No tokens move.
    assert_eq!(ctx.user_ata.amount, 50);
    assert_eq!(ctx.vault_ata.amount, 0);
    // Re-invoking rewrites the record the same way: creation is idempotent.
    assert_eq!(initialize(&mut ctx, 60), Ok(()));
    assert_eq!(ctx.state.amount, 60);
    assert!(!ctx.state.is_initialized);
}

#[test]
fn deposit_and_withdraw_move_balances() {
    let mut ops = fresh_ops(100, 0);
    assert_eq!(deposit(&mut ops, 30), Ok(()));
    assert_eq!(ops.user_ata.amount, 70);
    assert_eq!(ops.vault_ata.amount, 30);
    assert_eq!(withdraw(&mut ops, 20), Ok(()));
    assert_eq!(ops.user_ata.amount, 90);
    assert_eq!(ops.vault_ata.amount, 10);
}

#[test]
fn locked_vault_freezes_deposit_and_withdraw() {
    let mut ops = fresh_ops(100, 40);
    assert_eq!(lock(&mut ops), Ok(()));
    assert!(ops.state.is_initialized);
    let before = ops;
    assert_eq!(
        deposit(&mut ops, 10),
        Err(VaultError::Vault(Errors::VaultInitialized))
    );
    assert_eq!(ops, before);
    assert_eq!(
        withdraw(&mut ops, 10),
        Err(VaultError::Vault(Errors::VaultInitialized))
    );
    assert_eq!(ops, before);
}

#[test]
fn lock_unlock_toggle_only_the_flag() {
    let mut ops = fresh_ops(100, 40);
    let before = ops;
    assert_eq!(lock(&mut ops), Ok(()));
    assert_eq!(ops.user_ata, before.user_ata);
    assert_eq!(ops.vault_ata, before.vault_ata);
    assert!(ops.state.is_initialized);
    assert_eq!(unlock(&mut ops), Ok(()));
    assert_eq!(ops, before);
}

#[test]
fn withdraw_with_stale_bump_fails() {
    let mut ops = fresh_ops(100, 40);
    ops.state.vault_bump = ops.state.vault_bump.wrapping_add(1);
    let before = ops;
    assert_eq!(
        withdraw(&mut ops, 10),
        Err(VaultError::Token(TokenError::AuthorityMismatch))
    );
    assert_eq!(ops, before);
}

#[test]
fn deposit_insufficient_funds_fails() {
    let mut ops = fresh_ops(5, 0);
    let before = ops;
    assert_eq!(
        deposit(&mut ops, 6),
        Err(VaultError::Token(TokenError::InsufficientFunds))
    );
    assert_eq!(ops, before);
}

#[test]
fn withdraw_more_than_vault_holds_fails() {
    let mut ops = fresh_ops(0, 5);
    assert_eq!(
        withdraw(&mut ops, 6),
        Err(VaultError::Token(TokenError::InsufficientFunds))
    );
}

#[test]
fn foreign_user_account_is_rejected() {
    let mut ops = fresh_ops(100, 0);
    ops.user_ata.owner = Address::User(USER + 1);
    assert_eq!(deposit(&mut ops, 10), Err(VaultError::InvalidAccounts));
    assert_eq!(lock(&mut ops), Err(VaultError::InvalidAccounts));
}
