//! Per-(user, pool) positions, credit delegations, and the identity checks
//! on the accounts presented with an operation.
use crate::error::LendingError;
use crate::keys::Pubkey;
use crate::pool::AssetPool;
use vstd::prelude::*;

verus! {

/// Collateral and debt of one user in one pool.
#[derive(Debug, Clone, Copy, PartialEq, Eq)]
pub struct UserPosition {
    pub owner: Pubkey,
    pub pool: Pubkey,
    pub collateral_amount: u64,
    pub loan_amount: u64,
}

/// A credit line from `owner` to `delegatee` on one pool.
#[derive(Debug, Clone, Copy, PartialEq, Eq)]
pub struct CreditDelegation {
    pub owner: Pubkey,
    pub delegatee: Pubkey,
    pub asset_pool: Pubkey,
    pub initial_delegated_amount: u64,
    pub delegated_amount: u64,
}

impl CreditDelegation {
    /// What is left never exceeds what was approved.
    pub open spec fn wf(&self) -> bool {
        self.delegated_amount <= self.initial_delegated_amount
    }
}

/// The identities presented with an operation on one pool and one position.
#[derive(Debug, Clone, Copy, PartialEq, Eq)]
pub struct PoolAccounts {
    pub pool: Pubkey,
    pub asset_mint: Pubkey,
    pub asset_vault: Pubkey,
    /// Mint of the user's token account that sends or receives the asset.
    pub user_token_mint: Pubkey,
    pub pyth_price_feed: Pubkey,
    pub chainlink_price_feed: Pubkey,
}

/// A new, empty position of `owner` in `pool`.
pub fn create_user_position(owner: Pubkey, pool: Pubkey) -> (r: UserPosition)
    ensures
        r == (UserPosition { owner, pool, collateral_amount: 0, loan_amount: 0 }),
{
    UserPosition { owner, pool, collateral_amount: 0, loan_amount: 0 }
}

/// The presented token accounts and feeds belong to `pool`, the first
/// mismatch naming its error.
pub open spec fn pool_accounts_check(pool: AssetPool, acc: PoolAccounts) -> Result<(), LendingError> {
    if acc.asset_mint@ != pool.asset_mint@ {
        Err(LendingError::InvalidAssetMint)
    } else if acc.asset_vault@ != pool.asset_vault@ {
        Err(LendingError::InvalidAssetVault)
    } else if acc.user_token_mint@ != pool.asset_mint@ {
        Err(LendingError::InvalidAssetMint)
    } else if acc.pyth_price_feed@ != pool.pyth_price_feed@ {
        Err(LendingError::InvalidOracleAccount)
    } else if acc.chainlink_price_feed@ != pool.chainlink_price_feed@ {
        Err(LendingError::InvalidOracleAccount)
    } else {
        Ok(())
    }
}

/// `position` belongs to `user` in the presented pool, and the other presented
/// accounts match the pool.
pub open spec fn accounts_check(
    pool: AssetPool,
    position: UserPosition,
    user: Pubkey,
    acc: PoolAccounts,
) -> Result<(), LendingError> {
    if position.owner@ != user@ {
        Err(LendingError::InvalidOwner)
    } else if position.pool@ != acc.pool@ {
        Err(LendingError::InvalidAssetPool)
    } else {
        pool_accounts_check(pool, acc)
    }
}

pub fn check_pool_accounts(pool: &AssetPool, acc: &PoolAccounts) -> (r: Result<(), LendingError>)
    ensures
        r == pool_accounts_check(*pool, *acc),
{
    if !acc.asset_mint.same(&pool.asset_mint) {
        return Err(LendingError::InvalidAssetMint);
    }
    if !acc.asset_vault.same(&pool.asset_vault) {
        return Err(LendingError::InvalidAssetVault);
    }
    if !acc.user_token_mint.same(&pool.asset_mint) {
        return Err(LendingError::InvalidAssetMint);
    }
    if !acc.pyth_price_feed.same(&pool.pyth_price_feed) {
        return Err(LendingError::InvalidOracleAccount);
    }
    if !acc.chainlink_price_feed.same(&pool.chainlink_price_feed) {
        return Err(LendingError::InvalidOracleAccount);
    }
    Ok(())
}

pub fn check_accounts(
    pool: &AssetPool,
    position: &UserPosition,
    user: &Pubkey,
    acc: &PoolAccounts,
) -> (r: Result<(), LendingError>)
    ensures
        r == accounts_check(*pool, *position, *user, *acc),
{
    if !position.owner.same(user) {
        return Err(LendingError::InvalidOwner);
    }
    if !position.pool.same(&acc.pool) {
        return Err(LendingError::InvalidAssetPool);
    }
    check_pool_accounts(pool, acc)
}

} // verus!
