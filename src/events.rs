//! Events reported by successful operations.
use crate::keys::Pubkey;
use vstd::prelude::*;

verus! {

#[derive(Debug, Clone, Copy, PartialEq, Eq)]
pub struct MarketConfigInitialized {
    pub new_governance_authority: Pubkey,
}

#[derive(Debug, Clone, Copy, PartialEq, Eq)]
pub struct GovernanceAuthorityChanged {
    pub old_authority: Pubkey,
    pub new_authority: Pubkey,
}

#[derive(Debug, Clone, Copy, PartialEq, Eq)]
pub struct ProtocolPaused {}

#[derive(Debug, Clone, Copy, PartialEq, Eq)]
pub struct ProtocolUnpaused {}

#[derive(Debug, Clone, Copy, PartialEq, Eq)]
pub struct ProtocolWithdrawOnlyModeEnabled {}

#[derive(Debug, Clone, Copy, PartialEq, Eq)]
pub struct AssetPoolAdded {
    pub pool_key: Pubkey,
    pub asset_mint: Pubkey,
}

#[derive(Debug, Clone, Copy, PartialEq, Eq)]
pub struct AssetPoolUpdated {
    pub pool_key: Pubkey,
}

#[derive(Debug, Clone, Copy, PartialEq, Eq)]
pub struct ProtocolFeesCollected {
    pub pool: Pubkey,
    pub recipient: Pubkey,
    pub amount: u64,
}

#[derive(Debug, Clone, Copy, PartialEq, Eq)]
pub struct Deposited {
    pub pool: Pubkey,
    pub user: Pubkey,
    pub amount: u64,
}

#[derive(Debug, Clone, Copy, PartialEq, Eq)]
pub struct Withdrawn {
    pub pool: Pubkey,
    pub user: Pubkey,
    pub amount: u64,
}

#[derive(Debug, Clone, Copy, PartialEq, Eq)]
pub struct Borrowed {
    pub pool: Pubkey,
    pub user: Pubkey,
    pub amount: u64,
}

/// `amount` is what actually moved; 0 when there was no debt to repay.
#[derive(Debug, Clone, Copy, PartialEq, Eq)]
pub struct Repaid {
    pub pool: Pubkey,
    pub user: Pubkey,
    pub amount: u64,
}

/// The liquidator pays `repay_amount` into the loan vault; the collateral
/// vault sends `seized_collateral_amount` to the liquidator.
#[derive(Debug, Clone, Copy, PartialEq, Eq)]
pub struct Liquidation {
    pub collateral_pool: Pubkey,
    pub loan_pool: Pubkey,
    pub liquidator: Pubkey,
    pub borrower: Pubkey,
    pub repay_amount: u64,
    pub seized_collateral_amount: u64,
}

#[derive(Debug, Clone, Copy, PartialEq, Eq)]
pub struct FlashLoaned {
    pub pool: Pubkey,
    pub receiver: Pubkey,
    pub amount: u64,
    pub fee: u64,
}

#[derive(Debug, Clone, Copy, PartialEq, Eq)]
pub struct DelegationUpdated {
    pub owner: Pubkey,
    pub delegatee: Pubkey,
    pub pool: Pubkey,
    pub delegated_amount: u64,
}

#[derive(Debug, Clone, Copy, PartialEq, Eq)]
pub struct BorrowedDelegated {
    pub pool: Pubkey,
    pub owner: Pubkey,
    pub delegatee: Pubkey,
    pub amount: u64,
}

#[derive(Debug, Clone, Copy, PartialEq, Eq)]
pub struct OperationsExecuted {
    pub pool: Pubkey,
    pub user: Pubkey,
}

} // verus!
