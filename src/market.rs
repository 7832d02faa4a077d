//! Market configuration and governance.
use crate::error::LendingError;
use crate::events::{
    AssetPoolAdded, MarketConfigInitialized, AssetPoolUpdated, GovernanceAuthorityChanged, ProtocolFeesCollected,
    ProtocolPaused, ProtocolUnpaused, ProtocolWithdrawOnlyModeEnabled,
};
use crate::keys::Pubkey;
use crate::pool::{accrued, params_check, with_params, AssetPool, AssetPoolParams};
use vstd::prelude::*;

verus! {

/// Largest number of pools a market registers.
pub const MAX_POOLS: u16 = 32;

/// Global protocol status.
#[derive(Debug, Clone, Copy, PartialEq, Eq, Structural)]
pub enum MarketStatus {
    Active,
    Paused,
    WithdrawOnly,
}

/// The persisted code: 0 Active, 1 Paused, 2 WithdrawOnly.
pub open spec fn status_code(s: MarketStatus) -> u8 {
    match s {
        MarketStatus::Active => 0u8,
        MarketStatus::Paused => 1u8,
        MarketStatus::WithdrawOnly => 2u8,
    }
}

impl MarketStatus {
    /// The persisted code of this status.
    pub fn code(&self) -> (r: u8)
        ensures
            r == status_code(*self),
    {
        match self {
            MarketStatus::Active => 0,
            MarketStatus::Paused => 1,
            MarketStatus::WithdrawOnly => 2,
        }
    }

    /// Reads a persisted code; codes above 2 are not a status.
    pub fn from_code(code: u8) -> (r: Option<MarketStatus>)
        ensures
            code <= 2 <==> r is Some,
            r matches Some(s) ==> status_code(s) == code,
    {
        match code {
            0 => Some(MarketStatus::Active),
            1 => Some(MarketStatus::Paused),
            2 => Some(MarketStatus::WithdrawOnly),
            _ => None,
        }
    }
}

/// The singleton market record.
#[derive(Debug, Clone, PartialEq, Eq)]
pub struct MarketConfig {
    pub governance_authority: Pubkey,
    pub status: MarketStatus,
    pub pool_count: u16,
    pub pools: Vec<Pubkey>,
}

impl MarketConfig {
    /// The registry holds exactly `pool_count` pools, at most [`MAX_POOLS`].
    pub open spec fn wf(&self) -> bool {
        self.pools@.len() == self.pool_count as int && self.pool_count <= MAX_POOLS
    }

    /// Creates the market, active, with `authority` as governance.
    pub fn initialize_market_config(authority: Pubkey) -> (r: (MarketConfig, MarketConfigInitialized))
        ensures
            r.0.wf(),
            r.0.governance_authority == authority,
            r.0.status == MarketStatus::Active,
            r.0.pool_count == 0,
            r.1 == (MarketConfigInitialized { new_governance_authority: authority }),
    {
        (
            MarketConfig {
                governance_authority: authority,
                status: MarketStatus::Active,
                pool_count: 0,
                pools: Vec::new(),
            },
            MarketConfigInitialized { new_governance_authority: authority },
        )
    }

    /// `Ok` exactly when `signer` is the governance authority.
    pub open spec fn governance_check(&self, signer: Pubkey) -> Result<(), LendingError> {
        if signer@ == self.governance_authority@ {
            Ok(())
        } else {
            Err(LendingError::InvalidOwner)
        }
    }

    fn require_governance(&self, signer: &Pubkey) -> (r: Result<(), LendingError>)
        ensures
            r == self.governance_check(*signer),
    {
        if signer.same(&self.governance_authority) {
            Ok(())
        } else {
            Err(LendingError::InvalidOwner)
        }
    }

    /// Hands governance to `new_authority`.
    pub fn update_governance_authority(&mut self, signer: &Pubkey, new_authority: Pubkey) -> (r:
        Result<GovernanceAuthorityChanged, LendingError>)
        ensures
            old(self).governance_check(*signer) is Err ==> r == Err::<
                GovernanceAuthorityChanged,
                LendingError,
            >(LendingError::InvalidOwner) && *final(self) == *old(self),
            old(self).governance_check(*signer) is Ok ==> r == Ok::<
                GovernanceAuthorityChanged,
                LendingError,
            >(
                GovernanceAuthorityChanged {
                    old_authority: old(self).governance_authority,
                    new_authority,
                },
            ) && *final(self) == (MarketConfig {
                governance_authority: new_authority,
                ..*old(self)
            }),
        old(self).wf() ==> final(self).wf(),
    {
        self.require_governance(signer)?;
        let previous = self.governance_authority;
        self.governance_authority = new_authority;
        Ok(GovernanceAuthorityChanged { old_authority: previous, new_authority })
    }

    /// Sets the protocol status; only governance may.
    pub fn set_status(&mut self, signer: &Pubkey, status: MarketStatus) -> (r: Result<
        (),
        LendingError,
    >)
        ensures
            r == old(self).governance_check(*signer),
            r is Err ==> *final(self) == *old(self),
            r is Ok ==> *final(self) == (MarketConfig { status, ..*old(self) }),
            old(self).wf() ==> final(self).wf(),
    {
        self.require_governance(signer)?;
        self.status = status;
        Ok(())
    }

    /// Halts everything but withdraw and repay.
    pub fn pause_protocol(&mut self, signer: &Pubkey) -> (r: Result<ProtocolPaused, LendingError>)
        ensures
            r == match old(self).governance_check(*signer) {
                Ok(_) => Ok::<ProtocolPaused, LendingError>(ProtocolPaused {}),
                Err(e) => Err(e),
            },
            r is Err ==> *final(self) == *old(self),
            r is Ok ==> *final(self) == (MarketConfig {
                status: MarketStatus::Paused,
                ..*old(self)
            }),
            old(self).wf() ==> final(self).wf(),
    {
        self.set_status(signer, MarketStatus::Paused)?;
        Ok(ProtocolPaused {})
    }

    /// Resumes normal operation.
    pub fn unpause_protocol(&mut self, signer: &Pubkey) -> (r: Result<ProtocolUnpaused, LendingError>)
        ensures
            r == match old(self).governance_check(*signer) {
                Ok(_) => Ok::<ProtocolUnpaused, LendingError>(ProtocolUnpaused {}),
                Err(e) => Err(e),
            },
            r is Err ==> *final(self) == *old(self),
            r is Ok ==> *final(self) == (MarketConfig {
                status: MarketStatus::Active,
                ..*old(self)
            }),
            old(self).wf() ==> final(self).wf(),
    {
        self.set_status(signer, MarketStatus::Active)?;
        Ok(ProtocolUnpaused {})
    }

    /// Allows only withdraw and repay.
    pub fn enable_withdraw_only_mode(&mut self, signer: &Pubkey) -> (r: Result<ProtocolWithdrawOnlyModeEnabled, LendingError>)
        ensures
            r == match old(self).governance_check(*signer) {
                Ok(_) => Ok::<ProtocolWithdrawOnlyModeEnabled, LendingError>(ProtocolWithdrawOnlyModeEnabled {}),
                Err(e) => Err(e),
            },
            r is Err ==> *final(self) == *old(self),
            r is Ok ==> *final(self) == (MarketConfig {
                status: MarketStatus::WithdrawOnly,
                ..*old(self)
            }),
            old(self).wf() ==> final(self).wf(),
    {
        self.set_status(signer, MarketStatus::WithdrawOnly)?;
        Ok(ProtocolWithdrawOnlyModeEnabled {})
    }

    /// Appends `pool_key` to the registry unless it is full.
    pub fn add_pool(&mut self, pool_key: Pubkey) -> (r: Result<(), LendingError>)
        requires
            old(self).wf(),
        ensures
            final(self).wf(),
            old(self).pool_count >= MAX_POOLS <==> r is Err,
            r is Err ==> r == Err::<(), LendingError>(LendingError::MaxAssetsExceeded)
                && *final(self) == *old(self),
            r is Ok ==> final(self).pools@ == old(self).pools@.push(pool_key)
                && final(self).pool_count == old(self).pool_count + 1
                && final(self).status == old(self).status
                && final(self).governance_authority == old(self).governance_authority,
    {
        if self.pool_count >= MAX_POOLS {
            return Err(LendingError::MaxAssetsExceeded);
        }
        self.pools.push(pool_key);
        self.pool_count = self.pool_count + 1;
        Ok(())
    }

    /// Registers a new pool with validated parameters, created at `now`.
    pub fn add_asset_pool(
        &mut self,
        signer: &Pubkey,
        pool_key: Pubkey,
        asset_mint: Pubkey,
        asset_vault: Pubkey,
        pyth_price_feed: Pubkey,
        chainlink_price_feed: Option<Pubkey>,
        params: AssetPoolParams,
        now: i64,
    ) -> (r: Result<(AssetPool, AssetPoolAdded), LendingError>)
        requires
            old(self).wf(),
        ensures
            final(self).wf(),
            r is Err ==> *final(self) == *old(self),
            r is Ok <==> (old(self).governance_check(*signer) is Ok && params_check(params) is Ok
                && old(self).pool_count < MAX_POOLS),
            old(self).governance_check(*signer) is Err ==> r == Err::<
                (AssetPool, AssetPoolAdded),
                LendingError,
            >(LendingError::InvalidOwner),
            old(self).governance_check(*signer) is Ok ==> match params_check(params) {
                Err(e) => r == Err::<(AssetPool, AssetPoolAdded), LendingError>(e),
                Ok(_) => old(self).pool_count >= MAX_POOLS ==> r == Err::<
                    (AssetPool, AssetPoolAdded),
                    LendingError,
                >(LendingError::MaxAssetsExceeded),
            },
            r matches Ok((p, ev)) ==> ev == (AssetPoolAdded { pool_key, asset_mint })
                && p == with_params(p, params) && p.asset_mint == asset_mint
                && p.asset_vault == asset_vault && p.pyth_price_feed == pyth_price_feed
                && p.total_deposits == 0 && p.total_loans == 0 && p.accrued_protocol_fees == 0
                && p.last_interest_update_timestamp == now && final(self).pools@ == old(
                self,
            ).pools@.push(pool_key) && (match chainlink_price_feed {
                Some(k) => p.chainlink_price_feed == k,
                None => p.chainlink_price_feed@ == Seq::new(32, |i: int| 0u8),
            }),
    {
        self.require_governance(signer)?;
        let chainlink = match chainlink_price_feed {
            Some(k) => k,
            None => Pubkey::zero(),
        };
        let pool = AssetPool::new(asset_mint, asset_vault, pyth_price_feed, chainlink, params, now)?;
        self.add_pool(pool_key)?;
        Ok((pool, AssetPoolAdded { pool_key, asset_mint }))
    }

    /// Replaces a pool's parameters after validating them.
    pub fn update_asset_pool(
        &self,
        signer: &Pubkey,
        pool_key: Pubkey,
        pool: &mut AssetPool,
        params: AssetPoolParams,
    ) -> (r: Result<AssetPoolUpdated, LendingError>)
        ensures
            self.governance_check(*signer) is Err ==> r == Err::<AssetPoolUpdated, LendingError>(
                LendingError::InvalidOwner,
            ),
            self.governance_check(*signer) is Ok ==> r == match params_check(params) {
                Ok(_) => Ok::<AssetPoolUpdated, LendingError>(AssetPoolUpdated { pool_key }),
                Err(e) => Err(e),
            },
            r is Ok ==> *final(pool) == with_params(*old(pool), params),
            r is Err ==> *final(pool) == *old(pool),
    {
        self.require_governance(signer)?;
        pool.apply_params(params)?;
        Ok(AssetPoolUpdated { pool_key })
    }

    /// Accrues the pool's interest at `now`, then zeroes its protocol fees;
    /// the event gives the amount to send out of its vault to `recipient`.
    pub fn collect_protocol_fees(
        &self,
        signer: &Pubkey,
        pool_key: Pubkey,
        recipient: Pubkey,
        pool: &mut AssetPool,
        now: i64,
    ) -> (r: Result<ProtocolFeesCollected, LendingError>)
        ensures
            self.governance_check(*signer) is Err ==> r == Err::<ProtocolFeesCollected, LendingError>(
                LendingError::InvalidOwner,
            ),
            self.governance_check(*signer) is Ok ==> match accrued(*old(pool), now) {
                Err(e) => r == Err::<ProtocolFeesCollected, LendingError>(e),
                Ok(a) => if a.accrued_protocol_fees == 0 {
                    r == Err::<ProtocolFeesCollected, LendingError>(LendingError::ZeroAmount)
                } else {
                    r == Ok::<ProtocolFeesCollected, LendingError>(
                        ProtocolFeesCollected {
                            pool: pool_key,
                            recipient,
                            amount: a.accrued_protocol_fees,
                        },
                    ) && *final(pool) == (AssetPool { accrued_protocol_fees: 0, ..a })
                },
            },
            r is Err ==> *final(pool) == *old(pool),
    {
        self.require_governance(signer)?;
        let mut p = *pool;
        p.accrue_interest(now)?;
        let fees = p.accrued_protocol_fees;
        if fees == 0 {
            return Err(LendingError::ZeroAmount);
        }
        p.accrued_protocol_fees = 0;
        *pool = p;
        Ok(ProtocolFeesCollected { pool: pool_key, recipient, amount: fees })
    }
}

} // verus!
