//! Liquidation of an unhealthy position across a collateral pool and a loan pool.
use crate::error::LendingError;
use crate::events::Liquidation;
use crate::keys::Pubkey;
use crate::market::{MarketConfig, MarketStatus};
use crate::math::Price;
use crate::pool::{accrued, AssetPool};
use crate::position::UserPosition;
use crate::risk::{calculate_liquidation_bonus, is_liquidatable, liquidatable, seize_amount};
use vstd::prelude::*;

verus! {

/// The identities presented with a liquidation.
#[derive(Debug, Clone, Copy, PartialEq, Eq)]
pub struct LiquidationAccounts {
    pub liquidator: Pubkey,
    pub borrower: Pubkey,
    pub collateral_pool: Pubkey,
    pub loan_pool: Pubkey,
    pub collateral_mint: Pubkey,
    pub loan_mint: Pubkey,
    /// Mint of the liquidator's account that receives the seized collateral.
    pub liquidator_collateral_mint: Pubkey,
    /// Mint of the liquidator's account that pays the debt.
    pub liquidator_loan_mint: Pubkey,
    pub collateral_vault: Pubkey,
    pub loan_vault: Pubkey,
    pub collateral_pyth_feed: Pubkey,
    pub collateral_chainlink_feed: Pubkey,
    pub loan_pyth_feed: Pubkey,
    pub loan_chainlink_feed: Pubkey,
}

/// The presented accounts match both pools and the borrower's positions, the
/// first mismatch naming its error.
pub open spec fn liquidation_accounts_check(
    collateral_pool: AssetPool,
    loan_pool: AssetPool,
    collateral_position: UserPosition,
    loan_position: UserPosition,
    acc: LiquidationAccounts,
) -> Result<(), LendingError> {
    if acc.collateral_mint@ != collateral_pool.asset_mint@ {
        Err(LendingError::CollateralMintMismatch)
    } else if acc.loan_mint@ != loan_pool.asset_mint@ {
        Err(LendingError::LoanMintMismatch)
    } else if collateral_position.owner@ != acc.borrower@ || loan_position.owner@
        != acc.borrower@ {
        Err(LendingError::InvalidOwner)
    } else if collateral_position.pool@ != acc.collateral_pool@ || loan_position.pool@
        != acc.loan_pool@ {
        Err(LendingError::InvalidAssetPool)
    } else if acc.liquidator_collateral_mint@ != collateral_pool.asset_mint@ {
        Err(LendingError::CollateralMintMismatch)
    } else if acc.liquidator_loan_mint@ != loan_pool.asset_mint@ {
        Err(LendingError::LoanMintMismatch)
    } else if acc.collateral_vault@ != collateral_pool.asset_vault@ || acc.loan_vault@
        != loan_pool.asset_vault@ {
        Err(LendingError::InvalidAssetVault)
    } else if acc.collateral_pyth_feed@ != collateral_pool.pyth_price_feed@
        || acc.collateral_chainlink_feed@ != collateral_pool.chainlink_price_feed@
        || acc.loan_pyth_feed@ != loan_pool.pyth_price_feed@ || acc.loan_chainlink_feed@
        != loan_pool.chainlink_price_feed@ {
        Err(LendingError::InvalidOracleAccount)
    } else {
        Ok(())
    }
}

/// The repayment after the close factor: `min(requested, loan · 50%, loan)`.
pub open spec fn capped_repay(requested: u64, loan: u64) -> u64 {
    let max = loan * 5_000 / 10_000;
    if requested <= max {
        requested
    } else {
        max as u64
    }
}

/// What a liquidation commits: both pools and both positions, and its event.
pub type LiquidationCommit = (AssetPool, AssetPool, UserPosition, UserPosition, Liquidation);

/// Liquidation of `loan_position`'s debt against `collateral_position`'s collateral.
pub open spec fn liquidation_outcome(
    status: MarketStatus,
    collateral_pool: AssetPool,
    loan_pool: AssetPool,
    collateral_position: UserPosition,
    loan_position: UserPosition,
    acc: LiquidationAccounts,
    amount_to_repay: u64,
    collateral_price: Result<Price, LendingError>,
    loan_price: Result<Price, LendingError>,
    now: i64,
) -> Result<LiquidationCommit, LendingError> {
    match liquidation_accounts_check(
        collateral_pool,
        loan_pool,
        collateral_position,
        loan_position,
        acc,
    ) {
        Err(e) => Err(e),
        Ok(_) => if status != MarketStatus::Active {
            Err(LendingError::ProtocolNotActive)
        } else if acc.liquidator@ == acc.borrower@ {
            Err(LendingError::CannotLiquidateSelf)
        } else {
            match accrued(collateral_pool, now) {
                Err(e) => Err(e),
                Ok(cp) => match accrued(loan_pool, now) {
                    Err(e) => Err(e),
                    Ok(lp) => match collateral_price {
                        Err(e) => Err(e),
                        Ok(cpr) => match loan_price {
                            Err(e) => Err(e),
                            Ok(lpr) => match liquidatable(
                                collateral_position.collateral_amount,
                                cpr,
                                loan_position.loan_amount,
                                lpr,
                                cp.liquidation_threshold_bps,
                            ) {
                                Err(e) => Err(e),
                                Ok(false) => Err(LendingError::PositionHealthy),
                                Ok(true) => {
                                    let repay = capped_repay(
                                        amount_to_repay,
                                        loan_position.loan_amount,
                                    );
                                    if repay == 0 {
                                        Err(LendingError::ZeroAmount)
                                    } else {
                                        match seize_amount(repay, lpr, cpr) {
                                            Err(e) => Err(e),
                                            Ok(seize) => if seize
                                                > collateral_position.collateral_amount {
                                                Err(
                                                    LendingError::InsufficientCollateralForLiquidation,
                                                )
                                            } else if lp.total_loans < repay
                                                || cp.total_deposits < seize {
                                                Err(LendingError::MathOverflow)
                                            } else {
                                                Ok(
                                                    (
                                                        AssetPool {
                                                            total_deposits: (cp.total_deposits
                                                                - seize) as u64,
                                                            ..cp
                                                        },
                                                        AssetPool {
                                                            total_loans: (lp.total_loans
                                                                - repay) as u64,
                                                            ..lp
                                                        },
                                                        UserPosition {
                                                            collateral_amount: (
                                                            collateral_position.collateral_amount
                                                                - seize) as u64,
                                                            ..collateral_position
                                                        },
                                                        UserPosition {
                                                            loan_amount: (loan_position.loan_amount
                                                                - repay) as u64,
                                                            ..loan_position
                                                        },
                                                        Liquidation {
                                                            collateral_pool: acc.collateral_pool,
                                                            loan_pool: acc.loan_pool,
                                                            liquidator: acc.liquidator,
                                                            borrower: acc.borrower,
                                                            repay_amount: repay,
                                                            seized_collateral_amount: seize,
                                                        },
                                                    ),
                                                )
                                            },
                                        }
                                    }
                                },
                            },
                        },
                    },
                },
            }
        },
    }
}

fn check_liquidation_accounts(
    collateral_pool: &AssetPool,
    loan_pool: &AssetPool,
    collateral_position: &UserPosition,
    loan_position: &UserPosition,
    acc: &LiquidationAccounts,
) -> (r: Result<(), LendingError>)
    ensures
        r == liquidation_accounts_check(
            *collateral_pool,
            *loan_pool,
            *collateral_position,
            *loan_position,
            *acc,
        ),
{
    if !acc.collateral_mint.same(&collateral_pool.asset_mint) {
        return Err(LendingError::CollateralMintMismatch);
    }
    if !acc.loan_mint.same(&loan_pool.asset_mint) {
        return Err(LendingError::LoanMintMismatch);
    }
    if !collateral_position.owner.same(&acc.borrower) || !loan_position.owner.same(&acc.borrower) {
        return Err(LendingError::InvalidOwner);
    }
    if !collateral_position.pool.same(&acc.collateral_pool) || !loan_position.pool.same(
        &acc.loan_pool,
    ) {
        return Err(LendingError::InvalidAssetPool);
    }
    if !acc.liquidator_collateral_mint.same(&collateral_pool.asset_mint) {
        return Err(LendingError::CollateralMintMismatch);
    }
    if !acc.liquidator_loan_mint.same(&loan_pool.asset_mint) {
        return Err(LendingError::LoanMintMismatch);
    }
    if !acc.collateral_vault.same(&collateral_pool.asset_vault) || !acc.loan_vault.same(
        &loan_pool.asset_vault,
    ) {
        return Err(LendingError::InvalidAssetVault);
    }
    if !acc.collateral_pyth_feed.same(&collateral_pool.pyth_price_feed)
        || !acc.collateral_chainlink_feed.same(&collateral_pool.chainlink_price_feed)
        || !acc.loan_pyth_feed.same(&loan_pool.pyth_price_feed) || !acc.loan_chainlink_feed.same(
        &loan_pool.chainlink_price_feed,
    ) {
        return Err(LendingError::InvalidOracleAccount);
    }
    Ok(())
}

/// Repays part of an unhealthy borrower's debt in the loan pool and hands
/// the liquidator the matching collateral plus the bonus; the event names
/// the amounts to move.
pub fn liquidate(
    config: &MarketConfig,
    collateral_pool: &mut AssetPool,
    loan_pool: &mut AssetPool,
    collateral_position: &mut UserPosition,
    loan_position: &mut UserPosition,
    accounts: &LiquidationAccounts,
    amount_to_repay: u64,
    collateral_price: Result<Price, LendingError>,
    loan_price: Result<Price, LendingError>,
    now: i64,
) -> (r: Result<Liquidation, LendingError>)
    ensures
        match liquidation_outcome(
            config.status,
            *old(collateral_pool),
            *old(loan_pool),
            *old(collateral_position),
            *old(loan_position),
            *accounts,
            amount_to_repay,
            collateral_price,
            loan_price,
            now,
        ) {
            Ok((cp, lp, cq, lq, amounts)) => r == Ok::<Liquidation, LendingError>(amounts)
                && *final(collateral_pool) == cp && *final(loan_pool) == lp
                && *final(collateral_position) == cq && *final(loan_position) == lq,
            Err(e) => r == Err::<Liquidation, LendingError>(e) && *final(collateral_pool)
                == *old(collateral_pool) && *final(loan_pool) == *old(loan_pool)
                && *final(collateral_position) == *old(collateral_position)
                && *final(loan_position) == *old(loan_position),
        },
{
    check_liquidation_accounts(
        collateral_pool,
        loan_pool,
        collateral_position,
        loan_position,
        accounts,
    )?;
    match config.status {
        MarketStatus::Active => {},
        _ => return Err(LendingError::ProtocolNotActive),
    }
    if accounts.liquidator.same(&accounts.borrower) {
        return Err(LendingError::CannotLiquidateSelf);
    }
    let mut cp = *collateral_pool;
    cp.accrue_interest(now)?;
    let mut lp = *loan_pool;
    lp.accrue_interest(now)?;
    let cpr = collateral_price?;
    let lpr = loan_price?;
    let loan = loan_position.loan_amount;
    let collateral = collateral_position.collateral_amount;
    if !is_liquidatable(collateral, cpr, loan, lpr, cp.liquidation_threshold_bps)? {
        return Err(LendingError::PositionHealthy);
    }
    let max_repay = (loan as u128 * 5_000 / 10_000) as u64;
    let repay = if amount_to_repay <= max_repay {
        amount_to_repay
    } else {
        max_repay
    };
    if repay == 0 {
        return Err(LendingError::ZeroAmount);
    }
    let seize = calculate_liquidation_bonus(repay, lpr, cpr)?;
    if seize > collateral {
        return Err(LendingError::InsufficientCollateralForLiquidation);
    }
    if lp.total_loans < repay || cp.total_deposits < seize {
        return Err(LendingError::MathOverflow);
    }
    cp.total_deposits = cp.total_deposits - seize;
    lp.total_loans = lp.total_loans - repay;
    *collateral_pool = cp;
    *loan_pool = lp;
    collateral_position.collateral_amount = collateral - seize;
    loan_position.loan_amount = loan - repay;
    Ok(
        Liquidation {
            collateral_pool: accounts.collateral_pool,
            loan_pool: accounts.loan_pool,
            liquidator: accounts.liquidator,
            borrower: accounts.borrower,
            repay_amount: repay,
            seized_collateral_amount: seize,
        },
    )
}

/// Liquidation where the collateral and the loan are the same asset: one pool
/// and one position carry both sides.
pub open spec fn single_pool_liquidation_outcome(
    status: MarketStatus,
    pool: AssetPool,
    position: UserPosition,
    acc: LiquidationAccounts,
    amount_to_repay: u64,
    price: Result<Price, LendingError>,
    now: i64,
) -> Result<(AssetPool, UserPosition, Liquidation), LendingError> {
    match liquidation_outcome(
        status,
        pool,
        pool,
        position,
        position,
        acc,
        amount_to_repay,
        price,
        price,
        now,
    ) {
        Err(e) => Err(e),
        Ok((cp, lp, cq, lq, amounts)) => Ok(
            (
                AssetPool { total_loans: lp.total_loans, ..cp },
                UserPosition { loan_amount: lq.loan_amount, ..cq },
                amounts,
            ),
        ),
    }
}

/// [`liquidate`] for a borrower whose collateral and debt sit in one pool.
pub fn liquidate_within_pool(
    config: &MarketConfig,
    pool: &mut AssetPool,
    position: &mut UserPosition,
    accounts: &LiquidationAccounts,
    amount_to_repay: u64,
    price: Result<Price, LendingError>,
    now: i64,
) -> (r: Result<Liquidation, LendingError>)
    ensures
        match single_pool_liquidation_outcome(
            config.status,
            *old(pool),
            *old(position),
            *accounts,
            amount_to_repay,
            price,
            now,
        ) {
            Ok((p, q, amounts)) => r == Ok::<Liquidation, LendingError>(amounts)
                && *final(pool) == p && *final(position) == q,
            Err(e) => r == Err::<Liquidation, LendingError>(e) && *final(pool) == *old(pool)
                && *final(position) == *old(position),
        },
{
    let mut cp = *pool;
    let mut lp = *pool;
    let mut cq = *position;
    let mut lq = *position;
    let amounts = liquidate(
        config,
        &mut cp,
        &mut lp,
        &mut cq,
        &mut lq,
        accounts,
        amount_to_repay,
        price,
        price,
        now,
    )?;
    cp.total_loans = lp.total_loans;
    cq.loan_amount = lq.loan_amount;
    *pool = cp;
    *position = cq;
    Ok(amounts)
}

} // verus!
