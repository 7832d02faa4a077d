//! User operations on one pool: deposit, withdraw, borrow and repay.
//!
//! Each operation checks the presented accounts, the market status and the
//! amount, accrues the pool's interest, then either commits the new pool and
//! position and reports the tokens to move, or fails leaving both untouched.
use crate::error::LendingError;
use crate::events::{Borrowed, Deposited, Repaid, Withdrawn};
use crate::keys::Pubkey;
use crate::market::{MarketConfig, MarketStatus};
use crate::math::Price;
use crate::pool::{accrued, AssetPool};
use crate::position::{accounts_check, check_accounts, PoolAccounts, UserPosition};
use crate::risk::{healthy, is_eligible_for_borrow, is_healthy, within_limit};
use vstd::prelude::*;

verus! {

/// The pool and position an operation commits.
pub type Committed = (AssetPool, UserPosition);

/// Deposit, withdraw, borrow and repay need the market active; withdraw and
/// repay also run in withdraw-only mode.
pub open spec fn status_gate(status: MarketStatus, exits_only: bool) -> Result<(), LendingError> {
    if exits_only {
        if status == MarketStatus::Active || status == MarketStatus::WithdrawOnly {
            Ok(())
        } else {
            Err(LendingError::ProtocolPaused)
        }
    } else if status == MarketStatus::Active {
        Ok(())
    } else {
        Err(LendingError::ProtocolNotActive)
    }
}

/// Common prefix of the single-pool operations: account identities, status,
/// a non-zero amount, then interest accrual.
pub open spec fn prepared(
    status: MarketStatus,
    exits_only: bool,
    pool: AssetPool,
    position: UserPosition,
    user: Pubkey,
    acc: PoolAccounts,
    amount: u64,
    now: i64,
) -> Result<AssetPool, LendingError> {
    match accounts_check(pool, position, user, acc) {
        Err(e) => Err(e),
        Ok(_) => match status_gate(status, exits_only) {
            Err(e) => Err(e),
            Ok(_) => if amount == 0 {
                Err(LendingError::ZeroAmount)
            } else {
                accrued(pool, now)
            },
        },
    }
}

/// Deposit `amount` as collateral: the position and the pool's deposits grow by it.
pub open spec fn deposit_outcome(
    status: MarketStatus,
    pool: AssetPool,
    position: UserPosition,
    user: Pubkey,
    acc: PoolAccounts,
    amount: u64,
    now: i64,
) -> Result<Committed, LendingError> {
    match prepared(status, false, pool, position, user, acc, amount, now) {
        Err(e) => Err(e),
        Ok(p) => if position.collateral_amount + amount > u64::MAX
            || p.total_deposits + amount > u64::MAX {
            Err(LendingError::MathOverflow)
        } else {
            Ok(
                (
                    AssetPool { total_deposits: (p.total_deposits + amount) as u64, ..p },
                    UserPosition {
                        collateral_amount: (position.collateral_amount + amount) as u64,
                        ..position
                    },
                ),
            )
        },
    }
}

/// Withdraw `amount` of collateral, which must be held and must leave the
/// position healthy at `price`.
pub open spec fn withdraw_outcome(
    status: MarketStatus,
    pool: AssetPool,
    position: UserPosition,
    user: Pubkey,
    acc: PoolAccounts,
    amount: u64,
    price: Result<Price, LendingError>,
    now: i64,
) -> Result<Committed, LendingError> {
    match prepared(status, true, pool, position, user, acc, amount, now) {
        Err(e) => Err(e),
        Ok(p) => if position.collateral_amount < amount {
            Err(LendingError::InsufficientCollateralAmount)
        } else {
            let rest = (position.collateral_amount - amount) as u64;
            match price {
                Err(e) => Err(e),
                Ok(pr) => match healthy(rest, position.loan_amount, pr, p.liquidation_threshold_bps) {
                    Err(e) => Err(e),
                    Ok(false) => Err(LendingError::PositionWouldBecomeUnhealthy),
                    Ok(true) => if p.total_deposits < amount {
                        Err(LendingError::MathOverflow)
                    } else {
                        Ok(
                            (
                                AssetPool {
                                    total_deposits: (p.total_deposits - amount) as u64,
                                    ..p
                                },
                                UserPosition { collateral_amount: rest, ..position },
                            ),
                        )
                    },
                },
            }
        },
    }
}

/// Borrow `amount`: the new debt must stay within the loan-to-value limit of
/// the collateral at `price`.
pub open spec fn borrow_outcome(
    status: MarketStatus,
    pool: AssetPool,
    position: UserPosition,
    user: Pubkey,
    acc: PoolAccounts,
    amount: u64,
    price: Result<Price, LendingError>,
    now: i64,
) -> Result<Committed, LendingError> {
    match prepared(status, false, pool, position, user, acc, amount, now) {
        Err(e) => Err(e),
        Ok(p) => if position.loan_amount + amount > u64::MAX {
            Err(LendingError::MathOverflow)
        } else {
            let debt = (position.loan_amount + amount) as u64;
            match price {
                Err(e) => Err(e),
                Ok(pr) => match within_limit(position.collateral_amount, debt, pr, p.loan_to_value_bps) {
                    Err(e) => Err(e),
                    Ok(false) => Err(LendingError::InsufficientCollateral),
                    Ok(true) => if p.total_loans + amount > u64::MAX {
                        Err(LendingError::MathOverflow)
                    } else {
                        Ok(
                            (
                                AssetPool { total_loans: (p.total_loans + amount) as u64, ..p },
                                UserPosition { loan_amount: debt, ..position },
                            ),
                        )
                    },
                },
            }
        },
    }
}

pub open spec fn min_u64(a: u64, b: u64) -> u64 {
    if a <= b {
        a
    } else {
        b
    }
}

/// Repay up to `amount`, clamped to the debt; with no debt nothing moves but
/// the accrual is kept.
pub open spec fn repay_outcome(
    status: MarketStatus,
    pool: AssetPool,
    position: UserPosition,
    user: Pubkey,
    acc: PoolAccounts,
    amount: u64,
    now: i64,
) -> Result<(Committed, u64), LendingError> {
    match prepared(status, true, pool, position, user, acc, amount, now) {
        Err(e) => Err(e),
        Ok(p) => {
            let actual = min_u64(amount, position.loan_amount);
            if actual == 0 {
                Ok(((p, position), 0))
            } else if p.total_loans < actual {
                Err(LendingError::MathOverflow)
            } else {
                Ok(
                    (
                        (
                            AssetPool { total_loans: (p.total_loans - actual) as u64, ..p },
                            UserPosition {
                                loan_amount: (position.loan_amount - actual) as u64,
                                ..position
                            },
                        ),
                        actual,
                    ),
                )
            }
        },
    }
}

fn gate(status: MarketStatus, exits_only: bool) -> (r: Result<(), LendingError>)
    ensures
        r == status_gate(status, exits_only),
{
    if exits_only {
        match status {
            MarketStatus::Active | MarketStatus::WithdrawOnly => Ok(()),
            MarketStatus::Paused => Err(LendingError::ProtocolPaused),
        }
    } else {
        match status {
            MarketStatus::Active => Ok(()),
            _ => Err(LendingError::ProtocolNotActive),
        }
    }
}

fn prepare(
    status: MarketStatus,
    exits_only: bool,
    pool: &AssetPool,
    position: &UserPosition,
    user: &Pubkey,
    acc: &PoolAccounts,
    amount: u64,
    now: i64,
) -> (r: Result<AssetPool, LendingError>)
    ensures
        r == prepared(status, exits_only, *pool, *position, *user, *acc, amount, now),
{
    check_accounts(pool, position, user, acc)?;
    gate(status, exits_only)?;
    if amount == 0 {
        return Err(LendingError::ZeroAmount);
    }
    let mut p = *pool;
    p.accrue_interest(now)?;
    Ok(p)
}

/// Moves `amount` of the asset from the user into the vault as collateral.
pub fn deposit(
    config: &MarketConfig,
    pool: &mut AssetPool,
    position: &mut UserPosition,
    user: &Pubkey,
    accounts: &PoolAccounts,
    amount: u64,
    now: i64,
) -> (r: Result<Deposited, LendingError>)
    ensures
        match deposit_outcome(config.status, *old(pool), *old(position), *user, *accounts, amount, now) {
            Ok((p, q)) => r == Ok::<Deposited, LendingError>(Deposited { pool: accounts.pool, user: *user, amount })
                && *final(pool) == p && *final(position) == q,
            Err(e) => r == Err::<Deposited, LendingError>(e) && *final(pool) == *old(pool)
                && *final(position) == *old(position),
        },
{
    let mut p = prepare(config.status, false, pool, position, user, accounts, amount, now)?;
    let collateral = match position.collateral_amount.checked_add(amount) {
        Some(v) => v,
        None => return Err(LendingError::MathOverflow),
    };
    p.total_deposits = match p.total_deposits.checked_add(amount) {
        Some(v) => v,
        None => return Err(LendingError::MathOverflow),
    };
    *pool = p;
    position.collateral_amount = collateral;
    Ok(Deposited { pool: accounts.pool, user: *user, amount })
}

/// Moves `amount` of collateral from the vault back to the user.
pub fn withdraw(
    config: &MarketConfig,
    pool: &mut AssetPool,
    position: &mut UserPosition,
    user: &Pubkey,
    accounts: &PoolAccounts,
    amount: u64,
    price: Result<Price, LendingError>,
    now: i64,
) -> (r: Result<Withdrawn, LendingError>)
    ensures
        match withdraw_outcome(
            config.status,
            *old(pool),
            *old(position),
            *user,
            *accounts,
            amount,
            price,
            now,
        ) {
            Ok((p, q)) => r == Ok::<Withdrawn, LendingError>(Withdrawn { pool: accounts.pool, user: *user, amount })
                && *final(pool) == p && *final(position) == q,
            Err(e) => r == Err::<Withdrawn, LendingError>(e) && *final(pool) == *old(pool)
                && *final(position) == *old(position),
        },
{
    let mut p = prepare(config.status, true, pool, position, user, accounts, amount, now)?;
    let rest = match position.collateral_amount.checked_sub(amount) {
        Some(v) => v,
        None => return Err(LendingError::InsufficientCollateralAmount),
    };
    let pr = price?;
    if !is_healthy(rest, position.loan_amount, pr, p.liquidation_threshold_bps)? {
        return Err(LendingError::PositionWouldBecomeUnhealthy);
    }
    p.total_deposits = match p.total_deposits.checked_sub(amount) {
        Some(v) => v,
        None => return Err(LendingError::MathOverflow),
    };
    *pool = p;
    position.collateral_amount = rest;
    Ok(Withdrawn { pool: accounts.pool, user: *user, amount })
}

/// Moves `amount` from the vault to the user as new debt.
pub fn borrow(
    config: &MarketConfig,
    pool: &mut AssetPool,
    position: &mut UserPosition,
    user: &Pubkey,
    accounts: &PoolAccounts,
    amount: u64,
    price: Result<Price, LendingError>,
    now: i64,
) -> (r: Result<Borrowed, LendingError>)
    ensures
        match borrow_outcome(
            config.status,
            *old(pool),
            *old(position),
            *user,
            *accounts,
            amount,
            price,
            now,
        ) {
            Ok((p, q)) => r == Ok::<Borrowed, LendingError>(Borrowed { pool: accounts.pool, user: *user, amount })
                && *final(pool) == p && *final(position) == q,
            Err(e) => r == Err::<Borrowed, LendingError>(e) && *final(pool) == *old(pool)
                && *final(position) == *old(position),
        },
{
    let mut p = prepare(config.status, false, pool, position, user, accounts, amount, now)?;
    let debt = match position.loan_amount.checked_add(amount) {
        Some(v) => v,
        None => return Err(LendingError::MathOverflow),
    };
    let pr = price?;
    if !is_eligible_for_borrow(position.collateral_amount, debt, pr, p.loan_to_value_bps)? {
        return Err(LendingError::InsufficientCollateral);
    }
    p.total_loans = match p.total_loans.checked_add(amount) {
        Some(v) => v,
        None => return Err(LendingError::MathOverflow),
    };
    *pool = p;
    position.loan_amount = debt;
    Ok(Borrowed { pool: accounts.pool, user: *user, amount })
}

/// Moves up to `amount` from the user into the vault against the debt; the
/// event reports how much moved.
pub fn repay(
    config: &MarketConfig,
    pool: &mut AssetPool,
    position: &mut UserPosition,
    user: &Pubkey,
    accounts: &PoolAccounts,
    amount: u64,
    now: i64,
) -> (r: Result<Repaid, LendingError>)
    ensures
        match repay_outcome(config.status, *old(pool), *old(position), *user, *accounts, amount, now) {
            Ok(((p, q), actual)) => r == Ok::<Repaid, LendingError>(
                Repaid { pool: accounts.pool, user: *user, amount: actual },
            ) && *final(pool) == p
                && *final(position) == q,
            Err(e) => r == Err::<Repaid, LendingError>(e) && *final(pool) == *old(pool)
                && *final(position) == *old(position),
        },
{
    let mut p = prepare(config.status, true, pool, position, user, accounts, amount, now)?;
    let actual = if amount <= position.loan_amount {
        amount
    } else {
        position.loan_amount
    };
    if actual == 0 {
        *pool = p;
        return Ok(Repaid { pool: accounts.pool, user: *user, amount: 0 });
    }
    p.total_loans = match p.total_loans.checked_sub(actual) {
        Some(v) => v,
        None => return Err(LendingError::MathOverflow),
    };
    *pool = p;
    position.loan_amount = position.loan_amount - actual;
    Ok(Repaid { pool: accounts.pool, user: *user, amount: actual })
}

} // verus!
