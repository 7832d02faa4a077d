//! Health, borrow eligibility and liquidation pricing.
use crate::error::LendingError;
use crate::math::{
    amount_from_value, apply_bps, asset_value, bps_of, calculate_amount_from_value,
    calculate_asset_value, Price,
};
use vstd::prelude::*;

verus! {

/// Liquidation bonus, in basis points of the repaid value.
pub const LIQUIDATION_BONUS_BPS: u128 = 500;

/// Close factor: the largest share of a debt one liquidation may repay.
pub const MAX_LIQUIDATION_RATIO_BPS: u128 = 5_000;

/// `value(debt) ≤ value(collateral) · limit_bps / 10_000`, with both values at `price`.
pub open spec fn within_limit(collateral: u64, debt: u64, price: Price, limit_bps: u64) -> Result<
    bool,
    LendingError,
> {
    match asset_value(collateral, price) {
        Err(e) => Err(e),
        Ok(cv) => match asset_value(debt, price) {
            Err(e) => Err(e),
            Ok(dv) => match bps_of(cv, limit_bps as u128) {
                Err(e) => Err(e),
                Ok(max) => Ok(dv <= max),
            },
        },
    }
}

/// A debt-free position is healthy; otherwise the debt stays within the
/// liquidation threshold of the collateral.
pub open spec fn healthy(collateral: u64, debt: u64, price: Price, lt_bps: u64) -> Result<
    bool,
    LendingError,
> {
    if debt == 0 {
        Ok(true)
    } else {
        within_limit(collateral, debt, price, lt_bps)
    }
}

/// Whether a position with debt `debt_amount` at `debt_price` against
/// `collateral_amount` at `collateral_price` can be liquidated: its debt value
/// is positive and above the threshold share of its collateral value.
pub open spec fn liquidatable(
    collateral_amount: u64,
    collateral_price: Price,
    debt_amount: u64,
    debt_price: Price,
    lt_bps: u64,
) -> Result<bool, LendingError> {
    match asset_value(collateral_amount, collateral_price) {
        Err(e) => Err(e),
        Ok(cv) => match asset_value(debt_amount, debt_price) {
            Err(e) => Err(e),
            Ok(dv) => if dv == 0 {
                Ok(false)
            } else if cv * lt_bps > u128::MAX {
                Err(LendingError::MathOverflow)
            } else {
                Ok(dv > cv * lt_bps / 10_000)
            },
        },
    }
}

/// Collateral units a liquidator receives for repaying `repay_amount`: the
/// repaid value plus the bonus, converted at the collateral price.
pub open spec fn seize_amount(repay_amount: u64, debt_price: Price, collateral_price: Price) -> Result<
    u64,
    LendingError,
> {
    match asset_value(repay_amount, debt_price) {
        Err(e) => Err(e),
        Ok(rv) => if rv * 10_500 > u128::MAX {
            Err(LendingError::MathOverflow)
        } else {
            amount_from_value((rv * 10_500 / 10_000) as u128, collateral_price)
        },
    }
}

/// Whether a position stays healthy at `price` under `liquidation_threshold_bps`.
pub fn is_healthy(collateral: u64, debt: u64, price: Price, liquidation_threshold_bps: u64) -> (r:
    Result<bool, LendingError>)
    ensures
        r == healthy(collateral, debt, price, liquidation_threshold_bps),
{
    if debt == 0 {
        return Ok(true);
    }
    let collateral_value = calculate_asset_value(collateral, price)?;
    let debt_value = calculate_asset_value(debt, price)?;
    let max_debt_value = apply_bps(collateral_value, liquidation_threshold_bps as u128)?;
    Ok(debt_value <= max_debt_value)
}

/// Whether `new_debt` is within `loan_to_value_bps` of the collateral at `price`.
pub fn is_eligible_for_borrow(collateral: u64, new_debt: u64, price: Price, loan_to_value_bps: u64) -> (r:
    Result<bool, LendingError>)
    ensures
        r == within_limit(collateral, new_debt, price, loan_to_value_bps),
{
    let collateral_value = calculate_asset_value(collateral, price)?;
    let new_debt_value = calculate_asset_value(new_debt, price)?;
    let max_borrow_value = apply_bps(collateral_value, loan_to_value_bps as u128)?;
    Ok(new_debt_value <= max_borrow_value)
}

/// Cross-pool liquidation test; the threshold is the collateral pool's.
pub fn is_liquidatable(
    collateral_amount: u64,
    collateral_price: Price,
    debt_amount: u64,
    debt_price: Price,
    liquidation_threshold_bps: u64,
) -> (r: Result<bool, LendingError>)
    ensures
        r == liquidatable(
            collateral_amount,
            collateral_price,
            debt_amount,
            debt_price,
            liquidation_threshold_bps,
        ),
{
    let collateral_value = calculate_asset_value(collateral_amount, collateral_price)?;
    let debt_value = calculate_asset_value(debt_amount, debt_price)?;
    if debt_value == 0 {
        return Ok(false);
    }
    let threshold_value = match collateral_value.checked_mul(liquidation_threshold_bps as u128) {
        Some(v) => v / 10_000,
        None => return Err(LendingError::MathOverflow),
    };
    Ok(debt_value > threshold_value)
}

/// Collateral to hand a liquidator who repays `repay_amount` of debt.
pub fn calculate_liquidation_bonus(repay_amount: u64, debt_price: Price, collateral_price: Price) -> (r:
    Result<u64, LendingError>)
    ensures
        r == seize_amount(repay_amount, debt_price, collateral_price),
{
    let repay_value = calculate_asset_value(repay_amount, debt_price)?;
    let seize_value = match repay_value.checked_mul(10_000 + LIQUIDATION_BONUS_BPS) {
        Some(v) => v / 10_000,
        None => return Err(LendingError::MathOverflow),
    };
    calculate_amount_from_value(seize_value, collateral_price)
}

} // verus!
