//! Per-asset pool: totals, risk parameters, the kinked rate model and
//! interest accrual.
use crate::error::LendingError;
use crate::keys::Pubkey;
use crate::math::BASIS_POINTS_DIVISOR;
use crate::wide::{mul_div_wide, wide_bound, wide_mul_div};
use vstd::prelude::*;

verus! {

pub const SECONDS_IN_YEAR: u128 = 31_536_000;

/// Risk and rate parameters set by governance.
#[derive(Debug, Clone, Copy, PartialEq, Eq, Structural)]
pub struct AssetPoolParams {
    pub loan_to_value_bps: u64,
    pub liquidation_threshold_bps: u64,
    pub base_borrow_rate_bps: u128,
    pub base_slope_bps: u128,
    pub optimal_utilization_bps: u64,
    pub kink_slope_bps: u128,
    pub protocol_fee_bps: u64,
    pub flash_loan_fee_bps: u64,
}

/// State of one supported asset.
#[derive(Debug, Clone, Copy, PartialEq, Eq)]
pub struct AssetPool {
    pub asset_mint: Pubkey,
    pub asset_vault: Pubkey,
    pub pyth_price_feed: Pubkey,
    pub chainlink_price_feed: Pubkey,
    pub total_deposits: u64,
    pub total_loans: u64,
    pub accrued_protocol_fees: u64,
    pub last_interest_update_timestamp: i64,
    pub loan_to_value_bps: u64,
    pub liquidation_threshold_bps: u64,
    pub base_borrow_rate_bps: u128,
    pub base_slope_bps: u128,
    pub optimal_utilization_bps: u64,
    pub kink_slope_bps: u128,
    pub protocol_fee_bps: u64,
    pub flash_loan_fee_bps: u64,
}

/// The parameter invariants: `ltv ≤ lt < 10_000` and `optimal < 10_000`.
pub open spec fn params_valid(p: AssetPoolParams) -> bool {
    p.loan_to_value_bps <= p.liquidation_threshold_bps
        && p.liquidation_threshold_bps < 10_000
        && p.optimal_utilization_bps < 10_000
}

/// The first parameter invariant that `p` breaks, if any.
pub open spec fn params_check(p: AssetPoolParams) -> Result<(), LendingError> {
    if !(p.loan_to_value_bps <= p.liquidation_threshold_bps) {
        Err(LendingError::InvalidLtv)
    } else if !(p.liquidation_threshold_bps < 10_000) {
        Err(LendingError::InvalidLiquidationThreshold)
    } else if !(p.optimal_utilization_bps < 10_000) {
        Err(LendingError::InvalidOptimalUtilization)
    } else {
        Ok(())
    }
}

/// `pool` with its parameters replaced by `p`.
pub open spec fn with_params(pool: AssetPool, p: AssetPoolParams) -> AssetPool {
    AssetPool {
        loan_to_value_bps: p.loan_to_value_bps,
        liquidation_threshold_bps: p.liquidation_threshold_bps,
        base_borrow_rate_bps: p.base_borrow_rate_bps,
        base_slope_bps: p.base_slope_bps,
        optimal_utilization_bps: p.optimal_utilization_bps,
        kink_slope_bps: p.kink_slope_bps,
        protocol_fee_bps: p.protocol_fee_bps,
        flash_loan_fee_bps: p.flash_loan_fee_bps,
        ..pool
    }
}

pub open spec fn sat_add_u64(a: u64, b: u64) -> u64 {
    if a as int + b as int > u64::MAX {
        u64::MAX
    } else {
        (a + b) as u64
    }
}

pub open spec fn sat_sub_u64(a: u64, b: u64) -> u64 {
    if a < b {
        0
    } else {
        (a - b) as u64
    }
}

/// Seconds elapsed since `last`, never negative.
pub open spec fn elapsed(last: i64, now: i64) -> int {
    if now > last {
        now - last
    } else {
        0
    }
}

/// Utilization in basis points: `loans · 10_000 / deposits`, 0 with no deposits.
pub open spec fn utilization(loans: u64, deposits: u64) -> int {
    if deposits == 0 {
        0
    } else {
        (loans as int) * 10_000 / (deposits as int)
    }
}

/// The kinked borrow rate (basis points per year) at utilization `u`:
/// `base + u · base_slope / U*` up to the optimal utilization `U*`, and
/// `base + base_slope + (u − U*) · kink_slope / (10_000 − U*)` above it. A zero
/// divisor, a product beyond 192 bits or a rate beyond 128 bits is
/// `MathOverflow`.
pub open spec fn borrow_rate(pool: AssetPool, u: u128) -> Result<u128, LendingError> {
    let opt = pool.optimal_utilization_bps as int;
    let base = pool.base_borrow_rate_bps as int;
    if u <= opt {
        match wide_mul_div(u as int, pool.base_slope_bps as int, 1, opt, 1) {
            None => Err(LendingError::MathOverflow),
            Some(s) => if base + s > u128::MAX {
                Err(LendingError::MathOverflow)
            } else {
                Ok((base + s) as u128)
            },
        }
    } else {
        let at_opt = base + pool.base_slope_bps;
        let range = if opt > 10_000 { 0 } else { 10_000 - opt };
        if at_opt > u128::MAX {
            Err(LendingError::MathOverflow)
        } else {
            match wide_mul_div(u - opt, pool.kink_slope_bps as int, 1, range, 1) {
                None => Err(LendingError::MathOverflow),
                Some(k) => if at_opt + k > u128::MAX {
                    Err(LendingError::MathOverflow)
                } else {
                    Ok((at_opt + k) as u128)
                },
            }
        }
    }
}

/// A 64-bit cap on an amount computed in the wide domain: a result that
/// left the domain or exceeds 64 bits becomes `u64::MAX`.
pub open spec fn capped_u64(x: Option<u128>) -> u64 {
    match x {
        None => u64::MAX,
        Some(v) => if v > u64::MAX {
            u64::MAX
        } else {
            v as u64
        },
    }
}

/// Interest owed on `loans` at `rate` over `dt` seconds:
/// `loans · rate · dt / SECONDS_IN_YEAR / 10_000`, capped at `u64::MAX`.
pub open spec fn period_interest(loans: u64, rate: u128, dt: int) -> u64 {
    capped_u64(
        wide_mul_div(
            loans as int,
            rate as int,
            dt,
            SECONDS_IN_YEAR as int,
            BASIS_POINTS_DIVISOR as int,
        ),
    )
}

/// The protocol's share `interest · protocol_fee_bps / 10_000`, capped at `u64::MAX`.
pub open spec fn protocol_share(interest: u64, protocol_fee_bps: u64) -> u64 {
    capped_u64(
        wide_mul_div(interest as int, protocol_fee_bps as int, 1, BASIS_POINTS_DIVISOR as int, 1),
    )
}

/// The pool after interest accrues up to `now`.
///
/// With no elapsed time or no loans only the timestamp moves. Otherwise
/// [`period_interest`] at the current rate is added to the loans, its
/// [`protocol_share`] to the protocol fees and the rest to the deposits, all
/// with saturation, so accrual fails only when the rate itself cannot be
/// computed.
pub open spec fn accrued(pool: AssetPool, now: i64) -> Result<AssetPool, LendingError> {
    let dt = elapsed(pool.last_interest_update_timestamp, now);
    if dt == 0 || pool.total_loans == 0 {
        Ok(AssetPool { last_interest_update_timestamp: now, ..pool })
    } else {
        match borrow_rate(pool, utilization(pool.total_loans, pool.total_deposits) as u128) {
            Err(e) => Err(e),
            Ok(rate) => {
                let interest = period_interest(pool.total_loans, rate, dt);
                let fee = protocol_share(interest, pool.protocol_fee_bps);
                Ok(
                    AssetPool {
                        accrued_protocol_fees: sat_add_u64(pool.accrued_protocol_fees, fee),
                        total_deposits: sat_add_u64(
                            pool.total_deposits,
                            sat_sub_u64(interest, fee),
                        ),
                        total_loans: sat_add_u64(pool.total_loans, interest),
                        last_interest_update_timestamp: now,
                        ..pool
                    },
                )
            },
        }
    }
}

fn cap_u64(x: Option<u128>) -> (r: u64)
    ensures
        r == capped_u64(x),
{
    match x {
        None => u64::MAX,
        Some(v) => if v > u64::MAX as u128 {
            u64::MAX
        } else {
            v as u64
        },
    }
}

impl AssetPool {
    /// A new pool with zero totals and the given identities and parameters.
    pub fn new(
        asset_mint: Pubkey,
        asset_vault: Pubkey,
        pyth_price_feed: Pubkey,
        chainlink_price_feed: Pubkey,
        params: AssetPoolParams,
        now: i64,
    ) -> (r: Result<AssetPool, LendingError>)
        ensures
            match params_check(params) {
                Err(e) => r == Err::<AssetPool, LendingError>(e),
                Ok(_) => r matches Ok(p) && p.asset_mint == asset_mint && p.asset_vault
                    == asset_vault && p.pyth_price_feed == pyth_price_feed
                    && p.chainlink_price_feed == chainlink_price_feed && p.total_deposits == 0
                    && p.total_loans == 0 && p.accrued_protocol_fees == 0
                    && p.last_interest_update_timestamp == now && p == with_params(p, params),
            },
    {
        let mut pool = AssetPool {
            asset_mint,
            asset_vault,
            pyth_price_feed,
            chainlink_price_feed,
            total_deposits: 0,
            total_loans: 0,
            accrued_protocol_fees: 0,
            last_interest_update_timestamp: now,
            loan_to_value_bps: 0,
            liquidation_threshold_bps: 0,
            base_borrow_rate_bps: 0,
            base_slope_bps: 0,
            optimal_utilization_bps: 0,
            kink_slope_bps: 0,
            protocol_fee_bps: 0,
            flash_loan_fee_bps: 0,
        };
        pool.apply_params(params)?;
        Ok(pool)
    }

    /// Validates `params` and, when they hold, installs them.
    pub fn apply_params(&mut self, params: AssetPoolParams) -> (r: Result<(), LendingError>)
        ensures
            r == params_check(params),
            r is Ok ==> *final(self) == with_params(*old(self), params),
            r is Err ==> *final(self) == *old(self),
    {
        if !(params.loan_to_value_bps <= params.liquidation_threshold_bps) {
            return Err(LendingError::InvalidLtv);
        }
        if !(params.liquidation_threshold_bps < 10_000) {
            return Err(LendingError::InvalidLiquidationThreshold);
        }
        if !(params.optimal_utilization_bps < 10_000) {
            return Err(LendingError::InvalidOptimalUtilization);
        }
        self.loan_to_value_bps = params.loan_to_value_bps;
        self.liquidation_threshold_bps = params.liquidation_threshold_bps;
        self.base_borrow_rate_bps = params.base_borrow_rate_bps;
        self.base_slope_bps = params.base_slope_bps;
        self.optimal_utilization_bps = params.optimal_utilization_bps;
        self.kink_slope_bps = params.kink_slope_bps;
        self.protocol_fee_bps = params.protocol_fee_bps;
        self.flash_loan_fee_bps = params.flash_loan_fee_bps;
        Ok(())
    }

    /// The borrow rate of the kinked model at `utilization_bps`.
    pub fn calculate_current_apy(&self, utilization_bps: u128) -> (r: Result<u128, LendingError>)
        ensures
            r == borrow_rate(*self, utilization_bps),
    {
        let opt = self.optimal_utilization_bps as u128;
        if utilization_bps <= opt {
            match mul_div_wide(utilization_bps, self.base_slope_bps, 1, opt, 1) {
                None => Err(LendingError::MathOverflow),
                Some(s) => self.base_borrow_rate_bps.checked_add(s).ok_or(
                    LendingError::MathOverflow,
                ),
            }
        } else {
            let at_opt = match self.base_borrow_rate_bps.checked_add(self.base_slope_bps) {
                Some(v) => v,
                None => return Err(LendingError::MathOverflow),
            };
            let range = BASIS_POINTS_DIVISOR.saturating_sub(opt);
            match mul_div_wide(utilization_bps - opt, self.kink_slope_bps, 1, range, 1) {
                None => Err(LendingError::MathOverflow),
                Some(k) => at_opt.checked_add(k).ok_or(LendingError::MathOverflow),
            }
        }
    }

    /// Accrues interest up to `now`; on error the pool is unchanged.
    pub fn accrue_interest(&mut self, now: i64) -> (r: Result<(), LendingError>)
        ensures
            match accrued(*old(self), now) {
                Ok(p) => r is Ok && *final(self) == p,
                Err(e) => r == Err::<(), LendingError>(e) && *final(self) == *old(self),
            },
    {
        let dt: u128 = if now > self.last_interest_update_timestamp {
            (now as i128 - self.last_interest_update_timestamp as i128) as u128
        } else {
            0
        };
        if dt == 0 || self.total_loans == 0 {
            self.last_interest_update_timestamp = now;
            return Ok(());
        }
        let u: u128 = if self.total_deposits == 0 {
            0
        } else {
            let w = mul_div_wide(self.total_loans as u128, 10_000, 1, self.total_deposits as u128, 1);
            proof {
                let l = self.total_loans as int;
                let d = self.total_deposits as int;
                assert(l * 10_000 < wide_bound()) by (nonlinear_arith)
                    requires 0 <= l <= u64::MAX;
                assert(l * 10_000 * 1 == l * 10_000);
                assert(l * 10_000 / d <= l * 10_000) by (nonlinear_arith)
                    requires 0 <= l, d >= 1;
                assert(l * 10_000 / d / 1 == l * 10_000 / d);
            }
            match w {
                Some(v) => v,
                None => u128::MAX,
            }
        };
        let rate = self.calculate_current_apy(u)?;
        let interest = cap_u64(
            mul_div_wide(self.total_loans as u128, rate, dt, SECONDS_IN_YEAR, BASIS_POINTS_DIVISOR),
        );
        let fee = cap_u64(
            mul_div_wide(interest as u128, self.protocol_fee_bps as u128, 1, BASIS_POINTS_DIVISOR, 1),
        );
        let lender = interest.saturating_sub(fee);
        self.accrued_protocol_fees = self.accrued_protocol_fees.saturating_add(fee);
        self.total_deposits = self.total_deposits.saturating_add(lender);
        self.total_loans = self.total_loans.saturating_add(interest);
        self.last_interest_update_timestamp = now;
        Ok(())
    }
}

} // verus!
