use lending_core::batch::{execute_operations, Operation, Transfer};
use lending_core::delegation::{approve_delegation, borrow_delegated, revoke_delegation};
use lending_core::error::LendingError;
use lending_core::flash::{flash_loan_begin, flash_loan_settle};
use lending_core::keys::Pubkey;
use lending_core::liquidation::{liquidate, liquidate_within_pool, LiquidationAccounts};
use lending_core::market::{MarketConfig, MarketStatus};
use lending_core::math::Price;
use lending_core::ops::{borrow, deposit, repay, withdraw};
use lending_core::pool::{AssetPool, AssetPoolParams, SECONDS_IN_YEAR};
use lending_core::position::{create_user_position, CreditDelegation, PoolAccounts, UserPosition};

const GOV: u8 = 1;
const USER: u8 = 2;
const POOL_A: u8 = 10;
const MINT_A: u8 = 11;
const VAULT_A: u8 = 12;
const PYTH_A: u8 = 13;
const POOL_B: u8 = 20;
const MINT_B: u8 = 21;
const VAULT_B: u8 = 22;
const PYTH_B: u8 = 23;
const LIQUIDATOR: u8 = 30;
const DELEGATEE: u8 = 31;

fn key(b: u8) -> Pubkey {
    Pubkey::new([b; 32])
}

fn params(ltv: u64, lt: u64) -> AssetPoolParams {
    AssetPoolParams {
        loan_to_value_bps: ltv,
        liquidation_threshold_bps: lt,
        base_borrow_rate_bps: 0,
        base_slope_bps: 0,
        optimal_utilization_bps: 8_000,
        kink_slope_bps: 0,
        protocol_fee_bps: 0,
        flash_loan_fee_bps: 0,
    }
}

fn pool_with(mint: u8, vault: u8, pyth: u8, p: AssetPoolParams) -> AssetPool {
    AssetPool::new(key(mint), key(vault), key(pyth), Pubkey::zero(), p, 0).unwrap()
}

fn pool_a() -> AssetPool {
    pool_with(MINT_A, VAULT_A, PYTH_A, params(7_500, 8_000))
}

fn accounts_a() -> PoolAccounts {
    PoolAccounts {
        pool: key(POOL_A),
        asset_mint: key(MINT_A),
        asset_vault: key(VAULT_A),
        user_token_mint: key(MINT_A),
        pyth_price_feed: key(PYTH_A),
        chainlink_price_feed: Pubkey::zero(),
    }
}

fn market() -> MarketConfig {
    MarketConfig::initialize_market_config(key(GOV)).0
}

/// One whole token of a 6-decimal asset worth $1 is worth 10^6 precision units.
fn one_dollar() -> Result<Price, LendingError> {
    Ok(Price { price: 1, conf: 0, expo: 12, publish_time: 0 })
}

fn half_dollar() -> Result<Price, LendingError> {
    Ok(Price { price: 50, conf: 0, expo: 10, publish_time: 0 })
}

#[test]
fn deposit_borrow_repay_scenario() {
    let config = market();
    let mut pool = pool_a();
    let mut pos = create_user_position(key(USER), key(POOL_A));
    let acc = accounts_a();
    deposit(&config, &mut pool, &mut pos, &key(USER), &acc, 1_000_000, 0).unwrap();
    assert_eq!(pos.collateral_amount, 1_000_000);
    assert_eq!(pool.total_deposits, 1_000_000);
    borrow(&config, &mut pool, &mut pos, &key(USER), &acc, 750_000, one_dollar(), 0).unwrap();
    assert_eq!(pos.loan_amount, 750_000);
    let before = (pool, pos);
    assert_eq!(
        borrow(&config, &mut pool, &mut pos, &key(USER), &acc, 1, one_dollar(), 0),
        Err(LendingError::InsufficientCollateral)
    );
    assert_eq!((pool, pos), before);
    assert_eq!(repay(&config, &mut pool, &mut pos, &key(USER), &acc, 750_000, 0).map(|e| e.amount), Ok(750_000));
    assert_eq!(pos.loan_amount, 0);
    assert_eq!(pool.total_loans, 0);
}

#[test]
fn small_amounts_floor_to_zero_value_at_a_negative_exponent() {
    let p = Price { price: 100, conf: 0, expo: -2, publish_time: 0 };
    assert_eq!(lending_core::math::calculate_asset_value(1_000_000, p), Ok(0));
    assert_eq!(
        lending_core::math::calculate_asset_value(3_000_000_000_000, p),
        Ok(3)
    );
}

#[test]
fn interest_accrual_scenario() {
    let p = AssetPoolParams {
        loan_to_value_bps: 7_500,
        liquidation_threshold_bps: 8_000,
        base_borrow_rate_bps: 1_000,
        base_slope_bps: 0,
        optimal_utilization_bps: 8_000,
        kink_slope_bps: 0,
        protocol_fee_bps: 1_000,
        flash_loan_fee_bps: 0,
    };
    let mut pool = pool_with(MINT_A, VAULT_A, PYTH_A, p);
    pool.total_loans = 1_000_000;
    pool.total_deposits = 2_000_000;
    assert_eq!(pool.calculate_current_apy(5_000), Ok(1_000));
    pool.accrue_interest(SECONDS_IN_YEAR as i64).unwrap();
    assert_eq!(pool.total_loans, 1_100_000);
    assert_eq!(pool.total_deposits, 2_090_000);
    assert_eq!(pool.accrued_protocol_fees, 10_000);
    assert_eq!(pool.last_interest_update_timestamp, SECONDS_IN_YEAR as i64);
}

#[test]
fn kinked_rate_above_optimal() {
    let p = AssetPoolParams {
        loan_to_value_bps: 7_500,
        liquidation_threshold_bps: 8_000,
        base_borrow_rate_bps: 200,
        base_slope_bps: 400,
        optimal_utilization_bps: 8_000,
        kink_slope_bps: 6_000,
        protocol_fee_bps: 0,
        flash_loan_fee_bps: 0,
    };
    let pool = pool_with(MINT_A, VAULT_A, PYTH_A, p);
    // 200 + 4_000 · 400 / 8_000
    assert_eq!(pool.calculate_current_apy(4_000), Ok(400));
    // 200 + 400 + (9_000 − 8_000) · 6_000 / 2_000
    assert_eq!(pool.calculate_current_apy(9_000), Ok(3_600));
}

#[test]
fn accrual_without_elapsed_time_only_moves_timestamp() {
    let mut pool = pool_a();
    pool.total_loans = 5;
    pool.total_deposits = 10;
    pool.last_interest_update_timestamp = 100;
    let before = pool;
    pool.accrue_interest(50).unwrap();
    assert_eq!(pool.total_loans, before.total_loans);
    assert_eq!(pool.total_deposits, before.total_deposits);
    assert_eq!(pool.last_interest_update_timestamp, 50);
}

fn liquidation_setup() -> (AssetPool, AssetPool, UserPosition, UserPosition, LiquidationAccounts) {
    let mut coll_pool = pool_with(MINT_A, VAULT_A, PYTH_A, params(7_500, 8_000));
    let mut loan_pool = pool_with(MINT_B, VAULT_B, PYTH_B, params(7_500, 8_000));
    coll_pool.total_deposits = 2_000_000;
    loan_pool.total_deposits = 5_000_000;
    loan_pool.total_loans = 1_000_000;
    let mut coll_pos = create_user_position(key(USER), key(POOL_A));
    coll_pos.collateral_amount = 2_000_000;
    let mut loan_pos = create_user_position(key(USER), key(POOL_B));
    loan_pos.loan_amount = 1_000_000;
    let acc = LiquidationAccounts {
        liquidator: key(LIQUIDATOR),
        borrower: key(USER),
        collateral_pool: key(POOL_A),
        loan_pool: key(POOL_B),
        collateral_mint: key(MINT_A),
        loan_mint: key(MINT_B),
        liquidator_collateral_mint: key(MINT_A),
        liquidator_loan_mint: key(MINT_B),
        collateral_vault: key(VAULT_A),
        loan_vault: key(VAULT_B),
        collateral_pyth_feed: key(PYTH_A),
        collateral_chainlink_feed: Pubkey::zero(),
        loan_pyth_feed: key(PYTH_B),
        loan_chainlink_feed: Pubkey::zero(),
    };
    (coll_pool, loan_pool, coll_pos, loan_pos, acc)
}

#[test]
fn liquidation_scenario() {
    let config = market();
    let (mut cp, mut lp, mut cq, mut lq, acc) = liquidation_setup();
    let amounts = liquidate(
        &config, &mut cp, &mut lp, &mut cq, &mut lq, &acc, 900_000, half_dollar(), one_dollar(), 0,
    )
    .unwrap();
    assert_eq!(amounts.repay_amount, 500_000);
    assert_eq!(amounts.seized_collateral_amount, 1_050_000);
    assert_eq!(cq.collateral_amount, 950_000);
    assert_eq!(lq.loan_amount, 500_000);
    assert_eq!(lp.total_loans, 500_000);
    assert_eq!(cp.total_deposits, 950_000);
}

#[test]
fn liquidation_rejects_healthy_position_and_self() {
    let config = market();
    let (mut cp, mut lp, mut cq, mut lq, mut acc) = liquidation_setup();
    assert_eq!(
        liquidate(&config, &mut cp, &mut lp, &mut cq, &mut lq, &acc, 1, one_dollar(), one_dollar(), 0),
        Err(LendingError::PositionHealthy)
    );
    acc.liquidator = key(USER);
    let before = (cp, lp, cq, lq);
    assert_eq!(
        liquidate(&config, &mut cp, &mut lp, &mut cq, &mut lq, &acc, 1, half_dollar(), one_dollar(), 0),
        Err(LendingError::CannotLiquidateSelf)
    );
    assert_eq!((cp, lp, cq, lq), before);
}

#[test]
fn liquidation_within_one_pool() {
    let config = market();
    let mut pool = pool_a();
    pool.total_deposits = 1_000_000;
    pool.total_loans = 900_000;
    let mut pos = create_user_position(key(USER), key(POOL_A));
    pos.collateral_amount = 1_000_000;
    pos.loan_amount = 900_000;
    let acc = LiquidationAccounts {
        liquidator: key(LIQUIDATOR),
        borrower: key(USER),
        collateral_pool: key(POOL_A),
        loan_pool: key(POOL_A),
        collateral_mint: key(MINT_A),
        loan_mint: key(MINT_A),
        liquidator_collateral_mint: key(MINT_A),
        liquidator_loan_mint: key(MINT_A),
        collateral_vault: key(VAULT_A),
        loan_vault: key(VAULT_A),
        collateral_pyth_feed: key(PYTH_A),
        collateral_chainlink_feed: Pubkey::zero(),
        loan_pyth_feed: key(PYTH_A),
        loan_chainlink_feed: Pubkey::zero(),
    };
    let amounts =
        liquidate_within_pool(&config, &mut pool, &mut pos, &acc, 100_000, one_dollar(), 0).unwrap();
    assert_eq!(amounts.repay_amount, 100_000);
    assert_eq!(amounts.seized_collateral_amount, 105_000);
    assert_eq!(pos.collateral_amount, 895_000);
    assert_eq!(pos.loan_amount, 800_000);
    assert_eq!(pool.total_deposits, 895_000);
    assert_eq!(pool.total_loans, 800_000);
}

fn flash_pool() -> AssetPool {
    let mut p = params(7_500, 8_000);
    p.flash_loan_fee_bps = 30;
    let mut pool = pool_with(MINT_A, VAULT_A, PYTH_A, p);
    pool.total_deposits = 1_000_000;
    pool
}

#[test]
fn flash_loan_scenario() {
    let config = market();
    let mut pool = flash_pool();
    let ticket =
        flash_loan_begin(&config, &pool, &accounts_a(), &key(40), &key(41), key(USER), 500_000, 1_000_000).unwrap();
    assert_eq!(ticket.fee, 1_500);
    assert_eq!(ticket.balance_before, 1_000_000);
    // the receiver pays back 501_500 into a vault that held 500_000
    let ev = flash_loan_settle(&mut pool, &ticket, 1_001_500, 0).unwrap();
    assert_eq!((ev.pool, ev.receiver, ev.amount, ev.fee), (key(POOL_A), key(USER), 500_000, 1_500));
    assert_eq!(pool.accrued_protocol_fees, 1_500);
    assert_eq!(pool.total_deposits, 1_001_500);
}

#[test]
fn flash_loan_short_repayment_fails() {
    let config = market();
    let mut pool = flash_pool();
    let ticket =
        flash_loan_begin(&config, &pool, &accounts_a(), &key(40), &key(41), key(USER), 500_000, 1_000_000).unwrap();
    let before = pool;
    assert_eq!(
        flash_loan_settle(&mut pool, &ticket, 1_000_000, 0),
        Err(LendingError::FlashLoanRepaymentFailed)
    );
    assert_eq!(pool, before);
}

#[test]
fn flash_loan_preconditions() {
    let config = market();
    let pool = flash_pool();
    let acc = accounts_a();
    assert_eq!(
        flash_loan_begin(&config, &pool, &acc, &key(41), &key(41), key(USER), 500_000, 1_000_000),
        Err(LendingError::FlashLoanReentrancy)
    );
    assert_eq!(
        flash_loan_begin(&config, &pool, &acc, &key(40), &key(41), key(USER), 0, 1_000_000),
        Err(LendingError::ZeroAmount)
    );
    assert_eq!(
        flash_loan_begin(&config, &pool, &acc, &key(40), &key(41), key(USER), 1_000_001, 1_000_000),
        Err(LendingError::InsufficientLiquidity)
    );
    let no_flash = pool_a();
    assert_eq!(
        flash_loan_begin(&config, &no_flash, &acc, &key(40), &key(41), key(USER), 10, 1_000_000),
        Err(LendingError::FlashLoanNotAvailable)
    );
}

#[test]
fn delegation_scenario() {
    let config = market();
    let mut pool = pool_a();
    let mut owner_pos = create_user_position(key(USER), key(POOL_A));
    owner_pos.collateral_amount = 1_000_000;
    pool.total_deposits = 1_000_000;
    let mut slot: Option<CreditDelegation> = None;
    approve_delegation(&config, &mut slot, key(USER), key(POOL_A), key(DELEGATEE), 400_000).unwrap();
    let mut d = slot.unwrap();
    assert_eq!(d.initial_delegated_amount, 400_000);
    assert_eq!(d.delegated_amount, 400_000);
    let mut acc = accounts_a();
    borrow_delegated(
        &config, &mut pool, &mut owner_pos, &mut d, &key(USER), &key(DELEGATEE), &acc, 150_000,
        one_dollar(), 0,
    )
    .unwrap();
    assert_eq!(owner_pos.loan_amount, 150_000);
    assert_eq!(d.delegated_amount, 250_000);
    assert_eq!(
        borrow_delegated(
            &config, &mut pool, &mut owner_pos, &mut d, &key(USER), &key(DELEGATEE), &acc, 300_000,
            one_dollar(), 0,
        ),
        Err(LendingError::DelegationExceeded)
    );
    acc.user_token_mint = key(MINT_B);
    assert_eq!(
        borrow_delegated(
            &config, &mut pool, &mut owner_pos, &mut d, &key(USER), &key(DELEGATEE), &acc, 1,
            one_dollar(), 0,
        ),
        Err(LendingError::InvalidAssetMint)
    );
    let mut slot = Some(d);
    assert_eq!(revoke_delegation(&mut slot, &key(DELEGATEE)), Err(LendingError::InvalidOwner));
    let ev = revoke_delegation(&mut slot, &key(USER)).unwrap();
    assert_eq!((ev.owner, ev.delegatee, ev.pool, ev.delegated_amount), (key(USER), key(DELEGATEE), key(POOL_A), 0));
    assert_eq!(slot, None);
    assert_eq!(owner_pos.loan_amount, 150_000);
}

#[test]
fn delegated_borrow_by_wrong_delegatee_fails() {
    let config = market();
    let mut pool = pool_a();
    let mut owner_pos = create_user_position(key(USER), key(POOL_A));
    owner_pos.collateral_amount = 1_000_000;
    let mut slot: Option<CreditDelegation> = None;
    approve_delegation(&config, &mut slot, key(USER), key(POOL_A), key(DELEGATEE), 400_000).unwrap();
    let mut d = slot.unwrap();
    assert_eq!(
        borrow_delegated(
            &config, &mut pool, &mut owner_pos, &mut d, &key(USER), &key(LIQUIDATOR), &accounts_a(),
            10, one_dollar(), 0,
        ),
        Err(LendingError::DelegationMismatch)
    );
}

fn paused_setup(status_withdraw_only: bool) -> (MarketConfig, AssetPool, UserPosition) {
    let mut config = market();
    if status_withdraw_only {
        config.enable_withdraw_only_mode(&key(GOV)).unwrap();
        assert_eq!(config.status, MarketStatus::WithdrawOnly);
    } else {
        config.pause_protocol(&key(GOV)).unwrap();
        assert_eq!(config.status.code(), 1);
    }
    let mut pool = pool_a();
    pool.total_deposits = 1_000_000;
    pool.total_loans = 100_000;
    let mut pos = create_user_position(key(USER), key(POOL_A));
    pos.collateral_amount = 1_000_000;
    pos.loan_amount = 100_000;
    (config, pool, pos)
}

fn check_exit_only(withdraw_only: bool) {
    let (config, mut pool, mut pos) = paused_setup(withdraw_only);
    let acc = accounts_a();
    let u = key(USER);
    let blocked = LendingError::ProtocolNotActive;
    assert_eq!(deposit(&config, &mut pool, &mut pos, &u, &acc, 10, 0), Err(blocked));
    assert_eq!(borrow(&config, &mut pool, &mut pos, &u, &acc, 10, one_dollar(), 0), Err(blocked));
    assert_eq!(
        execute_operations(&config, &mut pool, &mut pos, &u, &acc, &vec![Operation::Deposit { amount: 1 }], one_dollar(), 0),
        Err(blocked)
    );
    let fp = flash_pool();
    assert_eq!(
        flash_loan_begin(&config, &fp, &acc, &key(40), &key(41), key(USER), 10, 1_000_000),
        Err(blocked)
    );
    let (mut cp, mut lp, mut cq, mut lq, lacc) = liquidation_setup();
    assert_eq!(
        liquidate(&config, &mut cp, &mut lp, &mut cq, &mut lq, &lacc, 1, half_dollar(), one_dollar(), 0),
        Err(blocked)
    );
    let mut slot = None;
    assert_eq!(
        approve_delegation(&config, &mut slot, u, key(POOL_A), key(DELEGATEE), 5),
        Err(blocked)
    );
    let withdrawn = withdraw(&config, &mut pool, &mut pos, &u, &acc, 10, one_dollar(), 0).map(|e| e.amount);
    let repaid = repay(&config, &mut pool, &mut pos, &u, &acc, 10, 0).map(|e| e.amount);
    if withdraw_only {
        assert_eq!(withdrawn, Ok(10));
        assert_eq!(pos.collateral_amount, 999_990);
        assert_eq!(repaid, Ok(10));
        assert_eq!(pos.loan_amount, 99_990);
    } else {
        // a paused market lets exits through only in withdraw-only mode
        assert_eq!(withdrawn, Err(LendingError::ProtocolPaused));
        assert_eq!(repaid, Err(LendingError::ProtocolPaused));
        assert_eq!(pos.collateral_amount, 1_000_000);
        assert_eq!(pos.loan_amount, 100_000);
    }
}

#[test]
fn paused_market_blocks_every_operation() {
    check_exit_only(false);
}

#[test]
fn withdraw_only_market_allows_only_withdraw_and_repay() {
    check_exit_only(true);
}

#[test]
fn status_codes_round_trip() {
    assert_eq!(MarketStatus::from_code(3), None);
    assert_eq!(MarketStatus::from_code(2), Some(MarketStatus::WithdrawOnly));
    assert_eq!(MarketStatus::from_code(1), Some(MarketStatus::Paused));
    assert_eq!(MarketStatus::from_code(0).unwrap().code(), 0);
}

#[test]
fn zero_amounts_are_rejected() {
    let config = market();
    let mut pool = pool_a();
    let mut pos = create_user_position(key(USER), key(POOL_A));
    let acc = accounts_a();
    let u = key(USER);
    assert_eq!(deposit(&config, &mut pool, &mut pos, &u, &acc, 0, 0), Err(LendingError::ZeroAmount));
    assert_eq!(withdraw(&config, &mut pool, &mut pos, &u, &acc, 0, one_dollar(), 0), Err(LendingError::ZeroAmount));
    assert_eq!(borrow(&config, &mut pool, &mut pos, &u, &acc, 0, one_dollar(), 0), Err(LendingError::ZeroAmount));
    assert_eq!(repay(&config, &mut pool, &mut pos, &u, &acc, 0, 0), Err(LendingError::ZeroAmount));
    // repaying with no debt is a successful no-op
    assert_eq!(repay(&config, &mut pool, &mut pos, &u, &acc, 5, 0).map(|e| e.amount), Ok(0));
}

#[test]
fn withdraw_beyond_collateral_fails() {
    let config = market();
    let mut pool = pool_a();
    let mut pos = create_user_position(key(USER), key(POOL_A));
    let acc = accounts_a();
    deposit(&config, &mut pool, &mut pos, &key(USER), &acc, 100, 0).unwrap();
    assert_eq!(
        withdraw(&config, &mut pool, &mut pos, &key(USER), &acc, 101, one_dollar(), 0),
        Err(LendingError::InsufficientCollateralAmount)
    );
}

#[test]
fn withdraw_that_breaks_health_fails() {
    let config = market();
    let mut pool = pool_a();
    let mut pos = create_user_position(key(USER), key(POOL_A));
    let acc = accounts_a();
    deposit(&config, &mut pool, &mut pos, &key(USER), &acc, 1_000_000, 0).unwrap();
    borrow(&config, &mut pool, &mut pos, &key(USER), &acc, 750_000, one_dollar(), 0).unwrap();
    // 937_500 · 80% = 750_000 still covers the debt; one unit less does not
    assert_eq!(
        withdraw(&config, &mut pool, &mut pos, &key(USER), &acc, 62_500, one_dollar(), 0).map(|e| e.amount),
        Ok(62_500)
    );
    assert_eq!(
        withdraw(&config, &mut pool, &mut pos, &key(USER), &acc, 1, one_dollar(), 0),
        Err(LendingError::PositionWouldBecomeUnhealthy)
    );
}

#[test]
fn oracle_failure_is_passed_on() {
    let config = market();
    let mut pool = pool_a();
    let mut pos = create_user_position(key(USER), key(POOL_A));
    pos.collateral_amount = 10;
    assert_eq!(
        borrow(&config, &mut pool, &mut pos, &key(USER), &accounts_a(), 1, Err(LendingError::AllOraclesFailed), 0),
        Err(LendingError::AllOraclesFailed)
    );
}

#[test]
fn presented_accounts_are_checked() {
    let config = market();
    let mut pool = pool_a();
    let mut pos = create_user_position(key(USER), key(POOL_A));
    let mut acc = accounts_a();
    assert_eq!(deposit(&config, &mut pool, &mut pos, &key(LIQUIDATOR), &acc, 1, 0), Err(LendingError::InvalidOwner));
    acc.asset_vault = key(VAULT_B);
    assert_eq!(deposit(&config, &mut pool, &mut pos, &key(USER), &acc, 1, 0), Err(LendingError::InvalidAssetVault));
    acc = accounts_a();
    acc.pyth_price_feed = key(PYTH_B);
    assert_eq!(deposit(&config, &mut pool, &mut pos, &key(USER), &acc, 1, 0), Err(LendingError::InvalidOracleAccount));
    acc = accounts_a();
    acc.pool = key(POOL_B);
    assert_eq!(deposit(&config, &mut pool, &mut pos, &key(USER), &acc, 1, 0), Err(LendingError::InvalidAssetPool));
}

#[test]
fn batch_runs_against_one_price() {
    let config = market();
    let mut pool = pool_a();
    let mut pos = create_user_position(key(USER), key(POOL_A));
    let ops = vec![
        Operation::Deposit { amount: 1_000_000 },
        Operation::Borrow { amount: 700_000 },
        Operation::Repay { amount: 900_000 },
        Operation::Withdraw { amount: 400_000 },
    ];
    let transfers =
        execute_operations(&config, &mut pool, &mut pos, &key(USER), &accounts_a(), &ops, one_dollar(), 0).unwrap().0;
    assert_eq!(
        transfers,
        vec![
            Transfer::IntoVault { amount: 1_000_000 },
            Transfer::OutOfVault { amount: 700_000 },
            Transfer::IntoVault { amount: 700_000 },
            Transfer::OutOfVault { amount: 400_000 },
        ]
    );
    assert_eq!(pos.collateral_amount, 600_000);
    assert_eq!(pos.loan_amount, 0);
    assert_eq!(pool.total_deposits, 600_000);
    assert_eq!(pool.total_loans, 0);
}

#[test]
fn batch_failure_changes_nothing() {
    let config = market();
    let mut pool = pool_a();
    let mut pos = create_user_position(key(USER), key(POOL_A));
    let ops = vec![
        Operation::Deposit { amount: 1_000_000 },
        Operation::Borrow { amount: 800_000 },
    ];
    let before = (pool, pos);
    assert_eq!(
        execute_operations(&config, &mut pool, &mut pos, &key(USER), &accounts_a(), &ops, one_dollar(), 0),
        Err(LendingError::InsufficientCollateral)
    );
    assert_eq!((pool, pos), before);
    let ops = vec![Operation::Repay { amount: 0 }];
    assert_eq!(
        execute_operations(&config, &mut pool, &mut pos, &key(USER), &accounts_a(), &ops, one_dollar(), 0),
        Err(LendingError::InvalidOperation)
    );
}

#[test]
fn liquidation_cannot_seize_more_than_the_collateral() {
    let config = market();
    let (mut cp, mut lp, mut cq, mut lq, acc) = liquidation_setup();
    cq.collateral_amount = 1_000_000;
    // collateral worth 500_000 against a debt of 1_000_000: repaying 500_000
    // would seize 1_050_000 units
    let before = (cp, lp, cq, lq);
    assert_eq!(
        liquidate(&config, &mut cp, &mut lp, &mut cq, &mut lq, &acc, 500_000, half_dollar(), one_dollar(), 0),
        Err(LendingError::InsufficientCollateralForLiquidation)
    );
    assert_eq!((cp, lp, cq, lq), before);
}

#[test]
fn liquidation_checks_presented_mints() {
    let config = market();
    let (mut cp, mut lp, mut cq, mut lq, mut acc) = liquidation_setup();
    acc.liquidator_loan_mint = key(MINT_A);
    assert_eq!(
        liquidate(&config, &mut cp, &mut lp, &mut cq, &mut lq, &acc, 1, half_dollar(), one_dollar(), 0),
        Err(LendingError::LoanMintMismatch)
    );
    acc.collateral_mint = key(MINT_B);
    assert_eq!(
        liquidate(&config, &mut cp, &mut lp, &mut cq, &mut lq, &acc, 1, half_dollar(), one_dollar(), 0),
        Err(LendingError::CollateralMintMismatch)
    );
}

#[test]
fn liquidation_repays_at_most_half_the_debt() {
    let config = market();
    let (mut cp, mut lp, mut cq, mut lq, acc) = liquidation_setup();
    let ev = liquidate(
        &config, &mut cp, &mut lp, &mut cq, &mut lq, &acc, 200_000, half_dollar(), one_dollar(), 0,
    )
    .unwrap();
    assert_eq!(ev.repay_amount, 200_000);
    assert_eq!(ev.seized_collateral_amount, 420_000);
    assert_eq!((ev.liquidator, ev.borrower), (key(LIQUIDATOR), key(USER)));
}

#[test]
fn accrual_overflow_aborts_the_operation() {
    let config = market();
    let mut p = params(7_500, 8_000);
    p.base_borrow_rate_bps = u128::MAX;
    p.base_slope_bps = 1;
    let mut pool = pool_with(MINT_A, VAULT_A, PYTH_A, p);
    pool.total_deposits = 10;
    pool.total_loans = 9;
    let mut pos = create_user_position(key(USER), key(POOL_A));
    let before = (pool, pos);
    assert_eq!(
        deposit(&config, &mut pool, &mut pos, &key(USER), &accounts_a(), 5, 100),
        Err(LendingError::MathOverflow)
    );
    assert_eq!((pool, pos), before);
}

#[test]
fn flash_loan_settles_on_the_accrued_pool() {
    let config = market();
    let mut p = params(7_500, 8_000);
    p.flash_loan_fee_bps = 30;
    p.base_borrow_rate_bps = 1_000;
    p.protocol_fee_bps = 1_000;
    let mut pool = pool_with(MINT_A, VAULT_A, PYTH_A, p);
    pool.total_deposits = 2_000_000;
    pool.total_loans = 1_000_000;
    let ticket = flash_loan_begin(
        &config, &pool, &accounts_a(), &key(40), &key(41), key(USER), 500_000, 1_000_000,
    )
    .unwrap();
    let ev = flash_loan_settle(&mut pool, &ticket, 1_001_500, SECONDS_IN_YEAR as i64).unwrap();
    assert_eq!(ev.fee, 1_500);
    // a year of 10% on 1_000_000 of loans: 100_000 interest, 10_000 to the protocol
    assert_eq!(pool.accrued_protocol_fees, 10_000 + 1_500);
    assert_eq!(pool.total_deposits, 2_090_000 + 1_500);
    assert_eq!(pool.total_loans, 1_100_000);
    assert_eq!(pool.last_interest_update_timestamp, SECONDS_IN_YEAR as i64);
}
