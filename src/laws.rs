//! Properties that relate several operations, proved over their outcomes.
use crate::batch::{batch_outcome, batch_run, batch_step, BatchState, Operation};
use crate::delegation::{approval, delegated_borrow_outcome};
use crate::flash::flash_start;
use crate::liquidation::{liquidation_accounts_check, liquidation_outcome, LiquidationAccounts};
use crate::error::LendingError;
use crate::keys::Pubkey;
use crate::market::MarketStatus;
use crate::math::{asset_value, bps_of, Price};
use crate::ops::{borrow_outcome, deposit_outcome, repay_outcome, withdraw_outcome, Committed};
use crate::pool::{accrued, AssetPool};
use crate::position::{
    accounts_check, pool_accounts_check, CreditDelegation, PoolAccounts, UserPosition,
};
use crate::risk::{healthy, within_limit};
use vstd::prelude::*;

verus! {

/// The pool's risk parameters satisfy `ltv ≤ lt < 10_000`.
pub open spec fn risk_params_valid(pool: AssetPool) -> bool {
    pool.loan_to_value_bps <= pool.liquidation_threshold_bps
        && pool.liquidation_threshold_bps < 10_000
}

/// Accrual never decreases a pool's loans or deposits, and only moves its
/// totals and timestamp.
pub proof fn lemma_accrual_monotone(pool: AssetPool, now: i64)
    ensures
        accrued(pool, now) matches Ok(p) ==> p.total_loans >= pool.total_loans
            && p.total_deposits >= pool.total_deposits && p.accrued_protocol_fees
            >= pool.accrued_protocol_fees && p.loan_to_value_bps == pool.loan_to_value_bps
            && p.liquidation_threshold_bps == pool.liquidation_threshold_bps,
{
}

/// Accruing twice at the same instant is the same as accruing once.
pub proof fn lemma_accrual_settles(pool: AssetPool, now: i64)
    ensures
        accrued(pool, now) matches Ok(p) ==> accrued(p, now) == Ok::<AssetPool, LendingError>(p),
{
}

/// Approving the same amount twice leaves the same record as approving once.
pub proof fn lemma_approval_idempotent(
    status: MarketStatus,
    slot: Option<CreditDelegation>,
    owner: Pubkey,
    pool: Pubkey,
    delegatee: Pubkey,
    amount: u64,
)
    ensures
        approval(status, slot, owner, pool, delegatee, amount) matches Ok(once) ==> approval(
            status,
            once,
            owner,
            pool,
            delegatee,
            amount,
        ) == Ok::<Option<CreditDelegation>, LendingError>(once),
{
}

/// A live delegation never has more left than was approved: approval
/// establishes it and a delegated borrow keeps it.
pub proof fn lemma_delegation_within_approval(
    status: MarketStatus,
    slot: Option<CreditDelegation>,
    owner: Pubkey,
    pool_key: Pubkey,
    delegatee: Pubkey,
    amount: u64,
    pool: AssetPool,
    position: UserPosition,
    delegation: CreditDelegation,
    acc: PoolAccounts,
    borrow_amount: u64,
    price: Result<Price, LendingError>,
    now: i64,
)
    ensures
        approval(status, slot, owner, pool_key, delegatee, amount) matches Ok(Some(d)) ==> d.wf(),
        delegation.wf() ==> (delegated_borrow_outcome(
            status,
            pool,
            position,
            delegation,
            owner,
            delegatee,
            acc,
            borrow_amount,
            price,
            now,
        ) matches Ok((_, _, d)) ==> d.wf() && d.initial_delegated_amount
            == delegation.initial_delegated_amount),
{
}

/// Depositing `x` and then withdrawing `x` at the same instant leaves the
/// position as it was and the pool as accrual alone leaves it; the withdraw
/// goes through whenever the position was healthy at that price before.
pub proof fn lemma_deposit_withdraw_round_trip(
    status: MarketStatus,
    pool: AssetPool,
    position: UserPosition,
    user: Pubkey,
    acc: PoolAccounts,
    x: u64,
    price: Result<Price, LendingError>,
    now: i64,
)
    ensures
        deposit_outcome(status, pool, position, user, acc, x, now) matches Ok((p1, q1)) ==> (
        withdraw_outcome(status, p1, q1, user, acc, x, price, now) matches Ok((p2, q2)) ==> q2
            == position && accrued(pool, now) == Ok::<AssetPool, LendingError>(p2)),
        deposit_outcome(status, pool, position, user, acc, x, now) matches Ok((p1, q1)) ==> (
        price matches Ok(pr) ==> (healthy(
            position.collateral_amount,
            position.loan_amount,
            pr,
            pool.liquidation_threshold_bps,
        ) == Ok::<bool, LendingError>(true) ==> (accrued(pool, now) matches Ok(a)
            && withdraw_outcome(status, p1, q1, user, acc, x, price, now) == Ok::<
            Committed,
            LendingError,
        >((a, position))))),
{
    if let Ok((p1, q1)) = deposit_outcome(status, pool, position, user, acc, x, now) {
        lemma_accrual_settles(pool, now);
        lemma_accrual_monotone(pool, now);
        let a = accrued(pool, now)->Ok_0;
        assert(accrued(p1, now) == Ok::<AssetPool, LendingError>(p1));
        if let Ok((p2, q2)) = withdraw_outcome(status, p1, q1, user, acc, x, price, now) {
            assert(q2 =~= position);
            assert(p2 =~= a);
        }
    }
}

/// Borrowing `x` and then repaying `x` at the same instant always succeeds and
/// leaves the debt as it was and the pool as accrual alone leaves it.
pub proof fn lemma_borrow_repay_round_trip(
    pool: AssetPool,
    position: UserPosition,
    user: Pubkey,
    acc: PoolAccounts,
    x: u64,
    price: Result<Price, LendingError>,
    now: i64,
)
    ensures
        borrow_outcome(MarketStatus::Active, pool, position, user, acc, x, price, now) matches Ok(
            (p1, q1),
        ) ==> (accrued(pool, now) matches Ok(a) && repay_outcome(
            MarketStatus::Active,
            p1,
            q1,
            user,
            acc,
            x,
            now,
        ) == Ok::<(Committed, u64), LendingError>(((a, position), x))),
{
    if let Ok((p1, q1)) = borrow_outcome(MarketStatus::Active, pool, position, user, acc, x, price, now) {
        lemma_accrual_settles(pool, now);
        let a = accrued(pool, now)->Ok_0;
        assert(accrued(p1, now) == Ok::<AssetPool, LendingError>(p1));
        if let Ok(((p2, q2), actual)) = repay_outcome(MarketStatus::Active, p1, q1, user, acc, x, now) {
            assert(q2 =~= position);
            assert(p2 =~= a);
        }
    }
}

proof fn lemma_bps_grows(value: u128, low: u64, high: u64)
    requires
        low <= high,
        high < 10_000,
    ensures
        bps_of(value, low as u128) matches Ok(a) && bps_of(value, high as u128) matches Ok(b)
            && a <= b,
{
    let v = value as int;
    let l = low as int;
    let h = high as int;
    assert(v * l <= v * h) by (nonlinear_arith)
        requires 0 <= v, l <= h;
    assert(v * h < (u64::MAX as int + 1) * (u128::MAX as int + 1)) by (nonlinear_arith)
        requires 0 <= v <= u128::MAX, 0 <= h < 10_000;
    assert(0 <= v * l) by (nonlinear_arith)
        requires 0 <= v, 0 <= l;
    assert(v * h / 10_000 <= v) by (nonlinear_arith)
        requires 0 <= v, 0 <= h < 10_000;
    assert(v * l / 10_000 <= v * h / 10_000) by (nonlinear_arith)
        requires 0 <= v * l <= v * h;
    assert(v * l / 10_000 <= v) by (nonlinear_arith)
        requires v * l / 10_000 <= v * h / 10_000, v * h / 10_000 <= v;
    assert(v * l * 1 == v * l);
    assert(v * h * 1 == v * h);
    assert(v * l / 10_000 / 1 == v * l / 10_000);
    assert(v * h / 10_000 / 1 == v * h / 10_000);
    assert(0 <= v * l / 10_000) by (nonlinear_arith)
        requires 0 <= v * l;
}

/// Within the loan-to-value limit implies within any higher threshold.
proof fn lemma_limit_widens(collateral: u64, debt: u64, price: Price, low: u64, high: u64)
    requires
        low <= high,
        high < 10_000,
        within_limit(collateral, debt, price, low) == Ok::<bool, LendingError>(true),
    ensures
        within_limit(collateral, debt, price, high) == Ok::<bool, LendingError>(true),
{
    let cv = asset_value(collateral, price)->Ok_0;
    lemma_bps_grows(cv, low, high);
}

/// A debt-free position is healthy; after a successful withdraw, borrow or
/// delegated borrow the position is healthy at the price the operation used.
pub proof fn lemma_health_after_position_updates(
    status: MarketStatus,
    pool: AssetPool,
    position: UserPosition,
    user: Pubkey,
    acc: PoolAccounts,
    amount: u64,
    price: Price,
    now: i64,
    delegation: CreditDelegation,
    owner: Pubkey,
    delegatee: Pubkey,
)
    requires
        risk_params_valid(pool),
    ensures
        healthy(position.collateral_amount, 0, price, pool.liquidation_threshold_bps) == Ok::<
            bool,
            LendingError,
        >(true),
        delegated_borrow_outcome(
            status,
            pool,
            position,
            delegation,
            owner,
            delegatee,
            acc,
            amount,
            Ok(price),
            now,
        ) matches Ok((p, q, _)) ==> healthy(
            q.collateral_amount,
            q.loan_amount,
            price,
            p.liquidation_threshold_bps,
        ) == Ok::<bool, LendingError>(true),
        withdraw_outcome(status, pool, position, user, acc, amount, Ok(price), now) matches Ok(
            (p, q),
        ) ==> healthy(q.collateral_amount, q.loan_amount, price, p.liquidation_threshold_bps)
            == Ok::<bool, LendingError>(true),
        borrow_outcome(status, pool, position, user, acc, amount, Ok(price), now) matches Ok(
            (p, q),
        ) ==> healthy(q.collateral_amount, q.loan_amount, price, p.liquidation_threshold_bps)
            == Ok::<bool, LendingError>(true),
{
    lemma_accrual_monotone(pool, now);
    if let Ok((p, q)) = borrow_outcome(status, pool, position, user, acc, amount, Ok(price), now) {
        lemma_limit_widens(
            q.collateral_amount,
            q.loan_amount,
            price,
            p.loan_to_value_bps,
            p.liquidation_threshold_bps,
        );
    }
    if let Ok((p, q, _)) = delegated_borrow_outcome(
        status,
        pool,
        position,
        delegation,
        owner,
        delegatee,
        acc,
        amount,
        Ok(price),
        now,
    ) {
        lemma_limit_widens(
            q.collateral_amount,
            q.loan_amount,
            price,
            p.loan_to_value_bps,
            p.liquidation_threshold_bps,
        );
    }
}

/// Deposits and withdrawals move a position's collateral and the pool's
/// deposits by the same amount, over what accrual alone does.
pub proof fn lemma_deposits_track_collateral(
    status: MarketStatus,
    pool: AssetPool,
    position: UserPosition,
    user: Pubkey,
    acc: PoolAccounts,
    amount: u64,
    price: Result<Price, LendingError>,
    now: i64,
)
    ensures
        deposit_outcome(status, pool, position, user, acc, amount, now) matches Ok((p, q)) ==> (
        accrued(pool, now) matches Ok(a) && p.total_deposits - a.total_deposits
            == q.collateral_amount - position.collateral_amount == amount),
        withdraw_outcome(status, pool, position, user, acc, amount, price, now) matches Ok((p, q))
            ==> (accrued(pool, now) matches Ok(a) && a.total_deposits - p.total_deposits
            == position.collateral_amount - q.collateral_amount == amount),
{
}

/// Step `k` of a batch ran from a reached state, and a withdraw left the
/// running position healthy, a borrow left it within the loan-to-value limit.
pub open spec fn step_checked(ops: Seq<Operation>, k: int, start: BatchState, price: Price) -> bool {
    batch_run(ops, k as nat, start, price) matches Ok(s) && batch_step(s, ops[k], price) matches Ok(
        t,
    ) && (ops[k] is Withdraw ==> healthy(
        t.collateral,
        t.debt,
        price,
        t.pool.liquidation_threshold_bps,
    ) == Ok::<bool, LendingError>(true)) && (ops[k] is Borrow ==> within_limit(
        t.collateral,
        t.debt,
        price,
        t.pool.loan_to_value_bps,
    ) == Ok::<bool, LendingError>(true))
}

/// In a batch that runs its first `n` steps, every withdraw leaves the running
/// position healthy and every borrow leaves it within the loan-to-value limit,
/// all at the batch's one price.
pub proof fn lemma_batch_steps_stay_healthy(
    ops: Seq<Operation>,
    n: nat,
    start: BatchState,
    price: Price,
)
    requires
        n <= ops.len(),
    ensures
        batch_run(ops, n, start, price) is Ok ==> forall|k: int|
            0 <= k < n ==> #[trigger] step_checked(ops, k, start, price),
    decreases n,
{
    if n > 0 && batch_run(ops, n, start, price) is Ok {
        let m = (n - 1) as nat;
        assert(batch_run(ops, m, start, price) is Ok);
        lemma_batch_steps_stay_healthy(ops, m, start, price);
        assert(step_checked(ops, m as int, start, price));
        assert forall|k: int| 0 <= k < n implies #[trigger] step_checked(ops, k, start, price) by {
            if k < m {
                assert(step_checked(ops, k, start, price));
            }
        }
    }
}

/// Outside an active market, deposit, borrow, liquidation, flash loans,
/// batches and approvals fail with `ProtocolNotActive` once the presented
/// accounts match; withdraw and repay fail with `ProtocolPaused` while paused.
pub proof fn lemma_inactive_market_blocks_entries(
    status: MarketStatus,
    pool: AssetPool,
    position: UserPosition,
    user: Pubkey,
    acc: PoolAccounts,
    amount: u64,
    price: Result<Price, LendingError>,
    now: i64,
    ops: Seq<Operation>,
    other_pool: AssetPool,
    other_position: UserPosition,
    liq: LiquidationAccounts,
    receiver_program: Pubkey,
    this_program: Pubkey,
    receiver: Pubkey,
    vault_balance: u64,
    slot: Option<CreditDelegation>,
    delegatee: Pubkey,
)
    requires
        status != MarketStatus::Active,
    ensures
        accounts_check(pool, position, user, acc) is Ok ==> deposit_outcome(
            status,
            pool,
            position,
            user,
            acc,
            amount,
            now,
        ) == Err::<Committed, LendingError>(LendingError::ProtocolNotActive) && borrow_outcome(
            status,
            pool,
            position,
            user,
            acc,
            amount,
            price,
            now,
        ) == Err::<Committed, LendingError>(LendingError::ProtocolNotActive) && batch_outcome(
            status,
            pool,
            position,
            user,
            acc,
            ops,
            price,
            now,
        ) == Err::<(AssetPool, UserPosition, Seq<crate::batch::Transfer>), LendingError>(
            LendingError::ProtocolNotActive,
        ),
        accounts_check(pool, position, user, acc) is Ok && status == MarketStatus::Paused
            ==> withdraw_outcome(status, pool, position, user, acc, amount, price, now) == Err::<
            Committed,
            LendingError,
        >(LendingError::ProtocolPaused) && repay_outcome(
            status,
            pool,
            position,
            user,
            acc,
            amount,
            now,
        ) == Err::<(Committed, u64), LendingError>(LendingError::ProtocolPaused),
        pool_accounts_check(pool, acc) is Ok ==> flash_start(
            status,
            pool,
            acc,
            receiver_program,
            this_program,
            receiver,
            amount,
            vault_balance,
        ) == Err::<crate::flash::FlashLoanTicket, LendingError>(LendingError::ProtocolNotActive),
        liquidation_accounts_check(pool, other_pool, position, other_position, liq) is Ok
            ==> liquidation_outcome(
            status,
            pool,
            other_pool,
            position,
            other_position,
            liq,
            amount,
            price,
            price,
            now,
        ) is Err && liquidation_outcome(
            status,
            pool,
            other_pool,
            position,
            other_position,
            liq,
            amount,
            price,
            price,
            now,
        )->Err_0 == LendingError::ProtocolNotActive,
        approval(status, slot, user, acc.pool, delegatee, amount) == Err::<
            Option<CreditDelegation>,
            LendingError,
        >(LendingError::ProtocolNotActive),
{
}

} // verus!
