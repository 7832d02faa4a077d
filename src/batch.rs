//! Batched operations on one user's position in one pool, run against a
//! single accrual and a single price.
use crate::error::LendingError;
use crate::events::OperationsExecuted;
use crate::keys::Pubkey;
use crate::market::{MarketConfig, MarketStatus};
use crate::math::Price;
use crate::pool::{accrued, AssetPool};
use crate::position::{accounts_check, check_accounts, PoolAccounts, UserPosition};
use crate::risk::{healthy, is_eligible_for_borrow, is_healthy, within_limit};
use vstd::prelude::*;

verus! {

/// One step of a batch.
#[derive(Debug, Clone, Copy, PartialEq, Eq, Structural)]
pub enum Operation {
    Deposit { amount: u64 },
    Withdraw { amount: u64 },
    Borrow { amount: u64 },
    Repay { amount: u64 },
}

/// A token movement between the user and the pool's vault.
#[derive(Debug, Clone, Copy, PartialEq, Eq, Structural)]
pub enum Transfer {
    IntoVault { amount: u64 },
    OutOfVault { amount: u64 },
}

/// Running state of a batch: pool, collateral, debt, and the transfers so far.
pub struct BatchState {
    pub pool: AssetPool,
    pub collateral: u64,
    pub debt: u64,
    pub transfers: Seq<Transfer>,
}

/// One step on the running state: zero amounts are `InvalidOperation`; a
/// withdraw must leave the running position healthy and a borrow within the
/// loan-to-value limit, both at `price`; a repay is clamped to the debt.
pub open spec fn batch_step(s: BatchState, op: Operation, price: Price) -> Result<
    BatchState,
    LendingError,
> {
    match op {
        Operation::Deposit { amount } => if amount == 0 {
            Err(LendingError::InvalidOperation)
        } else if s.collateral + amount > u64::MAX || s.pool.total_deposits + amount > u64::MAX {
            Err(LendingError::MathOverflow)
        } else {
            Ok(
                BatchState {
                    pool: AssetPool {
                        total_deposits: (s.pool.total_deposits + amount) as u64,
                        ..s.pool
                    },
                    collateral: (s.collateral + amount) as u64,
                    debt: s.debt,
                    transfers: s.transfers.push(Transfer::IntoVault { amount }),
                },
            )
        },
        Operation::Withdraw { amount } => if amount == 0 {
            Err(LendingError::InvalidOperation)
        } else if s.collateral < amount {
            Err(LendingError::InsufficientCollateralAmount)
        } else {
            match healthy(
                (s.collateral - amount) as u64,
                s.debt,
                price,
                s.pool.liquidation_threshold_bps,
            ) {
                Err(e) => Err(e),
                Ok(false) => Err(LendingError::PositionWouldBecomeUnhealthy),
                Ok(true) => if s.pool.total_deposits < amount {
                    Err(LendingError::MathOverflow)
                } else {
                    Ok(
                        BatchState {
                            pool: AssetPool {
                                total_deposits: (s.pool.total_deposits - amount) as u64,
                                ..s.pool
                            },
                            collateral: (s.collateral - amount) as u64,
                            debt: s.debt,
                            transfers: s.transfers.push(Transfer::OutOfVault { amount }),
                        },
                    )
                },
            }
        },
        Operation::Borrow { amount } => if amount == 0 {
            Err(LendingError::InvalidOperation)
        } else if s.debt + amount > u64::MAX {
            Err(LendingError::MathOverflow)
        } else {
            match within_limit(
                s.collateral,
                (s.debt + amount) as u64,
                price,
                s.pool.loan_to_value_bps,
            ) {
                Err(e) => Err(e),
                Ok(false) => Err(LendingError::InsufficientCollateral),
                Ok(true) => if s.pool.total_loans + amount > u64::MAX {
                    Err(LendingError::MathOverflow)
                } else {
                    Ok(
                        BatchState {
                            pool: AssetPool {
                                total_loans: (s.pool.total_loans + amount) as u64,
                                ..s.pool
                            },
                            collateral: s.collateral,
                            debt: (s.debt + amount) as u64,
                            transfers: s.transfers.push(Transfer::OutOfVault { amount }),
                        },
                    )
                },
            }
        },
        Operation::Repay { amount } => if amount == 0 {
            Err(LendingError::InvalidOperation)
        } else {
            let actual = if amount <= s.debt {
                amount
            } else {
                s.debt
            };
            if actual == 0 {
                Ok(s)
            } else if s.pool.total_loans < actual {
                Err(LendingError::MathOverflow)
            } else {
                Ok(
                    BatchState {
                        pool: AssetPool { total_loans: (s.pool.total_loans - actual) as u64, ..s.pool },
                        collateral: s.collateral,
                        debt: (s.debt - actual) as u64,
                        transfers: s.transfers.push(Transfer::IntoVault { amount: actual }),
                    },
                )
            }
        },
    }
}

/// The state after the first `n` steps of `ops`, or the first error.
pub open spec fn batch_run(ops: Seq<Operation>, n: nat, start: BatchState, price: Price) -> Result<
    BatchState,
    LendingError,
>
    decreases n,
{
    if n == 0 {
        Ok(start)
    } else {
        match batch_run(ops, (n - 1) as nat, start, price) {
            Err(e) => Err(e),
            Ok(s) => batch_step(s, ops[n - 1], price),
        }
    }
}

proof fn lemma_batch_error_sticks(
    ops: Seq<Operation>,
    i: nat,
    n: nat,
    start: BatchState,
    price: Price,
)
    requires
        i <= n,
        batch_run(ops, i, start, price) is Err,
    ensures
        batch_run(ops, n, start, price) == batch_run(ops, i, start, price),
    decreases n - i,
{
    if i < n {
        lemma_batch_error_sticks(ops, i, (n - 1) as nat, start, price);
    }
}

/// A whole batch: accounts, an active market, one accrual, one price, then
/// every step in order; the final running collateral and debt are committed.
pub open spec fn batch_outcome(
    status: MarketStatus,
    pool: AssetPool,
    position: UserPosition,
    user: Pubkey,
    acc: PoolAccounts,
    ops: Seq<Operation>,
    price: Result<Price, LendingError>,
    now: i64,
) -> Result<(AssetPool, UserPosition, Seq<Transfer>), LendingError> {
    match accounts_check(pool, position, user, acc) {
        Err(e) => Err(e),
        Ok(_) => if status != MarketStatus::Active {
            Err(LendingError::ProtocolNotActive)
        } else {
            match accrued(pool, now) {
                Err(e) => Err(e),
                Ok(p) => match price {
                    Err(e) => Err(e),
                    Ok(pr) => match batch_run(
                        ops,
                        ops.len(),
                        BatchState {
                            pool: p,
                            collateral: position.collateral_amount,
                            debt: position.loan_amount,
                            transfers: Seq::empty(),
                        },
                        pr,
                    ) {
                        Err(e) => Err(e),
                        Ok(s) => Ok(
                            (
                                s.pool,
                                UserPosition {
                                    collateral_amount: s.collateral,
                                    loan_amount: s.debt,
                                    ..position
                                },
                                s.transfers,
                            ),
                        ),
                    },
                },
            }
        },
    }
}

/// Runs `operations` in order on the user's position and returns the token
/// movements for the host to perform, in order, with the batch's event.
pub fn execute_operations(
    config: &MarketConfig,
    pool: &mut AssetPool,
    position: &mut UserPosition,
    user: &Pubkey,
    accounts: &PoolAccounts,
    operations: &Vec<Operation>,
    price: Result<Price, LendingError>,
    now: i64,
) -> (r: Result<(Vec<Transfer>, OperationsExecuted), LendingError>)
    ensures
        match batch_outcome(
            config.status,
            *old(pool),
            *old(position),
            *user,
            *accounts,
            operations@,
            price,
            now,
        ) {
            Ok((p, q, ts)) => (r matches Ok((v, ev)) && v@ == ts && ev == (OperationsExecuted {
                pool: accounts.pool,
                user: *user,
            })) && *final(pool) == p && *final(position) == q,
            Err(e) => r == Err::<(Vec<Transfer>, OperationsExecuted), LendingError>(e) && *final(pool) == *old(pool)
                && *final(position) == *old(position),
        },
{
    check_accounts(pool, position, user, accounts)?;
    match config.status {
        MarketStatus::Active => {},
        _ => return Err(LendingError::ProtocolNotActive),
    }
    let mut p = *pool;
    p.accrue_interest(now)?;
    let pr = price?;
    let ghost start = BatchState {
        pool: p,
        collateral: position.collateral_amount,
        debt: position.loan_amount,
        transfers: Seq::empty(),
    };
    let mut collateral = position.collateral_amount;
    let mut debt = position.loan_amount;
    let mut transfers: Vec<Transfer> = Vec::new();
    let n = operations.len();
    let mut i: usize = 0;
    while i < n
        invariant
            n == operations@.len(),
            i <= n,
            *pool == *old(pool),
            *position == *old(position),
            accounts_check(*pool, *position, *user, *accounts) is Ok,
            config.status == MarketStatus::Active,
            accrued(*pool, now) == Ok::<AssetPool, LendingError>(start.pool),
            price == Ok::<Price, LendingError>(pr),
            start == (BatchState {
                pool: start.pool,
                collateral: position.collateral_amount,
                debt: position.loan_amount,
                transfers: Seq::empty(),
            }),
            batch_run(operations@, i as nat, start, pr) == Ok::<BatchState, LendingError>(
                BatchState { pool: p, collateral, debt, transfers: transfers@ },
            ),
        decreases n - i,
    {
        let op = operations[i];
        let ghost before = BatchState { pool: p, collateral, debt, transfers: transfers@ };
        proof {
            assert(batch_run(operations@, (i + 1) as nat, start, pr) == batch_step(
                before,
                operations@[i as int],
                pr,
            ));
        }
        match op {
            Operation::Deposit { amount } => {
                if amount == 0 {
                    proof {
                        lemma_batch_error_sticks(operations@, (i + 1) as nat, n as nat, start, pr);
                    }
                    return Err(LendingError::InvalidOperation);
                }
                let c = collateral.checked_add(amount);
                let d = p.total_deposits.checked_add(amount);
                if c.is_none() || d.is_none() {
                    proof {
                        lemma_batch_error_sticks(operations@, (i + 1) as nat, n as nat, start, pr);
                    }
                    return Err(LendingError::MathOverflow);
                }
                collateral = c.unwrap();
                p.total_deposits = d.unwrap();
                transfers.push(Transfer::IntoVault { amount });
            },
            Operation::Withdraw { amount } => {
                if amount == 0 {
                    proof {
                        lemma_batch_error_sticks(operations@, (i + 1) as nat, n as nat, start, pr);
                    }
                    return Err(LendingError::InvalidOperation);
                }
                if collateral < amount {
                    proof {
                        lemma_batch_error_sticks(operations@, (i + 1) as nat, n as nat, start, pr);
                    }
                    return Err(LendingError::InsufficientCollateralAmount);
                }
                let rest = collateral - amount;
                match is_healthy(rest, debt, pr, p.liquidation_threshold_bps) {
                    Err(e) => {
                        proof {
                            lemma_batch_error_sticks(operations@, (i + 1) as nat, n as nat, start, pr);
                        }
                        return Err(e);
                    },
                    Ok(false) => {
                        proof {
                            lemma_batch_error_sticks(operations@, (i + 1) as nat, n as nat, start, pr);
                        }
                        return Err(LendingError::PositionWouldBecomeUnhealthy);
                    },
                    Ok(true) => {},
                }
                if p.total_deposits < amount {
                    proof {
                        lemma_batch_error_sticks(operations@, (i + 1) as nat, n as nat, start, pr);
                    }
                    return Err(LendingError::MathOverflow);
                }
                collateral = rest;
                p.total_deposits = p.total_deposits - amount;
                transfers.push(Transfer::OutOfVault { amount });
            },
            Operation::Borrow { amount } => {
                if amount == 0 {
                    proof {
                        lemma_batch_error_sticks(operations@, (i + 1) as nat, n as nat, start, pr);
                    }
                    return Err(LendingError::InvalidOperation);
                }
                let new_debt = match debt.checked_add(amount) {
                    Some(v) => v,
                    None => {
                        proof {
                            lemma_batch_error_sticks(operations@, (i + 1) as nat, n as nat, start, pr);
                        }
                        return Err(LendingError::MathOverflow);
                    },
                };
                match is_eligible_for_borrow(collateral, new_debt, pr, p.loan_to_value_bps) {
                    Err(e) => {
                        proof {
                            lemma_batch_error_sticks(operations@, (i + 1) as nat, n as nat, start, pr);
                        }
                        return Err(e);
                    },
                    Ok(false) => {
                        proof {
                            lemma_batch_error_sticks(operations@, (i + 1) as nat, n as nat, start, pr);
                        }
                        return Err(LendingError::InsufficientCollateral);
                    },
                    Ok(true) => {},
                }
                let loans = match p.total_loans.checked_add(amount) {
                    Some(v) => v,
                    None => {
                        proof {
                            lemma_batch_error_sticks(operations@, (i + 1) as nat, n as nat, start, pr);
                        }
                        return Err(LendingError::MathOverflow);
                    },
                };
                debt = new_debt;
                p.total_loans = loans;
                transfers.push(Transfer::OutOfVault { amount });
            },
            Operation::Repay { amount } => {
                if amount == 0 {
                    proof {
                        lemma_batch_error_sticks(operations@, (i + 1) as nat, n as nat, start, pr);
                    }
                    return Err(LendingError::InvalidOperation);
                }
                let actual = if amount <= debt {
                    amount
                } else {
                    debt
                };
                if actual > 0 {
                    if p.total_loans < actual {
                        proof {
                            lemma_batch_error_sticks(operations@, (i + 1) as nat, n as nat, start, pr);
                        }
                        return Err(LendingError::MathOverflow);
                    }
                    debt = debt - actual;
                    p.total_loans = p.total_loans - actual;
                    transfers.push(Transfer::IntoVault { amount: actual });
                }
            },
        }
        i = i + 1;
    }
    *pool = p;
    position.collateral_amount = collateral;
    position.loan_amount = debt;
    Ok((transfers, OperationsExecuted { pool: accounts.pool, user: *user }))
}

} // verus!
