//! Flash loans: the checks and fee before the callback, and the vault
//! reconciliation after it.
use crate::error::LendingError;
use crate::events::FlashLoaned;
use crate::keys::Pubkey;
use crate::market::{MarketConfig, MarketStatus};
use crate::pool::{accrued, AssetPool};
use crate::position::{check_pool_accounts, pool_accounts_check, PoolAccounts};
use crate::wide::{mul_div_wide, wide_bound};
use vstd::prelude::*;

verus! {

/// What the start of a flash loan fixed for its settlement.
#[derive(Debug, Clone, Copy, PartialEq, Eq)]
pub struct FlashLoanTicket {
    /// The pool lending.
    pub pool: Pubkey,
    /// Owner of the account that receives the loan.
    pub receiver: Pubkey,
    /// Amount sent out of the vault to the borrower.
    pub amount: u64,
    /// Least fee owed on top of `amount`.
    pub fee: u64,
    /// Vault balance before the loan left it.
    pub balance_before: u64,
}

/// `amount · flash_loan_fee_bps / 10_000`.
pub open spec fn flash_fee(amount: u64, fee_bps: u64) -> int {
    amount * fee_bps / 10_000
}

/// Checks before the loan leaves the vault: accounts, an active market, a
/// non-zero amount, flash loans enabled, a receiver other than this program,
/// a fee within 64 bits, and enough liquidity.
pub open spec fn flash_start(
    status: MarketStatus,
    pool: AssetPool,
    acc: PoolAccounts,
    receiver_program: Pubkey,
    this_program: Pubkey,
    receiver: Pubkey,
    amount: u64,
    vault_balance: u64,
) -> Result<FlashLoanTicket, LendingError> {
    match pool_accounts_check(pool, acc) {
        Err(e) => Err(e),
        Ok(_) => if status != MarketStatus::Active {
            Err(LendingError::ProtocolNotActive)
        } else if amount == 0 {
            Err(LendingError::ZeroAmount)
        } else if pool.flash_loan_fee_bps == 0 {
            Err(LendingError::FlashLoanNotAvailable)
        } else if receiver_program@ == this_program@ {
            Err(LendingError::FlashLoanReentrancy)
        } else if flash_fee(amount, pool.flash_loan_fee_bps) > u64::MAX {
            Err(LendingError::MathOverflow)
        } else if vault_balance < amount {
            Err(LendingError::InsufficientLiquidity)
        } else {
            Ok(
                FlashLoanTicket {
                    pool: acc.pool,
                    receiver,
                    amount,
                    fee: flash_fee(amount, pool.flash_loan_fee_bps) as u64,
                    balance_before: vault_balance,
                },
            )
        },
    }
}

/// Starts a flash loan. On success the host sends `amount` out of the vault,
/// invokes the receiver, reloads the vault balance and calls
/// [`flash_loan_settle`].
pub fn flash_loan_begin(
    config: &MarketConfig,
    pool: &AssetPool,
    accounts: &PoolAccounts,
    receiver_program: &Pubkey,
    this_program: &Pubkey,
    receiver: Pubkey,
    amount: u64,
    vault_balance: u64,
) -> (r: Result<FlashLoanTicket, LendingError>)
    ensures
        r == flash_start(
            config.status,
            *pool,
            *accounts,
            *receiver_program,
            *this_program,
            receiver,
            amount,
            vault_balance,
        ),
{
    check_pool_accounts(pool, accounts)?;
    match config.status {
        MarketStatus::Active => {},
        _ => return Err(LendingError::ProtocolNotActive),
    }
    if amount == 0 {
        return Err(LendingError::ZeroAmount);
    }
    if pool.flash_loan_fee_bps == 0 {
        return Err(LendingError::FlashLoanNotAvailable);
    }
    if receiver_program.same(this_program) {
        return Err(LendingError::FlashLoanReentrancy);
    }
    let w = mul_div_wide(amount as u128, pool.flash_loan_fee_bps as u128, 1, 10_000, 1);
    proof {
        let a = amount as int;
        let b = pool.flash_loan_fee_bps as int;
        assert(a * b < wide_bound()) by (nonlinear_arith)
            requires 0 <= a <= u64::MAX, 0 <= b <= u64::MAX;
        assert(a * b * 1 == a * b);
        assert(a * b <= u128::MAX) by (nonlinear_arith)
            requires 0 <= a <= u64::MAX, 0 <= b <= u64::MAX;
        assert(a * b / 10_000 <= a * b) by (nonlinear_arith)
            requires 0 <= a * b;
        assert(a * b / 10_000 / 1 == a * b / 10_000);
    }
    let fee = match w {
        Some(v) => v,
        None => return Err(LendingError::MathOverflow),
    };
    if fee > u64::MAX as u128 {
        return Err(LendingError::MathOverflow);
    }
    if vault_balance < amount {
        return Err(LendingError::InsufficientLiquidity);
    }
    Ok(
        FlashLoanTicket {
            pool: accounts.pool,
            receiver,
            amount,
            fee: fee as u64,
            balance_before: vault_balance,
        },
    )
}

/// Reconciliation of an accrued pool against the vault balance read after
/// the callback: the balance must have grown by at least the fee, and all it
/// grew by is credited to protocol fees and to deposits.
pub open spec fn flash_settlement(pool: AssetPool, ticket: FlashLoanTicket, balance_after: u64) -> Result<
    (AssetPool, u64),
    LendingError,
> {
    if ticket.balance_before + ticket.fee > u64::MAX {
        Err(LendingError::MathOverflow)
    } else if balance_after < ticket.balance_before + ticket.fee {
        Err(LendingError::FlashLoanRepaymentFailed)
    } else {
        let earned = balance_after - ticket.balance_before;
        if pool.accrued_protocol_fees + earned > u64::MAX || pool.total_deposits + earned
            > u64::MAX {
            Err(LendingError::MathOverflow)
        } else {
            Ok(
                (
                    AssetPool {
                        accrued_protocol_fees: (pool.accrued_protocol_fees + earned) as u64,
                        total_deposits: (pool.total_deposits + earned) as u64,
                        ..pool
                    },
                    earned as u64,
                ),
            )
        }
    }
}

/// Settles a flash loan at `now`: the pool accrues its interest first, then
/// is reconciled against the vault balance read after the callback.
pub fn flash_loan_settle(
    pool: &mut AssetPool,
    ticket: &FlashLoanTicket,
    balance_after: u64,
    now: i64,
) -> (r: Result<FlashLoaned, LendingError>)
    ensures
        match accrued(*old(pool), now) {
            Err(e) => r == Err::<FlashLoaned, LendingError>(e),
            Ok(a) => match flash_settlement(a, *ticket, balance_after) {
                Err(e) => r == Err::<FlashLoaned, LendingError>(e),
                Ok((p, earned)) => r == Ok::<FlashLoaned, LendingError>(
                    FlashLoaned {
                        pool: ticket.pool,
                        receiver: ticket.receiver,
                        amount: ticket.amount,
                        fee: earned,
                    },
                ) && *final(pool) == p,
            },
        },
        r matches Ok(ev) ==> (accrued(*old(pool), now) matches Ok(a) && balance_after
            >= ticket.balance_before + ticket.fee && ev.fee == balance_after - ticket.balance_before
            && final(pool).accrued_protocol_fees == a.accrued_protocol_fees + ev.fee
            && final(pool).total_deposits == a.total_deposits + ev.fee
            && final(pool).total_loans == a.total_loans),
        r is Err ==> *final(pool) == *old(pool),
{
    let mut p = *pool;
    p.accrue_interest(now)?;
    let expected = match ticket.balance_before.checked_add(ticket.fee) {
        Some(v) => v,
        None => return Err(LendingError::MathOverflow),
    };
    if balance_after < expected {
        return Err(LendingError::FlashLoanRepaymentFailed);
    }
    let earned = balance_after - ticket.balance_before;
    p.accrued_protocol_fees = match p.accrued_protocol_fees.checked_add(earned) {
        Some(v) => v,
        None => return Err(LendingError::MathOverflow),
    };
    p.total_deposits = match p.total_deposits.checked_add(earned) {
        Some(v) => v,
        None => return Err(LendingError::MathOverflow),
    };
    *pool = p;
    Ok(FlashLoaned { pool: ticket.pool, receiver: ticket.receiver, amount: ticket.amount, fee: earned })
}

} // verus!
