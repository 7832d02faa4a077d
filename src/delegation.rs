//! Credit delegation: an owner lets a delegatee borrow against the owner's
//! position, up to an approved amount; the debt stays the owner's.
use crate::error::LendingError;
use crate::events::{BorrowedDelegated, DelegationUpdated};
use crate::keys::Pubkey;
use crate::market::{MarketConfig, MarketStatus};
use crate::math::Price;
use crate::pool::{accrued, AssetPool};
use crate::position::{
    check_pool_accounts, pool_accounts_check, CreditDelegation, PoolAccounts, UserPosition,
};
use crate::risk::{is_eligible_for_borrow, within_limit};
use vstd::prelude::*;

verus! {

/// The record an approval leaves: both amounts set to `amount`.
pub open spec fn approved_record(
    owner: Pubkey,
    pool: Pubkey,
    delegatee: Pubkey,
    amount: u64,
) -> CreditDelegation {
    CreditDelegation {
        owner,
        delegatee,
        asset_pool: pool,
        initial_delegated_amount: amount,
        delegated_amount: amount,
    }
}

/// Approval over whatever record `slot` held: it needs an active market and
/// a non-zero amount, and then creates or overwrites the record.
pub open spec fn approval(
    status: MarketStatus,
    slot: Option<CreditDelegation>,
    owner: Pubkey,
    pool: Pubkey,
    delegatee: Pubkey,
    amount: u64,
) -> Result<Option<CreditDelegation>, LendingError> {
    if status != MarketStatus::Active {
        Err(LendingError::ProtocolNotActive)
    } else if amount == 0 {
        Err(LendingError::ZeroAmount)
    } else {
        Ok(Some(approved_record(owner, pool, delegatee, amount)))
    }
}

/// Creates or overwrites the delegation from `owner` to `delegatee` on `pool`.
pub fn approve_delegation(
    config: &MarketConfig,
    slot: &mut Option<CreditDelegation>,
    owner: Pubkey,
    pool: Pubkey,
    delegatee: Pubkey,
    amount: u64,
) -> (r: Result<DelegationUpdated, LendingError>)
    ensures
        match approval(config.status, *old(slot), owner, pool, delegatee, amount) {
            Ok(s) => r == Ok::<DelegationUpdated, LendingError>(
                DelegationUpdated { owner, delegatee, pool, delegated_amount: amount },
            ) && *final(slot) == s,
            Err(e) => r == Err::<DelegationUpdated, LendingError>(e) && *final(slot) == *old(slot),
        },
        r is Ok ==> (*final(slot) matches Some(d) && d.wf()),
{
    match config.status {
        MarketStatus::Active => {},
        _ => return Err(LendingError::ProtocolNotActive),
    }
    if amount == 0 {
        return Err(LendingError::ZeroAmount);
    }
    *slot = Some(
        CreditDelegation {
            owner,
            delegatee,
            asset_pool: pool,
            initial_delegated_amount: amount,
            delegated_amount: amount,
        },
    );
    Ok(DelegationUpdated { owner, delegatee, pool, delegated_amount: amount })
}

/// Removes the delegation; only its owner may.
pub fn revoke_delegation(slot: &mut Option<CreditDelegation>, signer: &Pubkey) -> (r: Result<
    DelegationUpdated,
    LendingError,
>)
    ensures
        *old(slot) is None ==> r == Err::<DelegationUpdated, LendingError>(
            LendingError::DelegationMismatch,
        ),
        *old(slot) matches Some(d) ==> if d.owner@ == signer@ {
            r == Ok::<DelegationUpdated, LendingError>(
                DelegationUpdated {
                    owner: d.owner,
                    delegatee: d.delegatee,
                    pool: d.asset_pool,
                    delegated_amount: 0,
                },
            )
        } else {
            r == Err::<DelegationUpdated, LendingError>(LendingError::InvalidOwner)
        },
        r is Ok ==> *final(slot) is None,
        r is Err ==> *final(slot) == *old(slot),
{
    match *slot {
        None => Err(LendingError::DelegationMismatch),
        Some(d) => {
            if !d.owner.same(signer) {
                return Err(LendingError::InvalidOwner);
            }
            *slot = None;
            Ok(
                DelegationUpdated {
                    owner: d.owner,
                    delegatee: d.delegatee,
                    pool: d.asset_pool,
                    delegated_amount: 0,
                },
            )
        },
    }
}

/// The delegation and the owner's position belong to `owner`, `delegatee`
/// and the presented pool, whose accounts match.
pub open spec fn delegated_accounts_check(
    pool: AssetPool,
    position: UserPosition,
    delegation: CreditDelegation,
    owner: Pubkey,
    delegatee: Pubkey,
    acc: PoolAccounts,
) -> Result<(), LendingError> {
    if position.owner@ != owner@ {
        Err(LendingError::InvalidOwner)
    } else if position.pool@ != acc.pool@ {
        Err(LendingError::InvalidAssetPool)
    } else if delegation.owner@ != owner@ {
        Err(LendingError::InvalidOwner)
    } else if delegation.delegatee@ != delegatee@ {
        Err(LendingError::DelegationMismatch)
    } else if delegation.asset_pool@ != acc.pool@ {
        Err(LendingError::InvalidAssetPool)
    } else {
        pool_accounts_check(pool, acc)
    }
}

/// What a delegated borrow commits.
pub type DelegatedCommit = (AssetPool, UserPosition, CreditDelegation);

/// A delegated borrow of `amount`: within the remaining credit line and
/// within the loan-to-value limit of the owner's position.
pub open spec fn delegated_borrow_outcome(
    status: MarketStatus,
    pool: AssetPool,
    position: UserPosition,
    delegation: CreditDelegation,
    owner: Pubkey,
    delegatee: Pubkey,
    acc: PoolAccounts,
    amount: u64,
    price: Result<Price, LendingError>,
    now: i64,
) -> Result<DelegatedCommit, LendingError> {
    match delegated_accounts_check(pool, position, delegation, owner, delegatee, acc) {
        Err(e) => Err(e),
        Ok(_) => if status != MarketStatus::Active {
            Err(LendingError::ProtocolNotActive)
        } else if amount == 0 {
            Err(LendingError::ZeroAmount)
        } else if amount > delegation.delegated_amount {
            Err(LendingError::DelegationExceeded)
        } else {
            match accrued(pool, now) {
                Err(e) => Err(e),
                Ok(p) => if position.loan_amount + amount > u64::MAX {
                    Err(LendingError::MathOverflow)
                } else {
                    let debt = (position.loan_amount + amount) as u64;
                    match price {
                        Err(e) => Err(e),
                        Ok(pr) => match within_limit(
                            position.collateral_amount,
                            debt,
                            pr,
                            p.loan_to_value_bps,
                        ) {
                            Err(e) => Err(e),
                            Ok(false) => Err(LendingError::InsufficientCollateral),
                            Ok(true) => if p.total_loans + amount > u64::MAX {
                                Err(LendingError::MathOverflow)
                            } else {
                                Ok(
                                    (
                                        AssetPool {
                                            total_loans: (p.total_loans + amount) as u64,
                                            ..p
                                        },
                                        UserPosition { loan_amount: debt, ..position },
                                        CreditDelegation {
                                            delegated_amount: (delegation.delegated_amount
                                                - amount) as u64,
                                            ..delegation
                                        },
                                    ),
                                )
                            },
                        },
                    }
                },
            }
        },
    }
}

/// Lets `delegatee` borrow `amount` on `owner`'s position; the tokens go from
/// the vault to the delegatee and the debt to the owner.
pub fn borrow_delegated(
    config: &MarketConfig,
    pool: &mut AssetPool,
    owner_position: &mut UserPosition,
    delegation: &mut CreditDelegation,
    owner: &Pubkey,
    delegatee: &Pubkey,
    accounts: &PoolAccounts,
    amount: u64,
    price: Result<Price, LendingError>,
    now: i64,
) -> (r: Result<BorrowedDelegated, LendingError>)
    ensures
        match delegated_borrow_outcome(
            config.status,
            *old(pool),
            *old(owner_position),
            *old(delegation),
            *owner,
            *delegatee,
            *accounts,
            amount,
            price,
            now,
        ) {
            Ok((p, q, d)) => r == Ok::<BorrowedDelegated, LendingError>(
                BorrowedDelegated {
                    pool: accounts.pool,
                    owner: *owner,
                    delegatee: *delegatee,
                    amount,
                },
            ) && *final(pool) == p && *final(owner_position) == q && *final(delegation) == d,
            Err(e) => r == Err::<BorrowedDelegated, LendingError>(e) && *final(pool) == *old(pool)
                && *final(owner_position) == *old(owner_position)
                && *final(delegation) == *old(delegation),
        },
        old(delegation).wf() ==> final(delegation).wf(),
{
    if !owner_position.owner.same(owner) {
        return Err(LendingError::InvalidOwner);
    }
    if !owner_position.pool.same(&accounts.pool) {
        return Err(LendingError::InvalidAssetPool);
    }
    if !delegation.owner.same(owner) {
        return Err(LendingError::InvalidOwner);
    }
    if !delegation.delegatee.same(delegatee) {
        return Err(LendingError::DelegationMismatch);
    }
    if !delegation.asset_pool.same(&accounts.pool) {
        return Err(LendingError::InvalidAssetPool);
    }
    check_pool_accounts(pool, accounts)?;
    match config.status {
        MarketStatus::Active => {},
        _ => return Err(LendingError::ProtocolNotActive),
    }
    if amount == 0 {
        return Err(LendingError::ZeroAmount);
    }
    if amount > delegation.delegated_amount {
        return Err(LendingError::DelegationExceeded);
    }
    let mut p = *pool;
    p.accrue_interest(now)?;
    let debt = match owner_position.loan_amount.checked_add(amount) {
        Some(v) => v,
        None => return Err(LendingError::MathOverflow),
    };
    let pr = price?;
    if !is_eligible_for_borrow(owner_position.collateral_amount, debt, pr, p.loan_to_value_bps)? {
        return Err(LendingError::InsufficientCollateral);
    }
    p.total_loans = match p.total_loans.checked_add(amount) {
        Some(v) => v,
        None => return Err(LendingError::MathOverflow),
    };
    *pool = p;
    owner_position.loan_amount = debt;
    delegation.delegated_amount = delegation.delegated_amount - amount;
    Ok(BorrowedDelegated { pool: accounts.pool, owner: *owner, delegatee: *delegatee, amount })
}

} // verus!
