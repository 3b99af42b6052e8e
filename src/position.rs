use vstd::prelude::*;

use crate::accrual::{settled_value, MAX_UNPAID};
use crate::error::StakingError;
use crate::pool::{advance, update_pool};
use crate::state::{Address, Pool, User};

verus! {

/// Reward accrued by `u` since its last settlement: its settled value at
/// the pool's accumulator less its debt, never below zero; zero for an
/// empty position.
pub open spec fn pending_of(u: User, p: Pool) -> int {
    if u.staked == 0 {
        0
    } else if settled_value(u.staked, p.acc_scaled) >= u.debt {
        settled_value(u.staked, p.acc_scaled) - u.debt
    } else {
        0
    }
}

/// Everything owed to `u` at `p`: pending reward plus the carried-over
/// unpaid rewards, saturated at the largest 128-bit value.
pub open spec fn total_due(u: User, p: Pool) -> int {
    if pending_of(u, p) + u.unpaid_rewards > u128::MAX {
        u128::MAX as int
    } else {
        pending_of(u, p) + u.unpaid_rewards
    }
}

/// `new_p` and `new_u` are what `outcome` yields, or the old records
/// unchanged when it is an error that `r` reports.
pub open spec fn records_after<T>(
    outcome: Result<(Pool, User, T), StakingError>,
    old_p: Pool,
    old_u: User,
    new_p: Pool,
    new_u: User,
    r: Result<T, StakingError>,
) -> bool {
    match outcome {
        Ok((p, u, v)) => r == Ok::<T, StakingError>(v) && new_p == p && new_u == u,
        Err(e) => r == Err::<T, StakingError>(e) && new_p == old_p && new_u == old_u,
    }
}

/// A new, empty position owned by `owner`.
pub fn init_user(owner: Address, bump: u8) -> (r: User)
    ensures
        r == (User { owner, staked: 0, debt: 0, unpaid_rewards: 0, bump }),
{
    User { owner, staked: 0, debt: 0, unpaid_rewards: 0, bump }
}

/// Reward accrued by `user` since its last settlement.
pub fn pending(user: &User, pool: &Pool) -> (r: u128)
    ensures
        r == pending_of(*user, *pool),
{
    if user.staked == 0 {
        return 0;
    }
    crate::accrual::calc(user.staked, pool.acc_scaled).saturating_sub(user.debt)
}

/// Staking `amount` at `now`: the pool is brought current, the stake is
/// added to the position and to the pool's total, and the debt is reset
/// to the new settled value (reward pending on the earlier stake is not
/// paid and is given up). A position without an owner takes `owner`. On
/// success the lock is held until `amount` has been transferred in.
pub open spec fn stake_outcome(p: Pool, u: User, owner: Address, amount: u64, now: i64) -> Result<
    (Pool, User, ()),
    StakingError,
> {
    if amount == 0 {
        Err(StakingError::ZeroAmount)
    } else if p.locked {
        Err(StakingError::Reentrancy)
    } else if p.paused {
        Err(StakingError::Paused)
    } else {
        match advance(p, now) {
            Err(e) => Err(e),
            Ok(q) => {
                let staked = u.staked + amount;
                let total = q.total_staked + amount;
                if staked > u64::MAX || total > u64::MAX {
                    Err(StakingError::Overflow)
                } else {
                    Ok(
                        (
                            Pool { total_staked: total as u64, locked: true, ..q },
                            User {
                                owner: if u.owner.is_unset_spec() {
                                    owner
                                } else {
                                    u.owner
                                },
                                staked: staked as u64,
                                debt: settled_value(staked as u64, q.acc_scaled) as u128,
                                ..u
                            },
                            (),
                        ),
                    )
                }
            },
        }
    }
}

/// Adds `amount` to the position at time `now`.
pub fn stake(pool: &mut Pool, user: &mut User, owner: Address, amount: u64, now: i64) -> (r:
    Result<(), StakingError>)
    ensures
        records_after(
            stake_outcome(*old(pool), *old(user), owner, amount, now),
            *old(pool),
            *old(user),
            *final(pool),
            *final(user),
            r,
        ),
{
    if amount == 0 {
        return Err(StakingError::ZeroAmount);
    }
    if pool.locked {
        return Err(StakingError::Reentrancy);
    }
    if pool.paused {
        return Err(StakingError::Paused);
    }
    let mut next = *pool;
    update_pool(&mut next, now)?;
    let staked = match user.staked.checked_add(amount) {
        Some(s) => s,
        None => {
            return Err(StakingError::Overflow);
        },
    };
    let total = match next.total_staked.checked_add(amount) {
        Some(t) => t,
        None => {
            return Err(StakingError::Overflow);
        },
    };
    if user.owner.is_unset() {
        user.owner = owner;
    }
    user.staked = staked;
    user.debt = crate::accrual::calc(staked, next.acc_scaled);
    next.total_staked = total;
    next.locked = true;
    *pool = next;
    Ok(())
}

/// Unstaking `amount` at `now`, allowed while paused: the pool is brought
/// current, the stake leaves the position and the pool's total, and the
/// debt is reset to the new settled value. On success the lock is held
/// until `amount` has been transferred out.
pub open spec fn unstake_outcome(p: Pool, u: User, amount: u64, now: i64) -> Result<
    (Pool, User, ()),
    StakingError,
> {
    if amount == 0 {
        Err(StakingError::ZeroAmount)
    } else if p.locked {
        Err(StakingError::Reentrancy)
    } else {
        match advance(p, now) {
            Err(e) => Err(e),
            Ok(q) => {
                if u.staked < amount {
                    Err(StakingError::InsufficientStake)
                } else if q.total_staked < amount {
                    Err(StakingError::Underflow)
                } else {
                    let staked = (u.staked - amount) as u64;
                    Ok(
                        (
                            Pool { total_staked: (q.total_staked - amount) as u64, locked: true, ..q },
                            User {
                                staked,
                                debt: settled_value(staked, q.acc_scaled) as u128,
                                ..u
                            },
                            (),
                        ),
                    )
                }
            },
        }
    }
}

/// Takes `amount` out of the position at time `now`.
pub fn unstake(pool: &mut Pool, user: &mut User, amount: u64, now: i64) -> (r: Result<
    (),
    StakingError,
>)
    ensures
        records_after(
            unstake_outcome(*old(pool), *old(user), amount, now),
            *old(pool),
            *old(user),
            *final(pool),
            *final(user),
            r,
        ),
{
    if amount == 0 {
        return Err(StakingError::ZeroAmount);
    }
    if pool.locked {
        return Err(StakingError::Reentrancy);
    }
    let mut next = *pool;
    update_pool(&mut next, now)?;
    if user.staked < amount {
        return Err(StakingError::InsufficientStake);
    }
    let total = match next.total_staked.checked_sub(amount) {
        Some(t) => t,
        None => {
            return Err(StakingError::Underflow);
        },
    };
    let staked = user.staked - amount;
    user.staked = staked;
    user.debt = crate::accrual::calc(staked, next.acc_scaled);
    next.total_staked = total;
    next.locked = true;
    *pool = next;
    Ok(())
}

/// Principal-only exit: the accumulator is not advanced and the debt is
/// left as it was. On success the lock is held until `amount` has been
/// transferred out.
pub open spec fn emergency_unstake_outcome(p: Pool, u: User, amount: u64) -> Result<
    (Pool, User, ()),
    StakingError,
> {
    if amount == 0 {
        Err(StakingError::ZeroAmount)
    } else if p.locked {
        Err(StakingError::Reentrancy)
    } else if u.staked < amount {
        Err(StakingError::InsufficientStake)
    } else if p.total_staked < amount {
        Err(StakingError::Underflow)
    } else {
        Ok(
            (
                Pool { total_staked: (p.total_staked - amount) as u64, locked: true, ..p },
                User { staked: (u.staked - amount) as u64, ..u },
                (),
            ),
        )
    }
}

/// Takes `amount` out of the position without any reward accounting.
pub fn emergency_unstake(pool: &mut Pool, user: &mut User, amount: u64) -> (r: Result<
    (),
    StakingError,
>)
    ensures
        records_after(
            emergency_unstake_outcome(*old(pool), *old(user), amount),
            *old(pool),
            *old(user),
            *final(pool),
            *final(user),
            r,
        ),
{
    if amount == 0 {
        return Err(StakingError::ZeroAmount);
    }
    if pool.locked {
        return Err(StakingError::Reentrancy);
    }
    if user.staked < amount {
        return Err(StakingError::InsufficientStake);
    }
    let total = match pool.total_staked.checked_sub(amount) {
        Some(t) => t,
        None => {
            return Err(StakingError::Underflow);
        },
    };
    user.staked = user.staked - amount;
    pool.total_staked = total;
    pool.locked = true;
    Ok(())
}

/// Claiming at `now` with `available` reward tokens in the vault: the
/// pool is brought current, the payout is the smaller of what is due and
/// what is available, the shortfall is carried over (capped at
/// `MAX_UNPAID`), and the debt is reset to the current settled value
/// whatever was paid. On success the lock is held until the payout has
/// been transferred; the payout is the result.
pub open spec fn claim_outcome(p: Pool, u: User, now: i64, available: u64) -> Result<
    (Pool, User, u64),
    StakingError,
> {
    if p.locked {
        Err(StakingError::Reentrancy)
    } else if !p.reward_configured {
        Err(StakingError::NotConfigured)
    } else {
        match advance(p, now) {
            Err(e) => Err(e),
            Ok(q) => {
                let due = total_due(u, q);
                let pay = if due <= available {
                    due
                } else {
                    available as int
                };
                let rest = if due - pay <= MAX_UNPAID {
                    due - pay
                } else {
                    MAX_UNPAID as int
                };
                Ok(
                    (
                        Pool { locked: true, ..q },
                        User {
                            unpaid_rewards: rest as u128,
                            debt: settled_value(u.staked, q.acc_scaled) as u128,
                            ..u
                        },
                        pay as u64,
                    ),
                )
            },
        }
    }
}

/// Settles the position's rewards at time `now`; returns the payout.
pub fn claim(pool: &mut Pool, user: &mut User, now: i64, available: u64) -> (r: Result<
    u64,
    StakingError,
>)
    ensures
        records_after(
            claim_outcome(*old(pool), *old(user), now, available),
            *old(pool),
            *old(user),
            *final(pool),
            *final(user),
            r,
        ),
{
    if pool.locked {
        return Err(StakingError::Reentrancy);
    }
    if !pool.reward_configured {
        return Err(StakingError::NotConfigured);
    }
    let mut next = *pool;
    update_pool(&mut next, now)?;
    let pending_amt = pending(user, &next);
    let due = pending_amt.saturating_add(user.unpaid_rewards);
    let mut to_pay: u64 = 0;
    if due > 0 {
        let wide_available = available as u128;
        let pay: u128 = if due < wide_available {
            due
        } else {
            wide_available
        };
        to_pay = pay as u64;
        let shortfall = due - pay;
        user.unpaid_rewards = if shortfall < MAX_UNPAID {
            shortfall
        } else {
            MAX_UNPAID
        };
    }
    user.debt = crate::accrual::calc(user.staked, next.acc_scaled);
    next.locked = true;
    *pool = next;
    Ok(to_pay)
}

} // verus!
