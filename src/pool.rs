use vstd::prelude::*;

use crate::accrual::{accrual_increment, clamped_elapsed, elapsed, increment};
use crate::error::StakingError;
use crate::state::{Address, Pool};

verus! {

/// Whether advancing the pool adds to its accumulator at all.
pub open spec fn accrues(p: Pool) -> bool {
    p.total_staked > 0 && p.reward_configured && p.reward_rate_per_sec > 0
}

/// The pool brought current to `now`: time that does not move forward
/// changes nothing; otherwise the clock moves to `now` and, when the pool
/// accrues, the accumulator grows by the increment for the clamped
/// elapsed time. Fails only when the accumulator would leave 128 bits.
pub open spec fn advance(p: Pool, now: i64) -> Result<Pool, StakingError> {
    if now <= p.last_update_ts {
        Ok(p)
    } else if !accrues(p) {
        Ok(Pool { last_update_ts: now, ..p })
    } else {
        let acc = p.acc_scaled + accrual_increment(
            clamped_elapsed(now, p.last_update_ts),
            p.reward_rate_per_sec,
            p.total_staked,
        );
        if acc > u128::MAX {
            Err(StakingError::Overflow)
        } else {
            Ok(Pool { acc_scaled: acc as u128, last_update_ts: now, ..p })
        }
    }
}

/// `new` is what `outcome` yields, or `old` unchanged when it is an error
/// that `r` reports.
pub open spec fn pool_after(
    outcome: Result<Pool, StakingError>,
    old: Pool,
    new: Pool,
    r: Result<(), StakingError>,
) -> bool {
    match outcome {
        Ok(p) => r is Ok && new == p,
        Err(e) => r == Err::<(), StakingError>(e) && new == old,
    }
}

/// Ten to the power `n`.
pub open spec fn pow10(n: nat) -> int
    decreases n,
{
    if n == 0 {
        1
    } else {
        10 * pow10((n - 1) as nat)
    }
}

/// `floor(u64::MAX / 10^decimals) - 1`, never below zero: the highest
/// rate per second a reward token of that precision may be given.
pub open spec fn rate_cap_for(decimals: u8) -> int {
    let q = u64::MAX as int / pow10(decimals as nat);
    if q >= 1 {
        q - 1
    } else {
        0
    }
}

/// Brings the accumulator current to `now`.
pub fn update_pool(pool: &mut Pool, now: i64) -> (r: Result<(), StakingError>)
    ensures
        pool_after(advance(*old(pool), now), *old(pool), *final(pool), r),
{
    if now <= pool.last_update_ts {
        return Ok(());
    }
    let dt = elapsed(now, pool.last_update_ts);
    if pool.total_staked > 0 && pool.reward_configured && pool.reward_rate_per_sec > 0 {
        let add = increment(dt, pool.reward_rate_per_sec, pool.total_staked);
        match pool.acc_scaled.checked_add(add) {
            Some(acc) => {
                pool.acc_scaled = acc;
            },
            None => {
                return Err(StakingError::Overflow);
            },
        }
    }
    pool.last_update_ts = now;
    Ok(())
}

/// Takes the mutation lock, refusing when it is already held.
pub fn reentrancy_guard(pool: &mut Pool) -> (r: Result<(), StakingError>)
    ensures
        old(pool).locked ==> r == Err::<(), StakingError>(StakingError::Reentrancy)
            && *final(pool) == *old(pool),
        !old(pool).locked ==> r is Ok && *final(pool) == (Pool { locked: true, ..*old(pool) }),
{
    if pool.locked {
        return Err(StakingError::Reentrancy);
    }
    pool.locked = true;
    Ok(())
}

/// Gives the mutation lock back once an operation's transfers are done.
pub fn release_lock(pool: &mut Pool)
    ensures
        *final(pool) == (Pool { locked: false, ..*old(pool) }),
{
    pool.locked = false;
}

proof fn lemma_pow10_positive(n: nat)
    ensures
        pow10(n) > 0,
    decreases n,
{
    if n > 0 {
        lemma_pow10_positive((n - 1) as nat);
    }
}

/// The highest rate per second allowed for a reward token with
/// `decimals` digits of precision.
pub fn rate_cap(decimals: u8) -> (r: u64)
    ensures
        r == rate_cap_for(decimals),
{
    let mut q: u64 = u64::MAX;
    let mut i: u8 = 0;
    while i < decimals
        invariant
            i <= decimals,
            q == u64::MAX as int / pow10(i as nat),
        decreases decimals - i,
    {
        proof {
            lemma_pow10_positive(i as nat);
            vstd::arithmetic::div_mod::lemma_div_denominator(u64::MAX as int, pow10(i as nat), 10);
            assert(pow10((i + 1) as nat) == 10 * pow10(i as nat));
            assert(pow10(i as nat) * 10 == 10 * pow10(i as nat)) by (nonlinear_arith);
        }
        q = q / 10;
        i = i + 1;
    }
    if q >= 1 {
        q - 1
    } else {
        0
    }
}

/// A new pool record: nothing staked, rewards not yet configured, the
/// clock at `now`, and the lock free.
pub fn initialize(
    admin: Address,
    staking_mint: Address,
    staking_vault: Address,
    now: i64,
    bump: u8,
    signer_bump: u8,
) -> (r: Pool)
    ensures
        r.admin == admin,
        r.staking_mint == staking_mint,
        r.staking_vault == staking_vault,
        !r.reward_configured,
        r.reward_mint.is_unset_spec(),
        r.reward_vault.is_unset_spec(),
        r.reward_rate_per_sec == 0,
        r.rate_cap == 0,
        r.total_staked == 0,
        r.acc_scaled == 0,
        r.last_update_ts == now,
        !r.paused,
        !r.locked,
        r.bump == bump,
        r.signer_bump == signer_bump,
{
    Pool {
        admin,
        staking_mint,
        staking_vault,
        reward_configured: false,
        reward_mint: Address::unset(),
        reward_vault: Address::unset(),
        reward_rate_per_sec: 0,
        rate_cap: 0,
        total_staked: 0,
        acc_scaled: 0,
        last_update_ts: now,
        paused: false,
        locked: false,
        bump,
        signer_bump,
    }
}

/// One-shot reward configuration.
pub open spec fn configure_outcome(
    p: Pool,
    reward_mint: Address,
    reward_vault: Address,
    decimals: u8,
    rate_per_sec: u64,
) -> Result<Pool, StakingError> {
    if p.locked {
        Err(StakingError::Reentrancy)
    } else if p.reward_configured {
        Err(StakingError::AlreadyConfigured)
    } else if rate_per_sec > rate_cap_for(decimals) {
        Err(StakingError::RateTooHigh)
    } else {
        Ok(
            Pool {
                rate_cap: rate_cap_for(decimals) as u64,
                reward_configured: true,
                reward_mint,
                reward_vault,
                reward_rate_per_sec: rate_per_sec,
                ..p
            },
        )
    }
}

/// Sets the reward token, its vault and the first rate, once; the rate
/// cap follows from the token's precision.
pub fn configure_rewards(
    pool: &mut Pool,
    reward_mint: Address,
    reward_vault: Address,
    decimals: u8,
    rate_per_sec: u64,
) -> (r: Result<(), StakingError>)
    ensures
        pool_after(
            configure_outcome(*old(pool), reward_mint, reward_vault, decimals, rate_per_sec),
            *old(pool),
            *final(pool),
            r,
        ),
{
    if pool.locked {
        return Err(StakingError::Reentrancy);
    }
    if pool.reward_configured {
        return Err(StakingError::AlreadyConfigured);
    }
    let cap = rate_cap(decimals);
    if rate_per_sec > cap {
        return Err(StakingError::RateTooHigh);
    }
    pool.rate_cap = cap;
    pool.reward_configured = true;
    pool.reward_mint = reward_mint;
    pool.reward_vault = reward_vault;
    pool.reward_rate_per_sec = rate_per_sec;
    Ok(())
}

/// A rate change: the pool is first brought current under the old rate,
/// so the new rate applies only from `now` on.
pub open spec fn set_rate_outcome(p: Pool, new_rate: u64, now: i64) -> Result<
    Pool,
    StakingError,
> {
    if p.locked {
        Err(StakingError::Reentrancy)
    } else if !p.reward_configured {
        Err(StakingError::NotConfigured)
    } else if new_rate > p.rate_cap {
        Err(StakingError::RateTooHigh)
    } else {
        match advance(p, now) {
            Ok(q) => Ok(Pool { reward_rate_per_sec: new_rate, ..q }),
            Err(e) => Err(e),
        }
    }
}

/// Changes the reward rate at time `now`.
pub fn set_reward_rate(pool: &mut Pool, new_rate: u64, now: i64) -> (r: Result<(), StakingError>)
    ensures
        pool_after(set_rate_outcome(*old(pool), new_rate, now), *old(pool), *final(pool), r),
{
    if pool.locked {
        return Err(StakingError::Reentrancy);
    }
    if !pool.reward_configured {
        return Err(StakingError::NotConfigured);
    }
    if new_rate > pool.rate_cap {
        return Err(StakingError::RateTooHigh);
    }
    let mut next = *pool;
    update_pool(&mut next, now)?;
    next.reward_rate_per_sec = new_rate;
    *pool = next;
    Ok(())
}

/// Pausing blocks new stake; unstake and claim stay open.
pub fn set_paused(pool: &mut Pool, paused: bool)
    ensures
        *final(pool) == (Pool { paused, ..*old(pool) }),
{
    pool.paused = paused;
}

/// Hands the pool to a new admin; who may call it is checked by the caller.
pub fn set_admin(pool: &mut Pool, new_admin: Address)
    ensures
        *final(pool) == (Pool { admin: new_admin, ..*old(pool) }),
{
    pool.admin = new_admin;
}

/// Funding the reward vault: on success the lock is held until the
/// transfer of `amount` into the vault is done.
pub open spec fn fund_outcome(p: Pool, amount: u64) -> Result<Pool, StakingError> {
    if p.locked {
        Err(StakingError::Reentrancy)
    } else if !p.reward_configured {
        Err(StakingError::NotConfigured)
    } else if amount == 0 {
        Err(StakingError::ZeroAmount)
    } else {
        Ok(Pool { locked: true, ..p })
    }
}

/// Takes the lock for a transfer of `amount` into the reward vault.
pub fn fund_rewards(pool: &mut Pool, amount: u64) -> (r: Result<(), StakingError>)
    ensures
        pool_after(fund_outcome(*old(pool), amount), *old(pool), *final(pool), r),
{
    if pool.locked {
        return Err(StakingError::Reentrancy);
    }
    if !pool.reward_configured {
        return Err(StakingError::NotConfigured);
    }
    if amount == 0 {
        return Err(StakingError::ZeroAmount);
    }
    pool.locked = true;
    Ok(())
}

/// Withdrawing from the reward vault, allowed only while paused: on
/// success the lock is held until the transfer out is done.
pub open spec fn withdraw_outcome(p: Pool) -> Result<Pool, StakingError> {
    if p.locked {
        Err(StakingError::Reentrancy)
    } else if !p.paused {
        Err(StakingError::NotPaused)
    } else if !p.reward_configured {
        Err(StakingError::NotConfigured)
    } else {
        Ok(Pool { locked: true, ..p })
    }
}

/// Takes the lock for a transfer of `amount` out of the reward vault. Any
/// amount is accepted here, zero included; the transfer itself fails if
/// the vault holds less.
pub fn withdraw_rewards(pool: &mut Pool, amount: u64) -> (r: Result<(), StakingError>)
    ensures
        pool_after(withdraw_outcome(*old(pool)), *old(pool), *final(pool), r),
{
    if pool.locked {
        return Err(StakingError::Reentrancy);
    }
    if !pool.paused {
        return Err(StakingError::NotPaused);
    }
    if !pool.reward_configured {
        return Err(StakingError::NotConfigured);
    }
    pool.locked = true;
    Ok(())
}

/// Which custodial vaults must be created again.
#[derive(Debug, Clone, Copy, PartialEq, Eq, Structural)]
pub struct VaultRepair {
    pub create_staking_vault: bool,
    pub create_reward_vault: bool,
}

/// Decides the repair of missing vaults. `reward_vault_missing` is `None`
/// when no reward vault account was supplied; the reward mint is needed
/// only to create a missing reward vault.
pub fn ensure_vaults(
    pool: &Pool,
    staking_vault_missing: bool,
    reward_vault_missing: Option<bool>,
    reward_mint_supplied: bool,
) -> (r: Result<VaultRepair, StakingError>)
    ensures
        !pool.reward_configured ==> r == Ok::<VaultRepair, StakingError>(
            VaultRepair { create_staking_vault: staking_vault_missing, create_reward_vault: false },
        ),
        pool.reward_configured ==> match reward_vault_missing {
            None => r == Err::<VaultRepair, StakingError>(StakingError::NotConfigured),
            Some(missing) => if missing && !reward_mint_supplied {
                r == Err::<VaultRepair, StakingError>(StakingError::NotConfigured)
            } else {
                r == Ok::<VaultRepair, StakingError>(
                    VaultRepair {
                        create_staking_vault: staking_vault_missing,
                        create_reward_vault: missing,
                    },
                )
            },
        },
{
    let mut repair = VaultRepair {
        create_staking_vault: staking_vault_missing,
        create_reward_vault: false,
    };
    if pool.reward_configured {
        match reward_vault_missing {
            None => {
                return Err(StakingError::NotConfigured);
            },
            Some(missing) => {
                if missing {
                    if !reward_mint_supplied {
                        return Err(StakingError::NotConfigured);
                    }
                    repair.create_reward_vault = true;
                }
            },
        }
    }
    Ok(repair)
}

} // verus!
