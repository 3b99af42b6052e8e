use vstd::prelude::*;

use crate::error::StakingError;
use crate::position::{pending, pending_of};
use crate::state::{Pool, User};

verus! {

/// Whether a participant record may be closed.
pub open spec fn close_user_outcome(p: Pool, u: User) -> Result<(), StakingError> {
    if u.staked != 0 {
        Err(StakingError::NonZeroStake)
    } else if pending_of(u, p) != 0 || u.unpaid_rewards != 0 {
        Err(StakingError::VaultNotEmpty)
    } else {
        Ok(())
    }
}

/// A participant record may be closed only when it holds no stake, no
/// pending reward and no unpaid rewards.
pub fn close_user(pool: &Pool, user: &User) -> (r: Result<(), StakingError>)
    ensures
        r == close_user_outcome(*pool, *user),
{
    if user.staked != 0 {
        return Err(StakingError::NonZeroStake);
    }
    if pending(user, pool) != 0 || user.unpaid_rewards != 0 {
        return Err(StakingError::VaultNotEmpty);
    }
    Ok(())
}

/// Whether the pool record may be closed, given the staking vault's
/// balance and the reward vault's (`None` when no reward vault account
/// was supplied).
pub open spec fn close_pool_outcome(
    p: Pool,
    staking_vault_amount: u64,
    reward_vault_amount: Option<u64>,
) -> Result<(), StakingError> {
    if p.total_staked != 0 {
        Err(StakingError::NonZeroStake)
    } else if staking_vault_amount != 0 {
        Err(StakingError::VaultNotEmpty)
    } else if p.reward_configured && reward_vault_amount != Some(0u64) {
        Err(StakingError::VaultNotEmpty)
    } else if !p.paused {
        Err(StakingError::NotPaused)
    } else {
        Ok(())
    }
}

/// The pool may be closed only with nothing staked, both vaults empty
/// (the reward vault only if rewards were configured) and once paused;
/// the refusals are checked in that order. On success both vaults are
/// closed and their custody goes back to the admin.
pub fn close_pool(
    pool: &Pool,
    staking_vault_amount: u64,
    reward_vault_amount: Option<u64>,
) -> (r: Result<(), StakingError>)
    ensures
        r == close_pool_outcome(*pool, staking_vault_amount, reward_vault_amount),
{
    if pool.total_staked != 0 {
        return Err(StakingError::NonZeroStake);
    }
    if staking_vault_amount != 0 {
        return Err(StakingError::VaultNotEmpty);
    }
    if pool.reward_configured {
        match reward_vault_amount {
            None => {
                return Err(StakingError::VaultNotEmpty);
            },
            Some(amount) => {
                if amount != 0 {
                    return Err(StakingError::VaultNotEmpty);
                }
            },
        }
    }
    if !pool.paused {
        return Err(StakingError::NotPaused);
    }
    Ok(())
}

} // verus!
