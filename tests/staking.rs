use simple_staking::{
    claim, close_pool, close_user, configure_rewards, emergency_unstake, ensure_vaults,
    fund_rewards, init_user, initialize, pending, rate_cap, reentrancy_guard, release_lock,
    set_admin, set_paused, set_reward_rate, stake, unstake, update_pool, withdraw_rewards,
    Address, Pool, StakingError, User, VaultRepair, MAX_DT, MAX_UNPAID, SCALAR,
};

fn addr(b: u8) -> Address {
    Address { bytes: [b; 32] }
}

/// A pool created at time 0 with rewards configured at `rate` for a
/// six-decimal reward token.
fn pool_with_rate(rate: u64) -> Pool {
    let mut pool = initialize(addr(1), addr(2), addr(3), 0, 254, 253);
    configure_rewards(&mut pool, addr(4), addr(5), 6, rate).unwrap();
    pool
}

fn staked_user(pool: &mut Pool, owner: u8, amount: u64, now: i64) -> User {
    let mut user = init_user(addr(owner), 0);
    stake(pool, &mut user, addr(owner), amount, now).unwrap();
    release_lock(pool);
    user
}

#[test]
fn settled_value_floors() {
    assert_eq!(simple_staking::accrual::calc(3, 1_500_000_000_000), 4);
    assert_eq!(simple_staking::accrual::calc(1000, 10 * SCALAR), 10_000);
    assert_eq!(simple_staking::accrual::calc(0, u128::MAX), 0);
}

#[test]
fn settled_value_saturates() {
    assert_eq!(simple_staking::accrual::calc(u64::MAX, u128::MAX), u128::MAX / SCALAR);
}

#[test]
fn rate_cap_follows_decimals() {
    assert_eq!(rate_cap(0), u64::MAX - 1);
    assert_eq!(rate_cap(6), u64::MAX / 1_000_000 - 1);
    assert_eq!(rate_cap(6), 18_446_744_073_708);
    assert_eq!(rate_cap(19), 0);
    assert_eq!(rate_cap(20), 0);
    assert_eq!(rate_cap(255), 0);
}

#[test]
fn initialize_starts_empty() {
    let pool = initialize(addr(1), addr(2), addr(3), 42, 7, 8);
    assert_eq!(pool.admin.bytes, [1u8; 32]);
    assert!(!pool.reward_configured);
    assert!(pool.reward_mint.is_unset());
    assert_eq!(pool.total_staked, 0);
    assert_eq!(pool.acc_scaled, 0);
    assert_eq!(pool.last_update_ts, 42);
    assert!(!pool.paused && !pool.locked);
    assert_eq!((pool.bump, pool.signer_bump), (7, 8));
}

#[test]
fn configure_rewards_once() {
    let mut pool = initialize(addr(1), addr(2), addr(3), 0, 0, 0);
    assert_eq!(configure_rewards(&mut pool, addr(4), addr(5), 6, 18_446_744_073_709), Err(StakingError::RateTooHigh));
    assert!(!pool.reward_configured);
    assert_eq!(configure_rewards(&mut pool, addr(4), addr(5), 6, 18_446_744_073_708), Ok(()));
    assert!(pool.reward_configured);
    assert_eq!(pool.rate_cap, 18_446_744_073_708);
    assert_eq!(pool.reward_vault.bytes, [5u8; 32]);
    assert!(!pool.locked);
    assert_eq!(configure_rewards(&mut pool, addr(4), addr(5), 6, 1), Err(StakingError::AlreadyConfigured));
}

#[test]
fn advance_is_noop_when_time_does_not_move() {
    let mut pool = pool_with_rate(100);
    let _user = staked_user(&mut pool, 9, 1000, 0);
    pool.last_update_ts = 50;
    let before = pool;
    assert_eq!(update_pool(&mut pool, 50), Ok(()));
    assert_eq!(update_pool(&mut pool, 10), Ok(()));
    assert_eq!(pool.acc_scaled, before.acc_scaled);
    assert_eq!(pool.last_update_ts, 50);
}

#[test]
fn advance_twice_same_time_is_idempotent() {
    let mut pool = pool_with_rate(100);
    let _user = staked_user(&mut pool, 9, 1000, 0);
    update_pool(&mut pool, 100).unwrap();
    let acc = pool.acc_scaled;
    assert!(acc > 0);
    update_pool(&mut pool, 100).unwrap();
    assert_eq!(pool.acc_scaled, acc);
    update_pool(&mut pool, 200).unwrap();
    assert!(pool.acc_scaled >= acc);
}

#[test]
fn advance_clamps_elapsed_time() {
    let mut pool = pool_with_rate(1);
    let _user = staked_user(&mut pool, 9, 1, 0);
    update_pool(&mut pool, 10 * MAX_DT).unwrap();
    assert_eq!(pool.acc_scaled, (MAX_DT as u128) * SCALAR);
    assert_eq!(pool.last_update_ts, 10 * MAX_DT);
}

#[test]
fn advance_without_stake_only_moves_clock() {
    let mut pool = pool_with_rate(100);
    update_pool(&mut pool, 500).unwrap();
    assert_eq!(pool.acc_scaled, 0);
    assert_eq!(pool.last_update_ts, 500);
}

#[test]
fn advance_overflow_leaves_pool_unchanged() {
    let mut pool = pool_with_rate(100);
    let _user = staked_user(&mut pool, 9, 1, 0);
    pool.acc_scaled = u128::MAX - 5;
    let before = pool;
    assert_eq!(update_pool(&mut pool, 10), Err(StakingError::Overflow));
    assert_eq!(pool.acc_scaled, before.acc_scaled);
    assert_eq!(pool.last_update_ts, before.last_update_ts);
}

#[test]
fn advance_from_far_past_does_not_overflow_clock() {
    let mut pool = pool_with_rate(1);
    let _user = staked_user(&mut pool, 9, 1, 0);
    pool.last_update_ts = i64::MIN;
    update_pool(&mut pool, i64::MAX).unwrap();
    assert_eq!(pool.acc_scaled, (MAX_DT as u128) * SCALAR);
}

#[test]
fn lock_refuses_reentry() {
    let mut pool = pool_with_rate(100);
    assert_eq!(reentrancy_guard(&mut pool), Ok(()));
    assert!(pool.locked);
    assert_eq!(reentrancy_guard(&mut pool), Err(StakingError::Reentrancy));
    let mut user = init_user(addr(9), 0);
    assert_eq!(stake(&mut pool, &mut user, addr(9), 10, 0), Err(StakingError::Reentrancy));
    assert_eq!(unstake(&mut pool, &mut user, 10, 0), Err(StakingError::Reentrancy));
    assert_eq!(claim(&mut pool, &mut user, 0, 10), Err(StakingError::Reentrancy));
    assert_eq!(fund_rewards(&mut pool, 10), Err(StakingError::Reentrancy));
    assert_eq!(set_reward_rate(&mut pool, 10, 0), Err(StakingError::Reentrancy));
    release_lock(&mut pool);
    assert_eq!(stake(&mut pool, &mut user, addr(9), 10, 0), Ok(()));
    assert!(pool.locked);
}

#[test]
fn stake_refusals() {
    let mut pool = pool_with_rate(100);
    let mut user = init_user(addr(9), 0);
    assert_eq!(stake(&mut pool, &mut user, addr(9), 0, 0), Err(StakingError::ZeroAmount));
    set_paused(&mut pool, true);
    assert_eq!(stake(&mut pool, &mut user, addr(9), 5, 0), Err(StakingError::Paused));
    set_paused(&mut pool, false);
    user.staked = u64::MAX;
    assert_eq!(stake(&mut pool, &mut user, addr(9), 1, 0), Err(StakingError::Overflow));
    assert_eq!(user.staked, u64::MAX);
    assert_eq!(pool.total_staked, 0);
    assert!(!pool.locked);
}

#[test]
fn stake_sets_owner_of_fresh_record() {
    let mut pool = pool_with_rate(100);
    let mut user = User { owner: Address::unset(), staked: 0, debt: 0, unpaid_rewards: 0, bump: 0 };
    stake(&mut pool, &mut user, addr(7), 5, 0).unwrap();
    assert_eq!(user.owner.bytes, [7u8; 32]);
    release_lock(&mut pool);
    stake(&mut pool, &mut user, addr(8), 5, 0).unwrap();
    assert_eq!(user.owner.bytes, [7u8; 32]);
}

#[test]
fn stake_again_discards_pending_reward() {
    let mut pool = pool_with_rate(100);
    let mut user = staked_user(&mut pool, 9, 1000, 0);
    update_pool(&mut pool, 10).unwrap();
    assert_eq!(pending(&user, &pool), 1000);
    stake(&mut pool, &mut user, addr(9), 1000, 10).unwrap();
    release_lock(&mut pool);
    assert_eq!(pending(&user, &pool), 0);
    assert_eq!(user.staked, 2000);
}

#[test]
fn unstake_refusals() {
    let mut pool = pool_with_rate(100);
    let mut user = staked_user(&mut pool, 9, 100, 0);
    assert_eq!(unstake(&mut pool, &mut user, 0, 0), Err(StakingError::ZeroAmount));
    assert_eq!(unstake(&mut pool, &mut user, 101, 0), Err(StakingError::InsufficientStake));
    pool.total_staked = 50;
    assert_eq!(unstake(&mut pool, &mut user, 60, 0), Err(StakingError::Underflow));
    assert_eq!(user.staked, 100);
}

#[test]
fn unstake_allowed_while_paused() {
    let mut pool = pool_with_rate(100);
    let mut user = staked_user(&mut pool, 9, 100, 0);
    set_paused(&mut pool, true);
    assert_eq!(unstake(&mut pool, &mut user, 40, 5), Ok(()));
    assert_eq!(user.staked, 60);
    assert_eq!(pool.total_staked, 60);
    assert_eq!(user.debt, simple_staking::accrual::calc(60, pool.acc_scaled));
    assert_eq!(pool.last_update_ts, 5);
}

#[test]
fn emergency_unstake_skips_accrual() {
    let mut pool = pool_with_rate(100);
    let mut user = staked_user(&mut pool, 9, 100, 0);
    let debt = user.debt;
    assert_eq!(emergency_unstake(&mut pool, &mut user, 0), Err(StakingError::ZeroAmount));
    assert_eq!(emergency_unstake(&mut pool, &mut user, 101), Err(StakingError::InsufficientStake));
    assert_eq!(emergency_unstake(&mut pool, &mut user, 30, ), Ok(()));
    assert_eq!(user.staked, 70);
    assert_eq!(pool.total_staked, 70);
    assert_eq!(user.debt, debt);
    assert_eq!(pool.last_update_ts, 0);
    assert!(pool.locked);
}

#[test]
fn emergency_unstake_underflow() {
    let mut pool = pool_with_rate(100);
    let mut user = staked_user(&mut pool, 9, 100, 0);
    pool.total_staked = 10;
    assert_eq!(emergency_unstake(&mut pool, &mut user, 20), Err(StakingError::Underflow));
    assert_eq!(user.staked, 100);
}

#[test]
fn one_staker_accrues_rate_times_time() {
    let mut pool = pool_with_rate(100);
    let user = staked_user(&mut pool, 9, 1000, 0);
    update_pool(&mut pool, 100).unwrap();
    assert_eq!(pending(&user, &pool), 10_000);
}

#[test]
fn two_stakers_share_by_stake() {
    let mut pool = pool_with_rate(10);
    let a = staked_user(&mut pool, 1, 100, 0);
    let b = staked_user(&mut pool, 2, 300, 0);
    assert_eq!(pool.total_staked, 400);
    update_pool(&mut pool, 40).unwrap();
    assert_eq!(pending(&a, &pool), 40 * 10 * 100 / 400);
    assert_eq!(pending(&b, &pool), 40 * 10 * 300 / 400);
    assert_eq!(pending(&a, &pool) + pending(&b, &pool), 40 * 10);
}

#[test]
fn two_stakers_rounding_loss_is_small() {
    let mut pool = pool_with_rate(1);
    let a = staked_user(&mut pool, 1, 100, 0);
    let b = staked_user(&mut pool, 2, 300, 0);
    update_pool(&mut pool, 7).unwrap();
    let paid = pending(&a, &pool) + pending(&b, &pool);
    assert!(paid <= 7);
    assert!(7 - paid <= 2);
}

#[test]
fn claim_shortfall_is_carried_then_paid() {
    let mut pool = pool_with_rate(100);
    let mut user = staked_user(&mut pool, 9, 1000, 0);
    assert_eq!(claim(&mut pool, &mut user, 100, 4_000), Ok(4_000));
    assert_eq!(user.unpaid_rewards, 6_000);
    release_lock(&mut pool);
    assert_eq!(pending(&user, &pool), 0);
    assert_eq!(claim(&mut pool, &mut user, 100, 1_000_000), Ok(6_000));
    assert_eq!(user.unpaid_rewards, 0);
    release_lock(&mut pool);
    assert_eq!(claim(&mut pool, &mut user, 100, 1_000_000), Ok(0));
}

#[test]
fn claim_twice_pays_nothing_more() {
    let mut pool = pool_with_rate(100);
    let mut user = staked_user(&mut pool, 9, 1000, 0);
    assert_eq!(claim(&mut pool, &mut user, 50, 1_000_000), Ok(5_000));
    release_lock(&mut pool);
    let (p1, u1) = (pool, user);
    assert_eq!(claim(&mut pool, &mut user, 50, 1_000_000), Ok(0));
    assert_eq!(user.debt, u1.debt);
    assert_eq!(user.unpaid_rewards, 0);
    assert_eq!(pool.acc_scaled, p1.acc_scaled);
}

#[test]
fn claim_needs_configuration() {
    let mut pool = initialize(addr(1), addr(2), addr(3), 0, 0, 0);
    let mut user = init_user(addr(9), 0);
    assert_eq!(claim(&mut pool, &mut user, 10, 10), Err(StakingError::NotConfigured));
}

#[test]
fn claim_unpaid_capped() {
    let mut pool = pool_with_rate(100);
    let mut user = init_user(addr(9), 0);
    user.unpaid_rewards = u128::MAX;
    assert_eq!(claim(&mut pool, &mut user, 0, 5), Ok(5));
    assert_eq!(user.unpaid_rewards, MAX_UNPAID);
}

#[test]
fn stake_then_unstake_round_trip() {
    let mut pool = pool_with_rate(100);
    let mut user = staked_user(&mut pool, 9, 500, 0);
    update_pool(&mut pool, 20).unwrap();
    let (staked0, total0) = (user.staked, pool.total_staked);
    stake(&mut pool, &mut user, addr(9), 250, 20).unwrap();
    release_lock(&mut pool);
    assert_eq!(unstake(&mut pool, &mut user, 250, 20), Ok(()));
    release_lock(&mut pool);
    assert_eq!(user.staked, staked0);
    assert_eq!(pool.total_staked, total0);
}

#[test]
fn total_staked_tracks_positions_and_vault() {
    let mut pool = pool_with_rate(100);
    let mut vault: u64 = 0;
    let mut a = init_user(addr(1), 0);
    let mut b = init_user(addr(2), 0);
    stake(&mut pool, &mut a, addr(1), 100, 1).unwrap();
    vault += 100;
    release_lock(&mut pool);
    stake(&mut pool, &mut b, addr(2), 300, 2).unwrap();
    vault += 300;
    release_lock(&mut pool);
    unstake(&mut pool, &mut a, 40, 3).unwrap();
    vault -= 40;
    release_lock(&mut pool);
    emergency_unstake(&mut pool, &mut b, 100).unwrap();
    vault -= 100;
    release_lock(&mut pool);
    assert_eq!(unstake(&mut pool, &mut a, 100, 4), Err(StakingError::InsufficientStake));
    assert_eq!(pool.total_staked, a.staked + b.staked);
    assert_eq!(pool.total_staked, vault);
    assert_eq!(vault, 260);
}

#[test]
fn set_reward_rate_applies_old_rate_first() {
    let mut pool = pool_with_rate(100);
    let user = staked_user(&mut pool, 9, 1000, 0);
    assert_eq!(set_reward_rate(&mut pool, 200, 10), Ok(()));
    assert_eq!(pending(&user, &pool), 1_000);
    update_pool(&mut pool, 20).unwrap();
    assert_eq!(pending(&user, &pool), 3_000);
    assert!(!pool.locked);
    assert_eq!(set_reward_rate(&mut pool, u64::MAX, 20), Err(StakingError::RateTooHigh));
    let mut bare = initialize(addr(1), addr(2), addr(3), 0, 0, 0);
    assert_eq!(set_reward_rate(&mut bare, 1, 0), Err(StakingError::NotConfigured));
}

#[test]
fn admin_and_pause() {
    let mut pool = pool_with_rate(100);
    set_admin(&mut pool, addr(42));
    assert_eq!(pool.admin.bytes, [42u8; 32]);
    set_paused(&mut pool, true);
    assert!(pool.paused);
}

#[test]
fn fund_and_withdraw_rewards() {
    let mut bare = initialize(addr(1), addr(2), addr(3), 0, 0, 0);
    assert_eq!(fund_rewards(&mut bare, 5), Err(StakingError::NotConfigured));
    let mut pool = pool_with_rate(100);
    assert_eq!(fund_rewards(&mut pool, 0), Err(StakingError::ZeroAmount));
    assert_eq!(fund_rewards(&mut pool, 5), Ok(()));
    assert!(pool.locked);
    release_lock(&mut pool);
    assert_eq!(withdraw_rewards(&mut pool, 5), Err(StakingError::NotPaused));
    set_paused(&mut pool, true);
    assert_eq!(withdraw_rewards(&mut pool, 5), Ok(()));
    assert!(pool.locked);
    release_lock(&mut bare);
    set_paused(&mut bare, true);
    assert_eq!(withdraw_rewards(&mut bare, 5), Err(StakingError::NotConfigured));
}

#[test]
fn ensure_vaults_decisions() {
    let bare = initialize(addr(1), addr(2), addr(3), 0, 0, 0);
    assert_eq!(
        ensure_vaults(&bare, true, None, false),
        Ok(VaultRepair { create_staking_vault: true, create_reward_vault: false })
    );
    let pool = pool_with_rate(100);
    assert_eq!(ensure_vaults(&pool, false, None, true), Err(StakingError::NotConfigured));
    assert_eq!(ensure_vaults(&pool, false, Some(true), false), Err(StakingError::NotConfigured));
    assert_eq!(
        ensure_vaults(&pool, false, Some(true), true),
        Ok(VaultRepair { create_staking_vault: false, create_reward_vault: true })
    );
    assert_eq!(
        ensure_vaults(&pool, true, Some(false), false),
        Ok(VaultRepair { create_staking_vault: true, create_reward_vault: false })
    );
}

#[test]
fn close_pool_refusals() {
    let mut pool = pool_with_rate(100);
    let _user = staked_user(&mut pool, 9, 10, 0);
    assert_eq!(close_pool(&pool, 10, Some(0)), Err(StakingError::NonZeroStake));
    set_paused(&mut pool, true);
    assert_eq!(close_pool(&pool, 10, Some(0)), Err(StakingError::NonZeroStake));
    pool.total_staked = 0;
    assert_eq!(close_pool(&pool, 10, Some(0)), Err(StakingError::VaultNotEmpty));
    assert_eq!(close_pool(&pool, 0, Some(3)), Err(StakingError::VaultNotEmpty));
    assert_eq!(close_pool(&pool, 0, None), Err(StakingError::VaultNotEmpty));
    assert_eq!(close_pool(&pool, 0, Some(0)), Ok(()));
    set_paused(&mut pool, false);
    assert_eq!(close_pool(&pool, 5, Some(0)), Err(StakingError::VaultNotEmpty));
    assert_eq!(close_pool(&pool, 0, Some(0)), Err(StakingError::NotPaused));
}

#[test]
fn close_pool_without_rewards_ignores_reward_vault() {
    let mut bare = initialize(addr(1), addr(2), addr(3), 0, 0, 0);
    set_paused(&mut bare, true);
    assert_eq!(close_pool(&bare, 0, None), Ok(()));
}

#[test]
fn close_user_conditions() {
    let mut pool = pool_with_rate(100);
    let mut user = staked_user(&mut pool, 9, 10, 0);
    assert_eq!(close_user(&pool, &user), Err(StakingError::NonZeroStake));
    emergency_unstake(&mut pool, &mut user, 10).unwrap();
    release_lock(&mut pool);
    user.unpaid_rewards = 1;
    assert_eq!(close_user(&pool, &user), Err(StakingError::VaultNotEmpty));
    user.unpaid_rewards = 0;
    assert_eq!(close_user(&pool, &user), Ok(()));
}
