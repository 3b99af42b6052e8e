//! A staking pool that pays a continuously accruing reward to many
//! participants through a fixed-point reward-per-unit-of-stake
//! accumulator, so no operation ever walks the set of participants.
//!
//! Every operation is a function from the pool and position records (and
//! the values the runtime reads: the time, vault balances) to new records
//! or a named refusal. Token transfers are left to the caller: an
//! operation that needs one returns with the pool's mutation lock held,
//! and the caller gives it back with `release_lock` once the transfer is
//! done.

pub mod accrual;
pub mod error;
pub mod laws;
pub mod lifecycle;
pub mod pool;
pub mod position;
pub mod state;

pub use accrual::{MAX_DT, MAX_UNPAID, SCALAR};
pub use error::StakingError;
pub use lifecycle::{close_pool, close_user};
pub use pool::{
    configure_rewards, ensure_vaults, fund_rewards, initialize, rate_cap, reentrancy_guard,
    release_lock, set_admin, set_paused, set_reward_rate, update_pool, withdraw_rewards,
    VaultRepair,
};
pub use position::{claim, emergency_unstake, init_user, pending, stake, unstake};
pub use state::{Address, Pool, User};
