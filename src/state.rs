use vstd::prelude::*;

verus! {

/// A 32-byte account identity (an owner, a mint or a vault).
#[derive(Debug, Clone, Copy)]
pub struct Address {
    pub bytes: [u8; 32],
}

impl Address {
    /// All bytes zero: the identity of a record that was never assigned one.
    pub open spec fn is_unset_spec(self) -> bool {
        forall|i: int| 0 <= i < 32 ==> #[trigger] self.bytes@[i] == 0u8
    }

    pub fn unset() -> (r: Address)
        ensures
            r.is_unset_spec(),
    {
        Address { bytes: [0u8; 32] }
    }

    pub fn is_unset(&self) -> (r: bool)
        ensures
            r == self.is_unset_spec(),
    {
        let mut i: usize = 0;
        while i < 32
            invariant
                0 <= i <= 32,
                forall|j: int| 0 <= j < i ==> #[trigger] self.bytes@[j] == 0u8,
            decreases 32 - i,
        {
            if self.bytes[i] != 0 {
                return false;
            }
            i = i + 1;
        }
        true
    }
}

/// The aggregate record of one pool: configuration, totals and the
/// reward-per-unit-of-stake accumulator.
#[derive(Debug, Clone, Copy)]
pub struct Pool {
    pub admin: Address,
    pub staking_mint: Address,
    pub staking_vault: Address,
    pub reward_configured: bool,
    pub reward_mint: Address,
    pub reward_vault: Address,
    pub reward_rate_per_sec: u64,
    pub rate_cap: u64,
    pub total_staked: u64,
    /// Cumulative reward per unit of stake, scaled by `SCALAR`.
    pub acc_scaled: u128,
    pub last_update_ts: i64,
    pub paused: bool,
    /// Held while an operation is between its entry and its last transfer.
    pub locked: bool,
    pub bump: u8,
    pub signer_bump: u8,
}

/// One participant's position in one pool.
#[derive(Debug, Clone, Copy)]
pub struct User {
    pub owner: Address,
    pub staked: u64,
    /// Settled value of the position at its last settlement.
    pub debt: u128,
    /// Rewards owed but not yet paid because the reward vault fell short.
    pub unpaid_rewards: u128,
    pub bump: u8,
}

} // verus!
