use vstd::prelude::*;

use crate::accrual::{lemma_settled_monotone, lemma_settled_zero, settled_value};
use crate::error::StakingError;
use crate::lifecycle::close_pool_outcome;
use crate::pool::{advance, set_rate_outcome};
use crate::position::{
    claim_outcome, emergency_unstake_outcome, pending_of, stake_outcome, total_due, unstake_outcome,
};
use crate::state::{Address, Pool, User};

verus! {

/// The pool after each of `times` in turn, stopping at the first failure.
pub open spec fn advance_all(p: Pool, times: Seq<i64>) -> Result<Pool, StakingError>
    decreases times.len(),
{
    if times.len() == 0 {
        Ok(p)
    } else {
        match advance(p, times[0]) {
            Ok(q) => advance_all(q, times.drop_first()),
            Err(e) => Err(e),
        }
    }
}

/// Advancing never lowers the accumulator, never moves the clock back,
/// and advancing again to the same time is a no-op.
pub proof fn law_advance_monotone_idempotent(p: Pool, now: i64)
    ensures
        advance(p, now) is Ok ==> {
            let q = advance(p, now)->Ok_0;
            &&& q.acc_scaled >= p.acc_scaled
            &&& q.last_update_ts >= p.last_update_ts
            &&& q.total_staked == p.total_staked
            &&& advance(q, now) == Ok::<Pool, StakingError>(q)
        },
{
}

/// Along any sequence of non-decreasing times, the accumulator does not
/// decrease.
pub proof fn law_advance_sequence_monotone(p: Pool, times: Seq<i64>)
    requires
        forall|i: int, j: int| 0 <= i < j < times.len() ==> times[i] <= times[j],
    ensures
        advance_all(p, times) is Ok ==> advance_all(p, times)->Ok_0.acc_scaled >= p.acc_scaled,
    decreases times.len(),
{
    if times.len() > 0 {
        law_advance_monotone_idempotent(p, times[0]);
        if advance(p, times[0]) is Ok {
            let rest = times.drop_first();
            assert forall|i: int, j: int| 0 <= i < j < rest.len() implies rest[i] <= rest[j] by {
                assert(rest[i] == times[i + 1] && rest[j] == times[j + 1]);
            }
            law_advance_sequence_monotone(advance(p, times[0])->Ok_0, rest);
        }
    }
}

/// No operation that succeeds lowers the pool's accumulator.
pub proof fn law_operations_never_lower_accumulator(
    p: Pool,
    u: User,
    owner: Address,
    amount: u64,
    rate: u64,
    now: i64,
    available: u64,
)
    ensures
        stake_outcome(p, u, owner, amount, now) is Ok ==> stake_outcome(
            p,
            u,
            owner,
            amount,
            now,
        )->Ok_0.0.acc_scaled >= p.acc_scaled,
        unstake_outcome(p, u, amount, now) is Ok ==> unstake_outcome(
            p,
            u,
            amount,
            now,
        )->Ok_0.0.acc_scaled >= p.acc_scaled,
        emergency_unstake_outcome(p, u, amount) is Ok ==> emergency_unstake_outcome(
            p,
            u,
            amount,
        )->Ok_0.0.acc_scaled == p.acc_scaled,
        claim_outcome(p, u, now, available) is Ok ==> claim_outcome(
            p,
            u,
            now,
            available,
        )->Ok_0.0.acc_scaled >= p.acc_scaled,
        set_rate_outcome(p, rate, now) is Ok ==> set_rate_outcome(p, rate, now)->Ok_0.acc_scaled
            >= p.acc_scaled,
{
    law_advance_monotone_idempotent(p, now);
}

/// Sum of the stake of all `users`.
pub open spec fn sum_staked(users: Seq<User>) -> int
    decreases users.len(),
{
    if users.len() == 0 {
        0
    } else {
        sum_staked(users.drop_last()) + users.last().staked
    }
}

proof fn lemma_sum_staked_update(users: Seq<User>, i: int, u: User)
    requires
        0 <= i < users.len(),
    ensures
        sum_staked(users.update(i, u)) == sum_staked(users) - users[i].staked + u.staked,
    decreases users.len(),
{
    let updated = users.update(i, u);
    if i == users.len() - 1 {
        assert(updated.drop_last() =~= users.drop_last());
    } else {
        lemma_sum_staked_update(users.drop_last(), i, u);
        assert(updated.drop_last() =~= users.drop_last().update(i, u));
    }
}

/// One participant operation of the stake ledger, on the participant at
/// index `who`.
pub enum LedgerStep {
    Stake { who: usize, owner: Address, amount: u64, now: i64 },
    Unstake { who: usize, amount: u64, now: i64 },
    EmergencyUnstake { who: usize, amount: u64 },
}

/// Pool, positions and staking-vault balance after one step, with the
/// step's transfer done and the lock given back; a refused step, or one
/// on a participant that does not exist, changes nothing.
pub open spec fn ledger_step(p: Pool, users: Seq<User>, vault: int, s: LedgerStep) -> (
    Pool,
    Seq<User>,
    int,
) {
    match s {
        LedgerStep::Stake { who, owner, amount, now } => {
            if who < users.len() && stake_outcome(p, users[who as int], owner, amount, now) is Ok {
                let (q, u, _) = stake_outcome(p, users[who as int], owner, amount, now)->Ok_0;
                (Pool { locked: false, ..q }, users.update(who as int, u), vault + amount)
            } else {
                (p, users, vault)
            }
        },
        LedgerStep::Unstake { who, amount, now } => {
            if who < users.len() && unstake_outcome(p, users[who as int], amount, now) is Ok {
                let (q, u, _) = unstake_outcome(p, users[who as int], amount, now)->Ok_0;
                (Pool { locked: false, ..q }, users.update(who as int, u), vault - amount)
            } else {
                (p, users, vault)
            }
        },
        LedgerStep::EmergencyUnstake { who, amount } => {
            if who < users.len() && emergency_unstake_outcome(p, users[who as int], amount) is Ok {
                let (q, u, _) = emergency_unstake_outcome(p, users[who as int], amount)->Ok_0;
                (Pool { locked: false, ..q }, users.update(who as int, u), vault - amount)
            } else {
                (p, users, vault)
            }
        },
    }
}

/// Pool, positions and staking-vault balance after all of `steps`.
pub open spec fn ledger_replay(p: Pool, users: Seq<User>, vault: int, steps: Seq<LedgerStep>) -> (
    Pool,
    Seq<User>,
    int,
)
    decreases steps.len(),
{
    if steps.len() == 0 {
        (p, users, vault)
    } else {
        let (p1, users1, vault1) = ledger_step(p, users, vault, steps[0]);
        ledger_replay(p1, users1, vault1, steps.drop_first())
    }
}

proof fn lemma_ledger_step_keeps_totals(p: Pool, users: Seq<User>, vault: int, s: LedgerStep)
    requires
        p.total_staked == sum_staked(users),
        vault == p.total_staked,
    ensures
        ({
            let (q, us, v) = ledger_step(p, users, vault, s);
            q.total_staked == sum_staked(us) && v == q.total_staked
        }),
{
    match s {
        LedgerStep::Stake { who, owner, amount, now } => {
            if who < users.len() && stake_outcome(p, users[who as int], owner, amount, now) is Ok {
                let (q, u, _) = stake_outcome(p, users[who as int], owner, amount, now)->Ok_0;
                lemma_sum_staked_update(users, who as int, u);
            }
        },
        LedgerStep::Unstake { who, amount, now } => {
            if who < users.len() && unstake_outcome(p, users[who as int], amount, now) is Ok {
                let (q, u, _) = unstake_outcome(p, users[who as int], amount, now)->Ok_0;
                lemma_sum_staked_update(users, who as int, u);
            }
        },
        LedgerStep::EmergencyUnstake { who, amount } => {
            if who < users.len() && emergency_unstake_outcome(p, users[who as int], amount) is Ok {
                let (q, u, _) = emergency_unstake_outcome(p, users[who as int], amount)->Ok_0;
                lemma_sum_staked_update(users, who as int, u);
            }
        },
    }
}

/// Over every sequence of stake, unstake and emergency-unstake steps, the
/// pool's total stake stays equal to the sum of the participants' stake
/// and to the staking vault's balance.
pub proof fn law_total_staked_matches_positions(
    p: Pool,
    users: Seq<User>,
    vault: int,
    steps: Seq<LedgerStep>,
)
    requires
        p.total_staked == sum_staked(users),
        vault == p.total_staked,
    ensures
        ({
            let (q, us, v) = ledger_replay(p, users, vault, steps);
            q.total_staked == sum_staked(us) && v == q.total_staked
        }),
    decreases steps.len(),
{
    if steps.len() > 0 {
        lemma_ledger_step_keeps_totals(p, users, vault, steps[0]);
        let (p1, users1, vault1) = ledger_step(p, users, vault, steps[0]);
        law_total_staked_matches_positions(p1, users1, vault1, steps.drop_first());
    }
}

/// A position settled at accumulator `acc0` is owed a non-negative
/// amount at any accumulator not below `acc0`: its settled value is at
/// least its debt, and its pending reward is exactly the difference.
pub proof fn law_pending_nonnegative(u: User, p: Pool, acc0: u128)
    requires
        u.debt == settled_value(u.staked, acc0),
        acc0 <= p.acc_scaled,
    ensures
        settled_value(u.staked, p.acc_scaled) >= u.debt,
        pending_of(u, p) == settled_value(u.staked, p.acc_scaled) - u.debt,
        pending_of(u, p) >= 0,
{
    lemma_settled_monotone(u.staked, acc0, p.acc_scaled);
    if u.staked == 0 {
        lemma_settled_zero(p.acc_scaled);
    }
}

/// Claiming again at the same time, after a claim that the vault covered
/// in full, pays nothing and leaves both records as they were.
pub proof fn law_claim_repeat_pays_nothing(
    p: Pool,
    u: User,
    now: i64,
    available: u64,
    available_again: u64,
)
    requires
        claim_outcome(p, u, now, available) is Ok,
        total_due(u, advance(p, now)->Ok_0) <= available,
    ensures
        ({
            let (p1, u1, _) = claim_outcome(p, u, now, available)->Ok_0;
            claim_outcome(Pool { locked: false, ..p1 }, u1, now, available_again) == Ok::<
                (Pool, User, u64),
                StakingError,
            >((p1, u1, 0u64))
        }),
{
    let q = advance(p, now)->Ok_0;
    let (p1, u1, _) = claim_outcome(p, u, now, available)->Ok_0;
    law_advance_monotone_idempotent(p, now);
    let p1u = Pool { locked: false, ..p1 };
    assert(advance(p1u, now) == Ok::<Pool, StakingError>(p1u));
    if u1.staked == 0 {
        lemma_settled_zero(p1.acc_scaled);
    }
    assert(pending_of(u1, p1u) == 0);
    assert(total_due(u1, p1u) == 0);
    let (p2, u2, pay2) = claim_outcome(p1u, u1, now, available_again)->Ok_0;
    assert(u2 == u1);
    assert(p2 == p1);
}

/// Staking `amount` and unstaking it again at the same time, with the lock
/// given back in between, returns the position's stake and the pool's
/// total stake to what they were; the staking vault takes in and pays out
/// the same `amount`.
pub proof fn law_stake_unstake_round_trip(p: Pool, u: User, owner: Address, amount: u64, now: i64)
    requires
        stake_outcome(p, u, owner, amount, now) is Ok,
    ensures
        ({
            let (p1, u1, _) = stake_outcome(p, u, owner, amount, now)->Ok_0;
            let back = unstake_outcome(Pool { locked: false, ..p1 }, u1, amount, now);
            &&& back is Ok
            &&& back->Ok_0.1.staked == u.staked
            &&& back->Ok_0.0.total_staked == p.total_staked
            &&& back->Ok_0.0.acc_scaled == p1.acc_scaled
        }),
{
    law_advance_monotone_idempotent(p, now);
    let (p1, u1, _) = stake_outcome(p, u, owner, amount, now)->Ok_0;
    let p1u = Pool { locked: false, ..p1 };
    assert(advance(p1u, now) == Ok::<Pool, StakingError>(p1u));
}

/// A pool that still holds stake is always refused with `NonZeroStake`;
/// one with no stake but a vault that holds tokens is always refused with
/// `VaultNotEmpty`.
pub proof fn law_close_pool_refusals(
    p: Pool,
    staking_vault_amount: u64,
    reward_vault_amount: Option<u64>,
)
    ensures
        p.total_staked != 0 ==> close_pool_outcome(p, staking_vault_amount, reward_vault_amount)
            == Err::<(), StakingError>(StakingError::NonZeroStake),
        p.total_staked == 0 && (staking_vault_amount != 0 || (p.reward_configured
            && reward_vault_amount is Some && reward_vault_amount->0 != 0)) ==> close_pool_outcome(
            p,
            staking_vault_amount,
            reward_vault_amount,
        ) == Err::<(), StakingError>(StakingError::VaultNotEmpty),
{
}

} // verus!
