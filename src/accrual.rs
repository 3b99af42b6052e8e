use vstd::prelude::*;

verus! {

/// Fixed-point scale of the accumulator: one unit of reward per unit of
/// stake is `SCALAR`.
pub const SCALAR: u128 = 1_000_000_000_000;

/// Longest stretch of time, in seconds, that one advance accrues (7 days).
pub const MAX_DT: i64 = 7 * 24 * 3600;

/// Ceiling on carried-over unpaid rewards: the largest 64-bit amount.
pub const MAX_UNPAID: u128 = 18_446_744_073_709_551_615;

/// `a * b`, saturated at the largest 128-bit value.
pub open spec fn saturating_product(a: int, b: int) -> int {
    if a * b > u128::MAX {
        u128::MAX as int
    } else {
        a * b
    }
}

/// `staked * accumulator / SCALAR`, with a saturating product and floor
/// division: what a position would be owed if it had never been paid.
pub open spec fn settled_value(staked: u64, acc: u128) -> int {
    saturating_product(staked as int, acc as int) / (SCALAR as int)
}

/// Seconds elapsed from `last` to `now`, clamped to `MAX_DT`.
pub open spec fn clamped_elapsed(now: i64, last: i64) -> int {
    if now - last > MAX_DT {
        MAX_DT as int
    } else {
        now - last
    }
}

/// Growth of the accumulator over `dt` seconds at `rate` per second shared
/// among `total` units of stake.
pub open spec fn accrual_increment(dt: int, rate: u64, total: u64) -> int {
    dt * rate * SCALAR / (total as int)
}

/// Settled value of `amount` units of stake at accumulator `acc_scaled`.
pub fn calc(amount: u64, acc_scaled: u128) -> (r: u128)
    ensures
        r == settled_value(amount, acc_scaled),
{
    let product: u128 = match (amount as u128).checked_mul(acc_scaled) {
        Some(p) => p,
        None => u128::MAX,
    };
    product / SCALAR
}

/// Seconds to accrue between `last` and a later `now`.
pub fn elapsed(now: i64, last: i64) -> (r: u128)
    requires
        now > last,
    ensures
        r == clamped_elapsed(now, last),
        0 < r <= MAX_DT,
{
    let raw: i128 = now as i128 - last as i128;
    if raw > MAX_DT as i128 {
        MAX_DT as u128
    } else {
        raw as u128
    }
}

/// Accumulator growth for `dt` seconds; the products cannot overflow since
/// `dt` is at most `MAX_DT`.
pub fn increment(dt: u128, rate: u64, total: u64) -> (r: u128)
    requires
        dt <= MAX_DT,
        total > 0,
    ensures
        r == accrual_increment(dt as int, rate, total),
{
    let rate_wide: u128 = rate as u128;
    assert(dt * rate_wide <= (MAX_DT as int) * (u64::MAX as int)) by (nonlinear_arith)
        requires
            dt <= MAX_DT,
            rate_wide <= u64::MAX,
    ;
    let per_second: u128 = dt * rate_wide;
    assert(per_second * SCALAR <= (MAX_DT as int) * (u64::MAX as int) * (SCALAR as int))
        by (nonlinear_arith)
        requires
            per_second <= (MAX_DT as int) * (u64::MAX as int),
    ;
    let scaled: u128 = per_second * SCALAR;
    scaled / (total as u128)
}

/// A larger accumulator never settles to less.
pub proof fn lemma_settled_monotone(staked: u64, acc1: u128, acc2: u128)
    requires
        acc1 <= acc2,
    ensures
        settled_value(staked, acc1) <= settled_value(staked, acc2),
{
    assert((staked as int) * (acc1 as int) <= (staked as int) * (acc2 as int)) by (nonlinear_arith)
        requires
            acc1 <= acc2,
    ;
    let p1 = saturating_product(staked as int, acc1 as int);
    let p2 = saturating_product(staked as int, acc2 as int);
    assert(p1 <= p2);
    vstd::arithmetic::div_mod::lemma_div_is_ordered(p1, p2, SCALAR as int);
}

/// Nothing settles for an empty position.
pub proof fn lemma_settled_zero(acc: u128)
    ensures
        settled_value(0, acc) == 0,
{
    assert((0 as int) * (acc as int) == 0);
}

} // verus!
