use vstd::prelude::*;
use vstd::arithmetic::div_mod::{
    lemma_div_is_ordered,
    lemma_div_multiples_vanish_fancy,
    lemma_fundamental_div_mod,
};
use vstd::arithmetic::mul::lemma_mul_is_distributive_add;

verus! {

/// `amount * bps / 10000`, truncated toward zero.
pub open spec fn bps_share(amount: int, bps: int) -> int {
    amount * bps / 10000
}

/// Seconds from `from` to `to`, or zero when `to` is not later.
pub open spec fn elapsed_seconds(from: int, to: int) -> int {
    if to > from {
        to - from
    } else {
        0
    }
}

/// Yield accrued by `stake` at `rate_bps` per day over the seconds from
/// `last` to `now`: `stake * (rate_bps / 10000) * (elapsed / 86400)`,
/// truncated toward zero.
pub open spec fn reward_of(stake: int, last: int, now: int, rate_bps: int) -> int {
    if stake == 0 || now <= last {
        0
    } else {
        stake * rate_bps * (now - last) / 864_000_000
    }
}

proof fn lemma_div_split(k: int, m: int, d: int)
    requires
        d > 0,
        m >= 0,
    ensures
        (k * d + m) / d == k + m / d,
{
    lemma_fundamental_div_mod(m, d);
    assert(k * d + m == d * (k + m / d) + m % d) by (nonlinear_arith)
        requires
            m == d * (m / d) + m % d,
    ;
    lemma_div_multiples_vanish_fancy(k + m / d, m % d, d);
}

/// Accrued yield never decreases when the stake is larger or the accrual
/// period ends later, and it is zero when no time has elapsed.
pub proof fn lemma_reward_monotonic(
    stake1: int,
    stake2: int,
    last: int,
    now1: int,
    now2: int,
    rate_bps: int,
)
    requires
        0 <= stake1 <= stake2,
        now1 <= now2,
        0 <= rate_bps,
    ensures
        reward_of(stake1, last, now1, rate_bps) <= reward_of(stake2, last, now2, rate_bps),
        reward_of(stake1, last, last, rate_bps) == 0,
        reward_of(stake1, last, now1, rate_bps) >= 0,
{
    if stake2 == 0 || now2 <= last {
    } else {
        assert(stake2 * rate_bps * (now2 - last) >= 0) by (nonlinear_arith)
            requires
                stake2 > 0,
                now2 > last,
                rate_bps >= 0,
        ;
        if stake1 == 0 || now1 <= last {
            assert(0int / 864_000_000 == 0);
            lemma_div_is_ordered(0, stake2 * rate_bps * (now2 - last), 864_000_000);
        } else {
            assert(stake1 * rate_bps * (now1 - last) <= stake2 * rate_bps * (now2 - last))
                by (nonlinear_arith)
                requires
                    0 < stake1 <= stake2,
                    last < now1 <= now2,
                    rate_bps >= 0,
            ;
            lemma_div_is_ordered(
                stake1 * rate_bps * (now1 - last),
                stake2 * rate_bps * (now2 - last),
                864_000_000,
            );
            assert(stake1 * rate_bps * (now1 - last) >= 0) by (nonlinear_arith)
                requires
                    stake1 > 0,
                    now1 > last,
                    rate_bps >= 0,
            ;
            lemma_div_is_ordered(0, stake1 * rate_bps * (now1 - last), 864_000_000);
        }
    }
}

/// `amount * bps / 10000` for a share of at most 100%.
pub fn bps_amount(amount: u64, bps: u16) -> (r: u64)
    requires
        bps <= 10000,
    ensures
        r == bps_share(amount as int, bps as int),
        r <= amount,
{
    proof {
        assert(amount * bps <= 0xFFFF_FFFF_FFFF_FFFF * 10000) by (nonlinear_arith)
            requires
                bps <= 10000,
        ;
    }
    let product: u128 = (amount as u128) * (bps as u128);
    proof {
        assert(amount * bps <= amount * 10000) by (nonlinear_arith)
            requires
                bps <= 10000,
        ;
        lemma_div_is_ordered(amount * bps, amount * 10000, 10000);
        assert(amount * 10000 / 10000 == amount) by (nonlinear_arith);
    }
    (product / 10000) as u64
}

/// Pending yield of `stake_amount` at `daily_yield_bps` per day between the
/// two timestamps, exact and truncated toward zero. Zero stake or no elapsed
/// time gives zero.
pub fn calculate_rewards(
    stake_amount: u64,
    last_claim_timestamp: i64,
    current_timestamp: i64,
    daily_yield_bps: u16,
) -> (r: u128)
    ensures
        r == reward_of(
            stake_amount as int,
            last_claim_timestamp as int,
            current_timestamp as int,
            daily_yield_bps as int,
        ),
{
    if stake_amount == 0 || current_timestamp <= last_claim_timestamp {
        return 0;
    }
    let elapsed: u128 = (current_timestamp as i128 - last_claim_timestamp as i128) as u128;
    proof {
        assert(stake_amount * daily_yield_bps <= 0xFFFF_FFFF_FFFF_FFFF * 0xFFFF) by (nonlinear_arith);
    }
    let x: u128 = (stake_amount as u128) * (daily_yield_bps as u128);
    let whole: u128 = elapsed / 864_000_000;
    let part: u128 = elapsed % 864_000_000;
    proof {
        assert(x <= 0x1_0000_0000_0000_0000_0000u128) by (nonlinear_arith)
            requires
                x == stake_amount * daily_yield_bps,
        ;
        lemma_fundamental_div_mod(elapsed as int, 864_000_000);
        assert(whole <= 0x1_0000_0000_0000_0000u128 / 864_000_000);
        assert(x * whole <= 0x1_0000_0000_0000_0000_0000 * (0x1_0000_0000_0000_0000int / 864_000_000))
            by (nonlinear_arith)
            requires
                x <= 0x1_0000_0000_0000_0000_0000int,
                whole <= 0x1_0000_0000_0000_0000int / 864_000_000,
                x >= 0,
                whole >= 0,
        ;
        assert(x * part < 0x1_0000_0000_0000_0000_0000 * 864_000_000) by (nonlinear_arith)
            requires
                x <= 0x1_0000_0000_0000_0000_0000int,
                0 <= part < 864_000_000,
                x >= 0,
        ;
        lemma_mul_is_distributive_add(x as int, whole * 864_000_000, part as int);
        assert(x * (whole * 864_000_000) == (x * whole) * 864_000_000) by (nonlinear_arith);
        lemma_div_split(x * whole, x * part, 864_000_000);
        assert(stake_amount * daily_yield_bps * (current_timestamp - last_claim_timestamp)
            == x * elapsed);
    }
    x * whole + x * part / 864_000_000
}

} // verus!
