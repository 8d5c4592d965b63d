use vstd::prelude::*;

use crate::address::Address;
use crate::formula::bps_share;

verus! {

/// One whole token in base units (nine decimals).
pub const TOKEN_UNIT: u64 = 1_000_000_000;

/// Seconds in one hour.
pub const SECONDS_PER_HOUR: i64 = 3600;

/// Why a spin-engine operation was refused. A refused call changes nothing.
#[derive(Clone, Copy, Debug, PartialEq, Eq, Structural)]
pub enum ErrorCode {
    /// A yield range whose minimum exceeds its maximum.
    InvalidYieldRange,
    /// A moonshot probability above 100.
    InvalidProbability,
    /// A zero cooldown.
    InvalidCooldown,
    /// The cooldown since the last spin has not run out.
    CooldownNotMet,
    /// The participant has nothing staked.
    NoStake,
    /// The fallback yield was asked for within the cooldown.
    AlreadySpunToday,
    /// A booster quantity out of its range.
    InvalidBoosterValue,
    /// The caller is not the configured authority.
    Unauthorized,
    /// The paying vault holds less than the payout.
    InsufficientFunds,
    /// A counter or running total would leave its integer range.
    ArithmeticOverflow,
}

/// Global spin parameters.
#[derive(Clone, Copy, Debug)]
pub struct SpinConfig {
    pub authority: Address,
    pub base_yield_min_bps: u16,
    pub base_yield_max_bps: u16,
    pub moonshot_yield_min_bps: u16,
    pub moonshot_yield_max_bps: u16,
    /// Chance of a moonshot, in percent.
    pub moonshot_probability: u8,
    pub fallback_yield_bps: u16,
    pub cooldown_seconds: u32,
}

/// One participant's spin state.
#[derive(Clone, Copy, Debug)]
pub struct UserSpinInfo {
    pub user: Address,
    /// Time of the last spin or fallback claim; `None` before the first.
    pub last_spin_timestamp: Option<i64>,
    pub total_spins: u32,
    pub total_base_yield_earned: u64,
    pub total_moonshot_yield_earned: u64,
    /// Spins left with ten more points of moonshot chance.
    pub lucky_charm_spins_remaining: u8,
    /// End of the window in which yields count one and a half times.
    pub yield_amplifier_end_time: i64,
    /// Spins left whose yield is raised to at least the fallback yield.
    pub chad_shield_spins_remaining: u8,
}

/// The audit entry of one spin.
#[derive(Clone, Copy, Debug)]
pub struct SpinHistory {
    pub user: Address,
    pub timestamp: i64,
    /// The yield paid, after every modifier.
    pub yield_bps: u32,
    pub is_moonshot: bool,
    pub tokens_earned: u64,
    /// A lucky charm raised the moonshot chance.
    pub lucky_charm_active: bool,
    /// The amplifier window was open.
    pub yield_amplifier_active: bool,
    /// The shield raised the draw to the fallback yield.
    pub chad_shield_active: bool,
}

/// The three purchasable modifiers.
#[derive(Clone, Copy, Debug, PartialEq, Eq, Structural)]
pub enum BoosterType {
    LuckyCharm,
    YieldAmplifier,
    ChadShield,
}

impl SpinConfig {
    /// Both ranges are ordered, the probability is a percentage and the
    /// cooldown is positive.
    pub open spec fn wf(&self) -> bool {
        &&& self.base_yield_min_bps <= self.base_yield_max_bps
        &&& self.moonshot_yield_min_bps <= self.moonshot_yield_max_bps
        &&& self.moonshot_probability <= 100
        &&& self.cooldown_seconds > 0
    }
}

impl UserSpinInfo {
    /// The state of a participant who has never spun.
    pub fn new(user: Address) -> (r: UserSpinInfo)
        ensures
            r == (UserSpinInfo {
                user,
                last_spin_timestamp: None,
                total_spins: 0,
                total_base_yield_earned: 0,
                total_moonshot_yield_earned: 0,
                lucky_charm_spins_remaining: 0,
                yield_amplifier_end_time: 0,
                chad_shield_spins_remaining: 0,
            }),
    {
        UserSpinInfo {
            user,
            last_spin_timestamp: None,
            total_spins: 0,
            total_base_yield_earned: 0,
            total_moonshot_yield_earned: 0,
            lucky_charm_spins_remaining: 0,
            yield_amplifier_end_time: 0,
            chad_shield_spins_remaining: 0,
        }
    }
}

/// A spin (or the fallback claim) is allowed when there was no earlier spin
/// or the cooldown since it has run out.
pub open spec fn spin_eligible(info: UserSpinInfo, now: int, cooldown: int) -> bool {
    match info.last_spin_timestamp {
        None => true,
        Some(last) => now - last >= cooldown,
    }
}

/// Moonshot chance in percent: ten points more while a lucky charm lasts
/// (saturating at 255).
pub open spec fn moonshot_chance(config: SpinConfig, info: UserSpinInfo) -> int {
    if info.lucky_charm_spins_remaining > 0 {
        if config.moonshot_probability + 10 > 255 {
            255
        } else {
            config.moonshot_probability + 10
        }
    } else {
        config.moonshot_probability as int
    }
}

/// Whether the draw `random` is a moonshot.
pub open spec fn is_moonshot(config: SpinConfig, info: UserSpinInfo, random: u8) -> bool {
    (random as int) % 100 < moonshot_chance(config, info)
}

/// The yield drawn uniformly from the applicable range with the same draw.
pub open spec fn drawn_yield(config: SpinConfig, moonshot: bool, random: u8) -> int {
    if moonshot {
        config.moonshot_yield_min_bps + (random as int) % (config.moonshot_yield_max_bps
            - config.moonshot_yield_min_bps + 1)
    } else {
        config.base_yield_min_bps + (random as int) % (config.base_yield_max_bps
            - config.base_yield_min_bps + 1)
    }
}

/// The yield drawn by the spin of `info` with `random`.
pub open spec fn spin_draw(config: SpinConfig, info: UserSpinInfo, random: u8) -> int {
    drawn_yield(config, is_moonshot(config, info, random), random)
}

/// The shield fires when a charge is left and the draw is below the fallback.
pub open spec fn shield_fires(config: SpinConfig, info: UserSpinInfo, drawn: int) -> bool {
    info.chad_shield_spins_remaining > 0 && drawn < config.fallback_yield_bps
}

/// The yield after the shield's floor.
pub open spec fn floored_yield(config: SpinConfig, info: UserSpinInfo, drawn: int) -> int {
    if shield_fires(config, info, drawn) {
        config.fallback_yield_bps as int
    } else {
        drawn
    }
}

/// Whether the amplifier window is open at `now`.
pub open spec fn amplifier_active(info: UserSpinInfo, now: int) -> bool {
    now < info.yield_amplifier_end_time
}

/// The final yield of a spin: the floored draw, times 1.5 (truncated) while
/// the amplifier runs.
pub open spec fn spin_yield_bps(config: SpinConfig, info: UserSpinInfo, random: u8, now: int) -> int {
    let floored = floored_yield(config, info, spin_draw(config, info, random));
    if amplifier_active(info, now) {
        floored * 150 / 100
    } else {
        floored
    }
}

/// Tokens paid by a spin on `stake`.
pub open spec fn spin_payout(
    config: SpinConfig,
    info: UserSpinInfo,
    stake: int,
    random: u8,
    now: int,
) -> int {
    bps_share(stake, spin_yield_bps(config, info, random, now))
}

/// Whether recording the spin would overflow a counter or a running total.
pub open spec fn spin_overflows(
    config: SpinConfig,
    info: UserSpinInfo,
    stake: int,
    random: u8,
    now: int,
) -> bool {
    let payout = spin_payout(config, info, stake, random, now);
    ||| info.total_spins + 1 > u32::MAX
    ||| is_moonshot(config, info, random) && info.total_moonshot_yield_earned + payout > u64::MAX
    ||| !is_moonshot(config, info, random) && info.total_base_yield_earned + payout > u64::MAX
}

/// The participant's state after the spin.
pub open spec fn spun(
    config: SpinConfig,
    info: UserSpinInfo,
    stake: int,
    random: u8,
    now: int,
) -> UserSpinInfo {
    let moonshot = is_moonshot(config, info, random);
    let payout = spin_payout(config, info, stake, random, now);
    UserSpinInfo {
        last_spin_timestamp: Some(now as i64),
        total_spins: (info.total_spins + 1) as u32,
        total_base_yield_earned: if moonshot {
            info.total_base_yield_earned
        } else {
            (info.total_base_yield_earned + payout) as u64
        },
        total_moonshot_yield_earned: if moonshot {
            (info.total_moonshot_yield_earned + payout) as u64
        } else {
            info.total_moonshot_yield_earned
        },
        lucky_charm_spins_remaining: if info.lucky_charm_spins_remaining > 0 {
            (info.lucky_charm_spins_remaining - 1) as u8
        } else {
            0
        },
        chad_shield_spins_remaining: if shield_fires(config, info, spin_draw(config, info, random)) {
            (info.chad_shield_spins_remaining - 1) as u8
        } else {
            info.chad_shield_spins_remaining
        },
        ..info
    }
}

/// The audit entry of the spin.
pub open spec fn spin_record(
    config: SpinConfig,
    info: UserSpinInfo,
    stake: int,
    random: u8,
    now: int,
) -> SpinHistory {
    SpinHistory {
        user: info.user,
        timestamp: now as i64,
        yield_bps: spin_yield_bps(config, info, random, now) as u32,
        is_moonshot: is_moonshot(config, info, random),
        tokens_earned: spin_payout(config, info, stake, random, now) as u64,
        lucky_charm_active: info.lucky_charm_spins_remaining > 0,
        yield_amplifier_active: amplifier_active(info, now),
        chad_shield_active: shield_fires(config, info, spin_draw(config, info, random)),
    }
}

/// Spins for yield at `now` with the weak random draw `random`, against a
/// stake of `stake_amount` and a rewards pool holding `rewards_pool_balance`.
/// A lucky charm adds ten points of moonshot chance; the draw picks a yield in
/// the moonshot or the base range; a shield raises a draw below the fallback
/// to the fallback; an open amplifier window multiplies by 1.5. On success
/// the caller moves `tokens_earned` from the pool to the participant.
pub fn spin_for_yield(
    config: &SpinConfig,
    info: &mut UserSpinInfo,
    stake_amount: u64,
    random: u8,
    now: i64,
    rewards_pool_balance: u64,
) -> (r: Result<SpinHistory, ErrorCode>)
    requires
        config.wf(),
    ensures
        !spin_eligible(
            *old(info),
            now as int,
            config.cooldown_seconds as int,
        ) ==> r == Err::<SpinHistory, ErrorCode>(ErrorCode::CooldownNotMet),
        spin_eligible(
            *old(info),
            now as int,
            config.cooldown_seconds as int,
        ) && stake_amount == 0 ==> r == Err::<SpinHistory, ErrorCode>(ErrorCode::NoStake),
        spin_eligible(
            *old(info),
            now as int,
            config.cooldown_seconds as int,
        ) && stake_amount > 0 && spin_payout(
            *config,
            *old(info),
            stake_amount as int,
            random,
            now as int,
        ) > rewards_pool_balance ==> r == Err::<SpinHistory, ErrorCode>(
            ErrorCode::InsufficientFunds,
        ),
        spin_eligible(
            *old(info),
            now as int,
            config.cooldown_seconds as int,
        ) && stake_amount > 0 && spin_payout(
            *config,
            *old(info),
            stake_amount as int,
            random,
            now as int,
        ) <= rewards_pool_balance && spin_overflows(
            *config,
            *old(info),
            stake_amount as int,
            random,
            now as int,
        ) ==> r == Err::<SpinHistory, ErrorCode>(ErrorCode::ArithmeticOverflow),
        r is Ok <==> ({
            &&& spin_eligible(
                *old(info),
                now as int,
                config.cooldown_seconds as int,
            )
            &&& stake_amount > 0
            &&& spin_payout(*config, *old(info), stake_amount as int, random, now as int)
                <= rewards_pool_balance
            &&& !spin_overflows(*config, *old(info), stake_amount as int, random, now as int)
        }),
        r matches Ok(h) ==> {
            &&& h.tokens_earned <= rewards_pool_balance
            &&& final(info).last_spin_timestamp == Some(now)
            &&& old(info).last_spin_timestamp matches Some(last) ==> last < now
            &&& h == spin_record(*config, *old(info), stake_amount as int, random, now as int)
            &&& *final(info) == spun(*config, *old(info), stake_amount as int, random, now as int)
        },
        r is Err ==> *final(info) == *old(info),
{
    if let Some(last) = info.last_spin_timestamp {
        if (now as i128) - (last as i128) < config.cooldown_seconds as i128 {
            return Err(ErrorCode::CooldownNotMet);
        }
    }
    if stake_amount == 0 {
        return Err(ErrorCode::NoStake);
    }
    let lucky_charm_active = info.lucky_charm_spins_remaining > 0;
    let chance: u8 = if lucky_charm_active {
        if config.moonshot_probability > 245 {
            255
        } else {
            config.moonshot_probability + 10
        }
    } else {
        config.moonshot_probability
    };
    let moonshot = random % 100 < chance;
    let (low, high) = if moonshot {
        (config.moonshot_yield_min_bps, config.moonshot_yield_max_bps)
    } else {
        (config.base_yield_min_bps, config.base_yield_max_bps)
    };
    let width: u32 = (high - low) as u32 + 1;
    let drawn: u32 = low as u32 + (random as u32) % width;
    let shield_fired = info.chad_shield_spins_remaining > 0 && drawn < config.fallback_yield_bps as u32;
    let floored: u32 = if shield_fired {
        config.fallback_yield_bps as u32
    } else {
        drawn
    };
    let yield_amplifier_active = now < info.yield_amplifier_end_time;
    let final_yield: u32 = if yield_amplifier_active {
        floored * 150 / 100
    } else {
        floored
    };
    proof {
        assert(stake_amount * final_yield <= 0xFFFF_FFFF_FFFF_FFFF * 0x1_0000_0000)
            by (nonlinear_arith)
            requires
                final_yield < 0x1_0000_0000,
        ;
    }
    let owed: u128 = (stake_amount as u128) * (final_yield as u128) / 10000;
    if owed > rewards_pool_balance as u128 {
        return Err(ErrorCode::InsufficientFunds);
    }
    let tokens_earned = owed as u64;
    if info.total_spins == u32::MAX {
        return Err(ErrorCode::ArithmeticOverflow);
    }
    if moonshot {
        if tokens_earned > u64::MAX - info.total_moonshot_yield_earned {
            return Err(ErrorCode::ArithmeticOverflow);
        }
        info.total_moonshot_yield_earned = info.total_moonshot_yield_earned + tokens_earned;
    } else {
        if tokens_earned > u64::MAX - info.total_base_yield_earned {
            return Err(ErrorCode::ArithmeticOverflow);
        }
        info.total_base_yield_earned = info.total_base_yield_earned + tokens_earned;
    }
    if lucky_charm_active {
        info.lucky_charm_spins_remaining = info.lucky_charm_spins_remaining - 1;
    }
    if shield_fired {
        info.chad_shield_spins_remaining = info.chad_shield_spins_remaining - 1;
    }
    info.last_spin_timestamp = Some(now);
    info.total_spins = info.total_spins + 1;
    Ok(
        SpinHistory {
            user: info.user,
            timestamp: now,
            yield_bps: final_yield,
            is_moonshot: moonshot,
            tokens_earned,
            lucky_charm_active,
            yield_amplifier_active,
            chad_shield_active: shield_fired,
        },
    )
}

/// Once a spin at `first` is recorded, a spin at `second` less than the
/// cooldown later is not eligible, so it is refused with `CooldownNotMet`.
pub proof fn lemma_second_spin_within_cooldown_refused(
    config: SpinConfig,
    info: UserSpinInfo,
    stake: u64,
    random: u8,
    first: i64,
    second: i64,
)
    requires
        config.wf(),
        second - first < config.cooldown_seconds,
    ensures
        !spin_eligible(
            spun(config, info, stake as int, random, first as int),
            second as int,
            config.cooldown_seconds as int,
        ),
{
}

/// A spin that holds a shield charge and draws below the fallback yield is
/// raised to exactly the fallback yield, uses exactly one shield charge, and
/// outside an amplifier window pays exactly the fallback yield on the stake.
pub proof fn lemma_shield_pays_fallback(
    config: SpinConfig,
    info: UserSpinInfo,
    stake: u64,
    random: u8,
    now: i64,
)
    requires
        config.wf(),
        info.chad_shield_spins_remaining > 0,
        spin_draw(config, info, random) < config.fallback_yield_bps,
    ensures
        floored_yield(config, info, spin_draw(config, info, random)) == config.fallback_yield_bps,
        spun(config, info, stake as int, random, now as int).chad_shield_spins_remaining
            == info.chad_shield_spins_remaining - 1,
        !amplifier_active(info, now as int) ==> spin_payout(
            config,
            info,
            stake as int,
            random,
            now as int,
        ) == bps_share(stake as int, config.fallback_yield_bps as int),
{
}

/// The participant's state after claiming the fallback yield on `stake`.
pub open spec fn fallback_claimed(
    config: SpinConfig,
    info: UserSpinInfo,
    stake: int,
    now: int,
) -> UserSpinInfo {
    UserSpinInfo {
        last_spin_timestamp: Some(now as i64),
        total_base_yield_earned: (info.total_base_yield_earned + bps_share(
            stake,
            config.fallback_yield_bps as int,
        )) as u64,
        ..info
    }
}

/// After a fallback claim at `first`, neither a spin nor another fallback
/// claim at `second` less than the cooldown later is eligible.
pub proof fn lemma_fallback_claim_starts_cooldown(
    config: SpinConfig,
    info: UserSpinInfo,
    stake: u64,
    first: i64,
    second: i64,
)
    requires
        second - first < config.cooldown_seconds,
    ensures
        !spin_eligible(
            fallback_claimed(config, info, stake as int, first as int),
            second as int,
            config.cooldown_seconds as int,
        ),
{
}

/// Claims the fixed fallback yield on `stake_amount` instead of spinning,
/// once the cooldown has run out; it restarts the cooldown as a spin does.
/// On success the caller moves the returned amount from the pool to the
/// participant.
pub fn claim_fallback_yield(
    config: &SpinConfig,
    info: &mut UserSpinInfo,
    stake_amount: u64,
    now: i64,
    rewards_pool_balance: u64,
) -> (r: Result<u64, ErrorCode>)
    ensures
        !spin_eligible(
            *old(info),
            now as int,
            config.cooldown_seconds as int,
        ) ==> r == Err::<u64, ErrorCode>(ErrorCode::AlreadySpunToday),
        spin_eligible(
            *old(info),
            now as int,
            config.cooldown_seconds as int,
        ) && stake_amount == 0 ==> r == Err::<u64, ErrorCode>(ErrorCode::NoStake),
        spin_eligible(
            *old(info),
            now as int,
            config.cooldown_seconds as int,
        ) && stake_amount > 0 && bps_share(stake_amount as int, config.fallback_yield_bps as int)
            > rewards_pool_balance ==> r == Err::<u64, ErrorCode>(ErrorCode::InsufficientFunds),
        spin_eligible(
            *old(info),
            now as int,
            config.cooldown_seconds as int,
        ) && stake_amount > 0 && bps_share(stake_amount as int, config.fallback_yield_bps as int)
            <= rewards_pool_balance && old(info).total_base_yield_earned + bps_share(
            stake_amount as int,
            config.fallback_yield_bps as int,
        ) > u64::MAX ==> r == Err::<u64, ErrorCode>(ErrorCode::ArithmeticOverflow),
        r is Ok <==> ({
            &&& spin_eligible(
                *old(info),
                now as int,
                config.cooldown_seconds as int,
            )
            &&& stake_amount > 0
            &&& bps_share(stake_amount as int, config.fallback_yield_bps as int)
                <= rewards_pool_balance
            &&& old(info).total_base_yield_earned + bps_share(
                stake_amount as int,
                config.fallback_yield_bps as int,
            ) <= u64::MAX
        }),
        r matches Ok(paid) ==> {
            &&& paid <= rewards_pool_balance
            &&& final(info).last_spin_timestamp == Some(now)
            &&& old(info).last_spin_timestamp matches Some(last) ==> last <= now
            &&& paid == bps_share(stake_amount as int, config.fallback_yield_bps as int)
            &&& *final(info) == fallback_claimed(*config, *old(info), stake_amount as int, now as int)
        },
        r is Err ==> *final(info) == *old(info),
{
    if let Some(last) = info.last_spin_timestamp {
        if (now as i128) - (last as i128) < config.cooldown_seconds as i128 {
            return Err(ErrorCode::AlreadySpunToday);
        }
    }
    if stake_amount == 0 {
        return Err(ErrorCode::NoStake);
    }
    proof {
        assert(stake_amount * config.fallback_yield_bps <= 0xFFFF_FFFF_FFFF_FFFF * 0xFFFF)
            by (nonlinear_arith);
    }
    let owed: u128 = (stake_amount as u128) * (config.fallback_yield_bps as u128) / 10000;
    if owed > rewards_pool_balance as u128 {
        return Err(ErrorCode::InsufficientFunds);
    }
    let paid = owed as u64;
    if paid > u64::MAX - info.total_base_yield_earned {
        return Err(ErrorCode::ArithmeticOverflow);
    }
    info.last_spin_timestamp = Some(now);
    info.total_base_yield_earned = info.total_base_yield_earned + paid;
    Ok(paid)
}

/// Price in base units of `value` units of a booster: 1000 tokens per lucky
/// spin, 500 per amplifier hour, 2000 per shield spin.
pub open spec fn booster_cost(booster_type: BoosterType, value: int) -> int {
    match booster_type {
        BoosterType::LuckyCharm => value * 1000 * 1_000_000_000,
        BoosterType::YieldAmplifier => value * 500 * 1_000_000_000,
        BoosterType::ChadShield => value * 2000 * 1_000_000_000,
    }
}

/// Price in base units of `value` units of a booster.
pub fn calculate_booster_cost(booster_type: BoosterType, value: u8) -> (r: u64)
    ensures
        r == booster_cost(booster_type, value as int),
{
    match booster_type {
        BoosterType::LuckyCharm => (value as u64) * 1000 * TOKEN_UNIT,
        BoosterType::YieldAmplifier => (value as u64) * 500 * TOKEN_UNIT,
        BoosterType::ChadShield => (value as u64) * 2000 * TOKEN_UNIT,
    }
}

/// Buys `spins` (1 to 5) lucky-charm charges. On success the caller moves
/// the returned price from the participant to the rewards pool.
pub fn activate_lucky_charm(info: &mut UserSpinInfo, spins: u8) -> (r: Result<u64, ErrorCode>)
    ensures
        !(1 <= spins <= 5) ==> r == Err::<u64, ErrorCode>(ErrorCode::InvalidBoosterValue),
        1 <= spins <= 5 && old(info).lucky_charm_spins_remaining + spins > u8::MAX ==> r == Err::<
            u64,
            ErrorCode,
        >(ErrorCode::ArithmeticOverflow),
        r is Ok <==> (1 <= spins <= 5 && old(info).lucky_charm_spins_remaining + spins <= u8::MAX),
        r matches Ok(cost) ==> {
            &&& cost == booster_cost(BoosterType::LuckyCharm, spins as int)
            &&& *final(info) == (UserSpinInfo {
                lucky_charm_spins_remaining: (old(info).lucky_charm_spins_remaining + spins) as u8,
                ..*old(info)
            })
        },
        r is Err ==> *final(info) == *old(info),
{
    if spins == 0 || spins > 5 {
        return Err(ErrorCode::InvalidBoosterValue);
    }
    if spins > u8::MAX - info.lucky_charm_spins_remaining {
        return Err(ErrorCode::ArithmeticOverflow);
    }
    let cost = calculate_booster_cost(BoosterType::LuckyCharm, spins);
    info.lucky_charm_spins_remaining = info.lucky_charm_spins_remaining + spins;
    Ok(cost)
}

/// End of the amplifier window after buying `hours` more at `now`: extended
/// from the current end while the window is open, else from `now`.
pub open spec fn amplifier_end_after(info: UserSpinInfo, hours: int, now: int) -> int {
    if now < info.yield_amplifier_end_time {
        info.yield_amplifier_end_time + hours * 3600
    } else {
        now + hours * 3600
    }
}

/// Buys `hours` (1 to 24) of yield amplifier at `now`. On success the caller
/// moves the returned price from the participant to the rewards pool.
pub fn activate_yield_amplifier(info: &mut UserSpinInfo, hours: u8, now: i64) -> (r: Result<
    u64,
    ErrorCode,
>)
    ensures
        !(1 <= hours <= 24) ==> r == Err::<u64, ErrorCode>(ErrorCode::InvalidBoosterValue),
        1 <= hours <= 24 && amplifier_end_after(*old(info), hours as int, now as int) > i64::MAX
            ==> r == Err::<u64, ErrorCode>(ErrorCode::ArithmeticOverflow),
        r is Ok <==> (1 <= hours <= 24 && amplifier_end_after(*old(info), hours as int, now as int)
            <= i64::MAX),
        r matches Ok(cost) ==> {
            &&& cost == booster_cost(BoosterType::YieldAmplifier, hours as int)
            &&& *final(info) == (UserSpinInfo {
                yield_amplifier_end_time: amplifier_end_after(
                    *old(info),
                    hours as int,
                    now as int,
                ) as i64,
                ..*old(info)
            })
        },
        r is Err ==> *final(info) == *old(info),
{
    if hours == 0 || hours > 24 {
        return Err(ErrorCode::InvalidBoosterValue);
    }
    let duration: i64 = (hours as i64) * SECONDS_PER_HOUR;
    let base = if now < info.yield_amplifier_end_time {
        info.yield_amplifier_end_time
    } else {
        now
    };
    if base > i64::MAX - duration {
        return Err(ErrorCode::ArithmeticOverflow);
    }
    let cost = calculate_booster_cost(BoosterType::YieldAmplifier, hours);
    info.yield_amplifier_end_time = base + duration;
    Ok(cost)
}

/// Buys `spins` (1 to 3) shield charges. On success the caller moves the
/// returned price from the participant to the rewards pool.
pub fn activate_chad_shield(info: &mut UserSpinInfo, spins: u8) -> (r: Result<u64, ErrorCode>)
    ensures
        !(1 <= spins <= 3) ==> r == Err::<u64, ErrorCode>(ErrorCode::InvalidBoosterValue),
        1 <= spins <= 3 && old(info).chad_shield_spins_remaining + spins > u8::MAX ==> r == Err::<
            u64,
            ErrorCode,
        >(ErrorCode::ArithmeticOverflow),
        r is Ok <==> (1 <= spins <= 3 && old(info).chad_shield_spins_remaining + spins <= u8::MAX),
        r matches Ok(cost) ==> {
            &&& cost == booster_cost(BoosterType::ChadShield, spins as int)
            &&& *final(info) == (UserSpinInfo {
                chad_shield_spins_remaining: (old(info).chad_shield_spins_remaining + spins) as u8,
                ..*old(info)
            })
        },
        r is Err ==> *final(info) == *old(info),
{
    if spins == 0 || spins > 3 {
        return Err(ErrorCode::InvalidBoosterValue);
    }
    if spins > u8::MAX - info.chad_shield_spins_remaining {
        return Err(ErrorCode::ArithmeticOverflow);
    }
    let cost = calculate_booster_cost(BoosterType::ChadShield, spins);
    info.chad_shield_spins_remaining = info.chad_shield_spins_remaining + spins;
    Ok(cost)
}

/// The spin parameters at setup, checked: ordered ranges, a probability of at
/// most 100 and a positive cooldown.
pub fn initialize_spin_system(
    authority: Address,
    base_yield_min_bps: u16,
    base_yield_max_bps: u16,
    moonshot_yield_min_bps: u16,
    moonshot_yield_max_bps: u16,
    moonshot_probability: u8,
    fallback_yield_bps: u16,
    cooldown_seconds: u32,
) -> (r: Result<SpinConfig, ErrorCode>)
    ensures
        (base_yield_min_bps > base_yield_max_bps || moonshot_yield_min_bps > moonshot_yield_max_bps)
            ==> r == Err::<SpinConfig, ErrorCode>(ErrorCode::InvalidYieldRange),
        base_yield_min_bps <= base_yield_max_bps && moonshot_yield_min_bps <= moonshot_yield_max_bps
            && moonshot_probability > 100 ==> r == Err::<SpinConfig, ErrorCode>(
            ErrorCode::InvalidProbability,
        ),
        base_yield_min_bps <= base_yield_max_bps && moonshot_yield_min_bps <= moonshot_yield_max_bps
            && moonshot_probability <= 100 && cooldown_seconds == 0 ==> r == Err::<
            SpinConfig,
            ErrorCode,
        >(ErrorCode::InvalidCooldown),
        r is Ok <==> (base_yield_min_bps <= base_yield_max_bps && moonshot_yield_min_bps
            <= moonshot_yield_max_bps && moonshot_probability <= 100 && cooldown_seconds > 0),
        r matches Ok(c) ==> c.wf() && c == (SpinConfig {
            authority,
            base_yield_min_bps,
            base_yield_max_bps,
            moonshot_yield_min_bps,
            moonshot_yield_max_bps,
            moonshot_probability,
            fallback_yield_bps,
            cooldown_seconds,
        }),
{
    if base_yield_min_bps > base_yield_max_bps || moonshot_yield_min_bps > moonshot_yield_max_bps {
        return Err(ErrorCode::InvalidYieldRange);
    }
    if moonshot_probability > 100 {
        return Err(ErrorCode::InvalidProbability);
    }
    if cooldown_seconds == 0 {
        return Err(ErrorCode::InvalidCooldown);
    }
    Ok(
        SpinConfig {
            authority,
            base_yield_min_bps,
            base_yield_max_bps,
            moonshot_yield_min_bps,
            moonshot_yield_max_bps,
            moonshot_probability,
            fallback_yield_bps,
            cooldown_seconds,
        },
    )
}

/// `value` if given, else `current`.
pub open spec fn or_current<T>(value: Option<T>, current: T) -> T {
    match value {
        Some(v) => v,
        None => current,
    }
}

/// `config` with each given parameter replaced.
pub open spec fn spin_config_updated(
    config: SpinConfig,
    base_yield_min_bps: Option<u16>,
    base_yield_max_bps: Option<u16>,
    moonshot_yield_min_bps: Option<u16>,
    moonshot_yield_max_bps: Option<u16>,
    moonshot_probability: Option<u8>,
    fallback_yield_bps: Option<u16>,
    cooldown_seconds: Option<u32>,
) -> SpinConfig {
    SpinConfig {
        authority: config.authority,
        base_yield_min_bps: or_current(base_yield_min_bps, config.base_yield_min_bps),
        base_yield_max_bps: or_current(base_yield_max_bps, config.base_yield_max_bps),
        moonshot_yield_min_bps: or_current(moonshot_yield_min_bps, config.moonshot_yield_min_bps),
        moonshot_yield_max_bps: or_current(moonshot_yield_max_bps, config.moonshot_yield_max_bps),
        moonshot_probability: or_current(moonshot_probability, config.moonshot_probability),
        fallback_yield_bps: or_current(fallback_yield_bps, config.fallback_yield_bps),
        cooldown_seconds: or_current(cooldown_seconds, config.cooldown_seconds),
    }
}

/// Replaces the given spin parameters. Only the authority may do so; the
/// result must still have a probability of at most 100, a positive cooldown
/// and ordered ranges, else nothing changes.
pub fn update_spin_config(
    config: &mut SpinConfig,
    caller: &Address,
    base_yield_min_bps: Option<u16>,
    base_yield_max_bps: Option<u16>,
    moonshot_yield_min_bps: Option<u16>,
    moonshot_yield_max_bps: Option<u16>,
    moonshot_probability: Option<u8>,
    fallback_yield_bps: Option<u16>,
    cooldown_seconds: Option<u32>,
) -> (r: Result<(), ErrorCode>)
    ensures
        ({
            let next = spin_config_updated(
                *old(config),
                base_yield_min_bps,
                base_yield_max_bps,
                moonshot_yield_min_bps,
                moonshot_yield_max_bps,
                moonshot_probability,
                fallback_yield_bps,
                cooldown_seconds,
            );
            let authorized = caller.bytes@ == old(config).authority.bytes@;
            &&& !authorized ==> r == Err::<(), ErrorCode>(ErrorCode::Unauthorized)
            &&& authorized && next.moonshot_probability > 100 ==> r == Err::<(), ErrorCode>(
                ErrorCode::InvalidProbability,
            )
            &&& authorized && next.moonshot_probability <= 100 && next.cooldown_seconds == 0
                ==> r == Err::<(), ErrorCode>(ErrorCode::InvalidCooldown)
            &&& r is Ok <==> authorized && next.wf()
            &&& r is Ok ==> *final(config) == next
            &&& r is Err ==> *final(config) == *old(config)
            &&& authorized && next.moonshot_probability <= 100 && next.cooldown_seconds > 0
                && !next.wf() ==> r == Err::<(), ErrorCode>(ErrorCode::InvalidYieldRange)
        }),
{
    if !caller.same_as(&config.authority) {
        return Err(ErrorCode::Unauthorized);
    }
    let next = SpinConfig {
        authority: config.authority,
        base_yield_min_bps: match base_yield_min_bps {
            Some(v) => v,
            None => config.base_yield_min_bps,
        },
        base_yield_max_bps: match base_yield_max_bps {
            Some(v) => v,
            None => config.base_yield_max_bps,
        },
        moonshot_yield_min_bps: match moonshot_yield_min_bps {
            Some(v) => v,
            None => config.moonshot_yield_min_bps,
        },
        moonshot_yield_max_bps: match moonshot_yield_max_bps {
            Some(v) => v,
            None => config.moonshot_yield_max_bps,
        },
        moonshot_probability: match moonshot_probability {
            Some(v) => v,
            None => config.moonshot_probability,
        },
        fallback_yield_bps: match fallback_yield_bps {
            Some(v) => v,
            None => config.fallback_yield_bps,
        },
        cooldown_seconds: match cooldown_seconds {
            Some(v) => v,
            None => config.cooldown_seconds,
        },
    };
    if next.moonshot_probability > 100 {
        return Err(ErrorCode::InvalidProbability);
    }
    if next.cooldown_seconds == 0 {
        return Err(ErrorCode::InvalidCooldown);
    }
    if next.base_yield_min_bps > next.base_yield_max_bps || next.moonshot_yield_min_bps
        > next.moonshot_yield_max_bps {
        return Err(ErrorCode::InvalidYieldRange);
    }
    *config = next;
    Ok(())
}

} // verus!
