use vstd::prelude::*;
use vstd::arithmetic::div_mod::{lemma_fundamental_div_mod, lemma_mod_pos_bound};

use crate::address::Address;
use crate::formula::{bps_amount, bps_share};

verus! {

/// Why a rewards-pool operation was refused. A refused call changes nothing.
#[derive(Clone, Copy, Debug, PartialEq, Eq, Structural)]
pub enum ErrorCode {
    /// The four allocations do not sum to 10000 basis points.
    InvalidAllocationPercentages,
    /// A distribution interval that is not positive.
    InvalidDistributionFrequency,
    /// The distribution interval has not run out.
    DistributionTooEarly,
    /// The pool vault is empty.
    NoRewardsToDistribute,
    /// The caller is not the configured authority.
    Unauthorized,
    /// A zero amount.
    InvalidAmount,
    /// The paying vault holds less than the amount.
    InsufficientFunds,
    /// A running total would leave the range of its integer type.
    ArithmeticOverflow,
}

/// Global allocator parameters.
#[derive(Clone, Copy, Debug)]
pub struct RewardsPoolConfig {
    pub authority: Address,
    pub total_rewards_distributed: u64,
    pub staking_allocation_bps: u16,
    pub spin_allocation_bps: u16,
    pub referral_allocation_bps: u16,
    pub emergency_reserve_bps: u16,
    pub last_distribution_timestamp: i64,
    pub distribution_frequency_seconds: i64,
}

/// What a sub-pool is for.
#[derive(Clone, Copy, Debug, PartialEq, Eq, Structural)]
pub enum SubPoolKind {
    Staking,
    Spin,
    Referral,
    Reserve,
}

/// One allocation target.
#[derive(Clone, Copy, Debug)]
pub struct SubPool {
    pub pool_type: SubPoolKind,
    pub allocation_bps: u16,
    pub total_received: u64,
    pub total_distributed: u64,
}

/// The four allocation targets.
#[derive(Clone, Copy, Debug)]
pub struct SubPools {
    pub staking: SubPool,
    pub spin: SubPool,
    pub referral: SubPool,
    pub reserve: SubPool,
}

/// The audit entry of one distribution.
#[derive(Clone, Copy, Debug, PartialEq, Eq, Structural)]
pub struct DistributionHistory {
    pub timestamp: i64,
    pub total_amount: u64,
    pub staking_amount: u64,
    pub spin_amount: u64,
    pub referral_amount: u64,
    pub reserve_amount: u64,
}

/// Four allocations that together make 100%.
pub open spec fn allocations_valid(staking: int, spin: int, referral: int, reserve: int) -> bool {
    staking + spin + referral + reserve == 10000
}

impl RewardsPoolConfig {
    /// The allocations make 100% and the interval is positive.
    pub open spec fn wf(&self) -> bool {
        &&& allocations_valid(
            self.staking_allocation_bps as int,
            self.spin_allocation_bps as int,
            self.referral_allocation_bps as int,
            self.emergency_reserve_bps as int,
        )
        &&& self.distribution_frequency_seconds > 0
    }
}

/// Each sub-pool has its kind and the allocation that `config` gives it.
pub open spec fn pools_agree(config: RewardsPoolConfig, pools: SubPools) -> bool {
    &&& pools.staking.pool_type == SubPoolKind::Staking
    &&& pools.spin.pool_type == SubPoolKind::Spin
    &&& pools.referral.pool_type == SubPoolKind::Referral
    &&& pools.reserve.pool_type == SubPoolKind::Reserve
    &&& pools.staking.allocation_bps == config.staking_allocation_bps
    &&& pools.spin.allocation_bps == config.spin_allocation_bps
    &&& pools.referral.allocation_bps == config.referral_allocation_bps
    &&& pools.reserve.allocation_bps == config.emergency_reserve_bps
}

/// A sub-pool with nothing received or paid out yet.
pub open spec fn fresh_pool(kind: SubPoolKind, allocation_bps: u16) -> SubPool {
    SubPool { pool_type: kind, allocation_bps, total_received: 0, total_distributed: 0 }
}

/// Share of `total_amount` that `allocation_bps` gives, truncated.
pub fn calculate_allocation_amount(total_amount: u64, allocation_bps: u16) -> (r: u64)
    requires
        allocation_bps <= 10000,
    ensures
        r == bps_share(total_amount as int, allocation_bps as int),
        r <= total_amount,
{
    bps_amount(total_amount, allocation_bps)
}

/// The allocator at setup: the four allocations must make 100% and the
/// interval must be positive. Nothing has been distributed yet.
pub fn initialize_rewards_pool(
    authority: Address,
    staking_allocation_bps: u16,
    spin_allocation_bps: u16,
    referral_allocation_bps: u16,
    emergency_reserve_bps: u16,
    distribution_frequency_seconds: i64,
) -> (r: Result<(RewardsPoolConfig, SubPools), ErrorCode>)
    ensures
        !allocations_valid(
            staking_allocation_bps as int,
            spin_allocation_bps as int,
            referral_allocation_bps as int,
            emergency_reserve_bps as int,
        ) ==> r == Err::<(RewardsPoolConfig, SubPools), ErrorCode>(
            ErrorCode::InvalidAllocationPercentages,
        ),
        allocations_valid(
            staking_allocation_bps as int,
            spin_allocation_bps as int,
            referral_allocation_bps as int,
            emergency_reserve_bps as int,
        ) && distribution_frequency_seconds <= 0 ==> r == Err::<
            (RewardsPoolConfig, SubPools),
            ErrorCode,
        >(ErrorCode::InvalidDistributionFrequency),
        r is Ok <==> allocations_valid(
            staking_allocation_bps as int,
            spin_allocation_bps as int,
            referral_allocation_bps as int,
            emergency_reserve_bps as int,
        ) && distribution_frequency_seconds > 0,
        r matches Ok((config, pools)) ==> {
            &&& config.wf()
            &&& pools_agree(config, pools)
            &&& config == (RewardsPoolConfig {
                authority,
                total_rewards_distributed: 0,
                staking_allocation_bps,
                spin_allocation_bps,
                referral_allocation_bps,
                emergency_reserve_bps,
                last_distribution_timestamp: 0,
                distribution_frequency_seconds,
            })
            &&& pools.staking == fresh_pool(SubPoolKind::Staking, staking_allocation_bps)
            &&& pools.spin == fresh_pool(SubPoolKind::Spin, spin_allocation_bps)
            &&& pools.referral == fresh_pool(SubPoolKind::Referral, referral_allocation_bps)
            &&& pools.reserve == fresh_pool(SubPoolKind::Reserve, emergency_reserve_bps)
        },
{
    let sum: u32 = staking_allocation_bps as u32 + spin_allocation_bps as u32
        + referral_allocation_bps as u32 + emergency_reserve_bps as u32;
    if sum != 10000 {
        return Err(ErrorCode::InvalidAllocationPercentages);
    }
    if distribution_frequency_seconds <= 0 {
        return Err(ErrorCode::InvalidDistributionFrequency);
    }
    let config = RewardsPoolConfig {
        authority,
        total_rewards_distributed: 0,
        staking_allocation_bps,
        spin_allocation_bps,
        referral_allocation_bps,
        emergency_reserve_bps,
        last_distribution_timestamp: 0,
        distribution_frequency_seconds,
    };
    let pools = SubPools {
        staking: SubPool {
            pool_type: SubPoolKind::Staking,
            allocation_bps: staking_allocation_bps,
            total_received: 0,
            total_distributed: 0,
        },
        spin: SubPool {
            pool_type: SubPoolKind::Spin,
            allocation_bps: spin_allocation_bps,
            total_received: 0,
            total_distributed: 0,
        },
        referral: SubPool {
            pool_type: SubPoolKind::Referral,
            allocation_bps: referral_allocation_bps,
            total_received: 0,
            total_distributed: 0,
        },
        reserve: SubPool {
            pool_type: SubPoolKind::Reserve,
            allocation_bps: emergency_reserve_bps,
            total_received: 0,
            total_distributed: 0,
        },
    };
    Ok((config, pools))
}

/// Whether a distribution may run at `now`.
pub open spec fn distribution_due(config: RewardsPoolConfig, now: int) -> bool {
    now >= config.last_distribution_timestamp + config.distribution_frequency_seconds
}

/// The audit entry of distributing `balance` at `now`.
pub open spec fn distribution_of(
    config: RewardsPoolConfig,
    balance: int,
    now: int,
) -> DistributionHistory {
    DistributionHistory {
        timestamp: now as i64,
        total_amount: balance as u64,
        staking_amount: bps_share(balance, config.staking_allocation_bps as int) as u64,
        spin_amount: bps_share(balance, config.spin_allocation_bps as int) as u64,
        referral_amount: bps_share(balance, config.referral_allocation_bps as int) as u64,
        reserve_amount: bps_share(balance, config.emergency_reserve_bps as int) as u64,
    }
}

/// `pool` after receiving `amount`.
pub open spec fn received(pool: SubPool, amount: int) -> SubPool {
    SubPool { total_received: (pool.total_received + amount) as u64, ..pool }
}

/// Whether distributing `balance` would overflow a running total.
pub open spec fn distribution_overflows(
    config: RewardsPoolConfig,
    pools: SubPools,
    balance: int,
) -> bool {
    ||| config.total_rewards_distributed + balance > u64::MAX
    ||| pools.staking.total_received + bps_share(balance, config.staking_allocation_bps as int)
        > u64::MAX
    ||| pools.spin.total_received + bps_share(balance, config.spin_allocation_bps as int)
        > u64::MAX
    ||| pools.referral.total_received + bps_share(balance, config.referral_allocation_bps as int)
        > u64::MAX
    ||| pools.reserve.total_received + bps_share(balance, config.emergency_reserve_bps as int)
        > u64::MAX
}

/// Fans the pool vault's balance `vault_balance` out to the four sub-pools
/// once the interval since the last distribution has run out. Each share is
/// the truncated allocation of the balance; what truncation leaves stays in
/// the vault. On success the caller moves each nonzero share of the returned
/// entry from the pool vault to its sub-pool vault.
pub fn distribute_rewards(
    config: &mut RewardsPoolConfig,
    pools: &mut SubPools,
    vault_balance: u64,
    now: i64,
) -> (r: Result<DistributionHistory, ErrorCode>)
    requires
        old(config).wf(),
    ensures
        !distribution_due(*old(config), now as int) ==> r == Err::<DistributionHistory, ErrorCode>(
            ErrorCode::DistributionTooEarly,
        ),
        distribution_due(*old(config), now as int) && vault_balance == 0 ==> r == Err::<
            DistributionHistory,
            ErrorCode,
        >(ErrorCode::NoRewardsToDistribute),
        distribution_due(*old(config), now as int) && vault_balance > 0 && distribution_overflows(
            *old(config),
            *old(pools),
            vault_balance as int,
        ) ==> r == Err::<DistributionHistory, ErrorCode>(ErrorCode::ArithmeticOverflow),
        r is Ok <==> (distribution_due(*old(config), now as int) && vault_balance > 0
            && !distribution_overflows(*old(config), *old(pools), vault_balance as int)),
        r is Ok ==> final(config).wf() && (pools_agree(*old(config), *old(pools)) ==> pools_agree(
            *final(config),
            *final(pools),
        )),
        r matches Ok(h) ==> {
            &&& h == distribution_of(*old(config), vault_balance as int, now as int)
            &&& h.staking_amount + h.spin_amount + h.referral_amount + h.reserve_amount
                <= vault_balance
            &&& final(pools).staking == received(old(pools).staking, h.staking_amount as int)
            &&& final(pools).spin == received(old(pools).spin, h.spin_amount as int)
            &&& final(pools).referral == received(old(pools).referral, h.referral_amount as int)
            &&& final(pools).reserve == received(old(pools).reserve, h.reserve_amount as int)
            &&& *final(config) == (RewardsPoolConfig {
                total_rewards_distributed: (old(config).total_rewards_distributed
                    + vault_balance) as u64,
                last_distribution_timestamp: now,
                ..*old(config)
            })
        },
        r is Err ==> *final(config) == *old(config) && *final(pools) == *old(pools),
{
    if (now as i128) < (config.last_distribution_timestamp as i128)
        + (config.distribution_frequency_seconds as i128) {
        return Err(ErrorCode::DistributionTooEarly);
    }
    if vault_balance == 0 {
        return Err(ErrorCode::NoRewardsToDistribute);
    }
    let staking_amount = calculate_allocation_amount(vault_balance, config.staking_allocation_bps);
    let spin_amount = calculate_allocation_amount(vault_balance, config.spin_allocation_bps);
    let referral_amount = calculate_allocation_amount(
        vault_balance,
        config.referral_allocation_bps,
    );
    let reserve_amount = calculate_allocation_amount(vault_balance, config.emergency_reserve_bps);
    if vault_balance > u64::MAX - config.total_rewards_distributed || staking_amount > u64::MAX
        - pools.staking.total_received || spin_amount > u64::MAX - pools.spin.total_received
        || referral_amount > u64::MAX - pools.referral.total_received || reserve_amount > u64::MAX
        - pools.reserve.total_received {
        return Err(ErrorCode::ArithmeticOverflow);
    }
    proof {
        lemma_distribution_remainder(
            vault_balance,
            config.staking_allocation_bps,
            config.spin_allocation_bps,
            config.referral_allocation_bps,
            config.emergency_reserve_bps,
        );
    }
    pools.staking.total_received = pools.staking.total_received + staking_amount;
    pools.spin.total_received = pools.spin.total_received + spin_amount;
    pools.referral.total_received = pools.referral.total_received + referral_amount;
    pools.reserve.total_received = pools.reserve.total_received + reserve_amount;
    config.total_rewards_distributed = config.total_rewards_distributed + vault_balance;
    config.last_distribution_timestamp = now;
    Ok(
        DistributionHistory {
            timestamp: now,
            total_amount: vault_balance,
            staking_amount,
            spin_amount,
            referral_amount,
            reserve_amount,
        },
    )
}

/// With allocations that make 100%, what the four truncated shares leave of
/// `balance`, times 10000, is the sum of the four truncation remainders. So
/// the shares never exceed the balance, and they leave something behind
/// exactly when some share is not exact.
pub proof fn lemma_distribution_remainder(balance: u64, staking: u16, spin: u16, referral: u16, reserve: u16)
    requires
        allocations_valid(staking as int, spin as int, referral as int, reserve as int),
    ensures
        (balance - (bps_share(balance as int, staking as int) + bps_share(balance as int, spin as int)
            + bps_share(balance as int, referral as int) + bps_share(balance as int, reserve as int)))
            * 10000 == (balance * staking) % 10000 + (balance * spin) % 10000 + (balance * referral)
            % 10000 + (balance * reserve) % 10000,
        bps_share(balance as int, staking as int) + bps_share(balance as int, spin as int)
            + bps_share(balance as int, referral as int) + bps_share(balance as int, reserve as int)
            <= balance,
        (bps_share(balance as int, staking as int) + bps_share(balance as int, spin as int)
            + bps_share(balance as int, referral as int) + bps_share(balance as int, reserve as int)
            < balance) <==> ((balance * staking) % 10000 != 0 || (balance * spin) % 10000 != 0 || (
        balance * referral) % 10000 != 0 || (balance * reserve) % 10000 != 0),
{
    lemma_fundamental_div_mod(balance * staking, 10000);
    lemma_fundamental_div_mod(balance * spin, 10000);
    lemma_fundamental_div_mod(balance * referral, 10000);
    lemma_fundamental_div_mod(balance * reserve, 10000);
    lemma_mod_pos_bound(balance * staking, 10000);
    lemma_mod_pos_bound(balance * spin, 10000);
    lemma_mod_pos_bound(balance * referral, 10000);
    lemma_mod_pos_bound(balance * reserve, 10000);
    assert(balance * staking + balance * spin + balance * referral + balance * reserve == balance
        * 10000) by (nonlinear_arith)
        requires
            staking + spin + referral + reserve == 10000,
    ;
}

/// Sets the four allocations, which must make 100%, in the configuration and
/// in the sub-pools together. Only the authority may do so; a refused call
/// changes nothing.
pub fn update_allocation_percentages(
    config: &mut RewardsPoolConfig,
    pools: &mut SubPools,
    caller: &Address,
    staking_allocation_bps: u16,
    spin_allocation_bps: u16,
    referral_allocation_bps: u16,
    emergency_reserve_bps: u16,
) -> (r: Result<(), ErrorCode>)
    ensures
        caller.bytes@ != old(config).authority.bytes@ ==> r == Err::<(), ErrorCode>(
            ErrorCode::Unauthorized,
        ),
        caller.bytes@ == old(config).authority.bytes@ && !allocations_valid(
            staking_allocation_bps as int,
            spin_allocation_bps as int,
            referral_allocation_bps as int,
            emergency_reserve_bps as int,
        ) ==> r == Err::<(), ErrorCode>(ErrorCode::InvalidAllocationPercentages),
        r is Ok <==> (caller.bytes@ == old(config).authority.bytes@ && allocations_valid(
            staking_allocation_bps as int,
            spin_allocation_bps as int,
            referral_allocation_bps as int,
            emergency_reserve_bps as int,
        )),
        r is Ok && pools_agree(*old(config), *old(pools)) ==> pools_agree(
            *final(config),
            *final(pools),
        ),
        r is Ok && old(config).distribution_frequency_seconds > 0 ==> final(config).wf(),
        r is Ok ==> {
            &&& *final(config) == (RewardsPoolConfig {
                staking_allocation_bps,
                spin_allocation_bps,
                referral_allocation_bps,
                emergency_reserve_bps,
                ..*old(config)
            })
            &&& final(pools).staking == (SubPool {
                allocation_bps: staking_allocation_bps,
                ..old(pools).staking
            })
            &&& final(pools).spin == (SubPool { allocation_bps: spin_allocation_bps, ..old(pools).spin })
            &&& final(pools).referral == (SubPool {
                allocation_bps: referral_allocation_bps,
                ..old(pools).referral
            })
            &&& final(pools).reserve == (SubPool {
                allocation_bps: emergency_reserve_bps,
                ..old(pools).reserve
            })
        },
        r is Err ==> *final(config) == *old(config) && *final(pools) == *old(pools),
{
    if !caller.same_as(&config.authority) {
        return Err(ErrorCode::Unauthorized);
    }
    let sum: u32 = staking_allocation_bps as u32 + spin_allocation_bps as u32
        + referral_allocation_bps as u32 + emergency_reserve_bps as u32;
    if sum != 10000 {
        return Err(ErrorCode::InvalidAllocationPercentages);
    }
    config.staking_allocation_bps = staking_allocation_bps;
    config.spin_allocation_bps = spin_allocation_bps;
    config.referral_allocation_bps = referral_allocation_bps;
    config.emergency_reserve_bps = emergency_reserve_bps;
    pools.staking.allocation_bps = staking_allocation_bps;
    pools.spin.allocation_bps = spin_allocation_bps;
    pools.referral.allocation_bps = referral_allocation_bps;
    pools.reserve.allocation_bps = emergency_reserve_bps;
    Ok(())
}

/// The reserve's running total after recording `amount` more paid out; as
/// a statistic it stops at `u64::MAX` rather than blocking a withdrawal.
pub open spec fn distributed_after(total: int, amount: int) -> u64 {
    if total + amount > u64::MAX {
        u64::MAX
    } else {
        (total + amount) as u64
    }
}

/// Draws `amount` out of the reserve sub-vault (and no other), whose balance is
/// `reserve_balance`. Only the authority may do so; the amount must be
/// positive and covered by the balance, and then the call always succeeds.
/// On success the caller moves exactly the returned amount, which is
/// `amount`, from the reserve vault to the destination.
pub fn emergency_withdraw(
    config: &RewardsPoolConfig,
    reserve: &mut SubPool,
    caller: &Address,
    amount: u64,
    reserve_balance: u64,
) -> (r: Result<u64, ErrorCode>)
    requires
        old(reserve).pool_type == SubPoolKind::Reserve,
    ensures
        caller.bytes@ != config.authority.bytes@ ==> r == Err::<u64, ErrorCode>(
            ErrorCode::Unauthorized,
        ),
        caller.bytes@ == config.authority.bytes@ && amount == 0 ==> r == Err::<u64, ErrorCode>(
            ErrorCode::InvalidAmount,
        ),
        caller.bytes@ == config.authority.bytes@ && amount > reserve_balance ==> r == Err::<
            u64,
            ErrorCode,
        >(ErrorCode::InsufficientFunds),
        r is Ok <==> (caller.bytes@ == config.authority.bytes@ && 0 < amount <= reserve_balance),
        r matches Ok(moved) ==> {
            &&& moved == amount
            &&& moved <= reserve_balance
            &&& *final(reserve) == (SubPool {
                total_distributed: distributed_after(
                    old(reserve).total_distributed as int,
                    amount as int,
                ),
                ..*old(reserve)
            })
        },
        r is Err ==> *final(reserve) == *old(reserve),
{
    if !caller.same_as(&config.authority) {
        return Err(ErrorCode::Unauthorized);
    }
    if amount == 0 {
        return Err(ErrorCode::InvalidAmount);
    }
    if amount > reserve_balance {
        return Err(ErrorCode::InsufficientFunds);
    }
    reserve.total_distributed = if amount > u64::MAX - reserve.total_distributed {
        u64::MAX
    } else {
        reserve.total_distributed + amount
    };
    Ok(amount)
}

} // verus!
