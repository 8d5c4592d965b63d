use vstd::prelude::*;

use crate::address::{is_unset, Address};
use crate::formula::{bps_amount, bps_share, calculate_rewards, elapsed_seconds, reward_of};

verus! {

/// Why a staking operation was refused. A refused call changes nothing.
#[derive(Clone, Copy, Debug, PartialEq, Eq, Structural)]
pub enum ErrorCode {
    /// A zero amount.
    InvalidAmount,
    /// More than the participant has staked.
    InsufficientStake,
    /// Nothing has accrued since the last claim.
    NoRewardsToClaim,
    /// The caller is not the configured authority.
    Unauthorized,
    /// A rate above its cap.
    InvalidParameter,
    /// The paying vault holds less than the payout.
    InsufficientFunds,
    /// A running total would leave the range of `u64`.
    ArithmeticOverflow,
}

/// Global staking parameters.
#[derive(Clone, Copy, Debug)]
pub struct StakingConfig {
    pub authority: Address,
    pub total_staked: u64,
    /// Rate applied when a stake is withdrawn.
    pub base_apr_bps: u16,
    /// Rate applied on deposits and claims.
    pub daily_yield_bps: u16,
    /// Penalty, in basis points, of each of the four tiers.
    pub early_unstake_penalty_tiers: [u16; 4],
    /// Hours staked that end each tier.
    pub penalty_threshold_hours: [u16; 4],
}

/// One participant's locked balance.
#[derive(Clone, Copy, Debug)]
pub struct StakeAccount {
    pub owner: Address,
    pub stake_amount: u64,
    pub stake_timestamp: i64,
    pub last_claim_timestamp: i64,
    pub cumulative_rewards: u64,
}

/// The two transfers out of the stake vault that a withdrawal asks for.
#[derive(Clone, Copy, Debug, PartialEq, Eq, Structural)]
pub struct UnstakeOutcome {
    /// Paid back to the participant.
    pub returned_amount: u64,
    /// Forfeited to the rewards pool.
    pub penalty_amount: u64,
    /// The penalty tier that applied.
    pub penalty_tier: u8,
}

impl StakingConfig {
    /// Every penalty is at most 100%.
    pub open spec fn wf(&self) -> bool {
        forall|i: int| 0 <= i < 4 ==> #[trigger] self.early_unstake_penalty_tiers@[i] <= 10000
    }
}

/// Whole hours from `start` to `now`.
pub open spec fn stake_hours(start: int, now: int) -> int {
    elapsed_seconds(start, now) / 3600
}

/// The tier that `hours` staked fall in: the first threshold that it is
/// below, or the last tier past the third threshold.
pub open spec fn penalty_tier_of(hours: int, thresholds: Seq<u16>) -> int {
    if hours < thresholds[0] {
        0
    } else if hours < thresholds[1] {
        1
    } else if hours < thresholds[2] {
        2
    } else {
        3
    }
}

/// Penalty rate for withdrawing from `account` at `now`.
pub open spec fn penalty_bps_at(config: StakingConfig, account: StakeAccount, now: int) -> int {
    config.early_unstake_penalty_tiers@[penalty_tier_of(
        stake_hours(account.stake_timestamp as int, now),
        config.penalty_threshold_hours@,
    )] as int
}

/// The account after a deposit of `amount` at `now` by `user`.
pub open spec fn deposited(
    account: StakeAccount,
    user: Address,
    daily_yield_bps: int,
    amount: int,
    now: int,
) -> StakeAccount {
    if is_unset(account.owner) {
        StakeAccount {
            owner: user,
            stake_amount: amount as u64,
            stake_timestamp: now as i64,
            last_claim_timestamp: now as i64,
            cumulative_rewards: 0,
        }
    } else {
        StakeAccount {
            owner: account.owner,
            stake_amount: (account.stake_amount + amount) as u64,
            stake_timestamp: if account.stake_amount == 0 {
                now as i64
            } else {
                account.stake_timestamp
            },
            last_claim_timestamp: now as i64,
            cumulative_rewards: (account.cumulative_rewards + reward_of(
                account.stake_amount as int,
                account.last_claim_timestamp as int,
                now,
                daily_yield_bps,
            )) as u64,
        }
    }
}

/// Whether a deposit would take a balance or a running total past `u64`.
pub open spec fn deposit_overflows(
    config: StakingConfig,
    account: StakeAccount,
    amount: int,
    now: int,
) -> bool {
    ||| config.total_staked + amount > u64::MAX
    ||| !is_unset(account.owner) && account.stake_amount + amount > u64::MAX
    ||| !is_unset(account.owner) && account.cumulative_rewards + reward_of(
        account.stake_amount as int,
        account.last_claim_timestamp as int,
        now,
        config.daily_yield_bps as int,
    ) > u64::MAX
}

/// The account after withdrawing `amount` at `now`: the base rate accrues
/// into the running total and an emptied stake loses its start time.
pub open spec fn withdrawn(
    account: StakeAccount,
    base_apr_bps: int,
    amount: int,
    now: int,
) -> StakeAccount {
    StakeAccount {
        owner: account.owner,
        stake_amount: (account.stake_amount - amount) as u64,
        stake_timestamp: if account.stake_amount - amount == 0 {
            0
        } else {
            account.stake_timestamp
        },
        last_claim_timestamp: now as i64,
        cumulative_rewards: (account.cumulative_rewards + reward_of(
            account.stake_amount as int,
            account.last_claim_timestamp as int,
            now,
            base_apr_bps,
        )) as u64,
    }
}

/// Yield claimable from `account` at `now` at the daily rate.
pub open spec fn claimable(config: StakingConfig, account: StakeAccount, now: int) -> int {
    reward_of(
        account.stake_amount as int,
        account.last_claim_timestamp as int,
        now,
        config.daily_yield_bps as int,
    )
}

/// `config` with another total.
pub open spec fn with_total(config: StakingConfig, total: int) -> StakingConfig {
    StakingConfig { total_staked: total as u64, ..config }
}

/// The staking parameters at setup: nothing staked, a base rate of
/// `base_apr_bps` (50 when zero is given), a daily rate of 50, and the
/// default penalty schedule of 50%, 35%, 15% and 0% ending at 168, 336, 720
/// and 744 hours.
pub fn initialize_staking(authority: Address, base_apr_bps: u16) -> (r: StakingConfig)
    ensures
        r.wf(),
        r.authority == authority,
        r.total_staked == 0,
        r.base_apr_bps == (if base_apr_bps == 0 {
            50
        } else {
            base_apr_bps
        }),
        r.daily_yield_bps == 50,
        r.early_unstake_penalty_tiers@ == seq![5000u16, 3500, 1500, 0],
        r.penalty_threshold_hours@ == seq![168u16, 336, 720, 744],
{
    let r = StakingConfig {
        authority,
        total_staked: 0,
        base_apr_bps: if base_apr_bps == 0 {
            50
        } else {
            base_apr_bps
        },
        daily_yield_bps: 50,
        early_unstake_penalty_tiers: [5000, 3500, 1500, 0],
        penalty_threshold_hours: [168, 336, 720, 744],
    };
    assert(r.early_unstake_penalty_tiers@ =~= seq![5000u16, 3500, 1500, 0]);
    assert(r.penalty_threshold_hours@ =~= seq![168u16, 336, 720, 744]);
    r
}

/// Whole hours staked from `stake_timestamp` to `now` (zero if `now` is not later).
pub fn stake_duration_hours(stake_timestamp: i64, now: i64) -> (r: u64)
    ensures
        r == stake_hours(stake_timestamp as int, now as int),
{
    if now > stake_timestamp {
        ((now as i128 - stake_timestamp as i128) / 3600) as u64
    } else {
        0
    }
}

/// The penalty tier of a stake held `stake_duration_hours` hours.
pub fn get_penalty_tier(stake_duration_hours: u64, threshold_hours: &[u16; 4]) -> (r: u8)
    ensures
        r == penalty_tier_of(stake_duration_hours as int, threshold_hours@),
        r < 4,
{
    if stake_duration_hours < threshold_hours[0] as u64 {
        0
    } else if stake_duration_hours < threshold_hours[1] as u64 {
        1
    } else if stake_duration_hours < threshold_hours[2] as u64 {
        2
    } else {
        3
    }
}

/// Deposits `amount` from `user` at `now`. A fresh record (unset owner)
/// starts its clocks at `now`; an existing one first accrues the daily rate
/// since its last claim, and restarts its penalty clock if it was empty.
/// On success the caller moves `amount` from the participant to the stake
/// vault.
pub fn stake(
    config: &mut StakingConfig,
    account: &mut StakeAccount,
    user: Address,
    amount: u64,
    now: i64,
) -> (r: Result<(), ErrorCode>)
    ensures
        amount == 0 ==> r == Err::<(), ErrorCode>(ErrorCode::InvalidAmount),
        amount > 0 && deposit_overflows(*old(config), *old(account), amount as int, now as int)
            ==> r == Err::<(), ErrorCode>(ErrorCode::ArithmeticOverflow),
        amount > 0 && !deposit_overflows(*old(config), *old(account), amount as int, now as int)
            ==> r is Ok,
        r is Ok ==> *final(account) == deposited(
            *old(account),
            user,
            old(config).daily_yield_bps as int,
            amount as int,
            now as int,
        ) && *final(config) == with_total(*old(config), old(config).total_staked + amount),
        r is Err ==> *final(account) == *old(account) && *final(config) == *old(config),
{
    if amount == 0 {
        return Err(ErrorCode::InvalidAmount);
    }
    if amount > u64::MAX - config.total_staked {
        return Err(ErrorCode::ArithmeticOverflow);
    }
    let updated = if account.owner.is_unset() {
        StakeAccount {
            owner: user,
            stake_amount: amount,
            stake_timestamp: now,
            last_claim_timestamp: now,
            cumulative_rewards: 0,
        }
    } else {
        if amount > u64::MAX - account.stake_amount {
            return Err(ErrorCode::ArithmeticOverflow);
        }
        let pending = calculate_rewards(
            account.stake_amount,
            account.last_claim_timestamp,
            now,
            config.daily_yield_bps,
        );
        if pending > (u64::MAX - account.cumulative_rewards) as u128 {
            return Err(ErrorCode::ArithmeticOverflow);
        }
        StakeAccount {
            owner: account.owner,
            stake_amount: account.stake_amount + amount,
            stake_timestamp: if account.stake_amount == 0 {
                now
            } else {
                account.stake_timestamp
            },
            last_claim_timestamp: now,
            cumulative_rewards: account.cumulative_rewards + pending as u64,
        }
    };
    *account = updated;
    config.total_staked = config.total_staked + amount;
    Ok(())
}

/// Withdraws `amount` at `now`. The base rate accrues into the running total,
/// the penalty of the tier that the time staked falls in is forfeited to the
/// rewards pool, and the rest goes back to the participant.
pub fn unstake(
    config: &mut StakingConfig,
    account: &mut StakeAccount,
    amount: u64,
    now: i64,
) -> (r: Result<UnstakeOutcome, ErrorCode>)
    requires
        old(config).wf(),
    ensures
        amount == 0 ==> r == Err::<UnstakeOutcome, ErrorCode>(ErrorCode::InvalidAmount),
        amount > 0 && amount > old(account).stake_amount ==> r == Err::<
            UnstakeOutcome,
            ErrorCode,
        >(ErrorCode::InsufficientStake),
        0 < amount <= old(account).stake_amount && (amount > old(config).total_staked
            || old(account).cumulative_rewards + reward_of(
            old(account).stake_amount as int,
            old(account).last_claim_timestamp as int,
            now as int,
            old(config).base_apr_bps as int,
        ) > u64::MAX) ==> r == Err::<UnstakeOutcome, ErrorCode>(ErrorCode::ArithmeticOverflow),
        r is Ok <==> (0 < amount <= old(account).stake_amount && amount <= old(config).total_staked
            && old(account).cumulative_rewards + reward_of(
            old(account).stake_amount as int,
            old(account).last_claim_timestamp as int,
            now as int,
            old(config).base_apr_bps as int,
        ) <= u64::MAX),
        r matches Ok(o) ==> {
            &&& o.penalty_tier == penalty_tier_of(
                stake_hours(old(account).stake_timestamp as int, now as int),
                old(config).penalty_threshold_hours@,
            )
            &&& o.penalty_amount == bps_share(
                amount as int,
                penalty_bps_at(*old(config), *old(account), now as int),
            )
            &&& o.returned_amount == amount - o.penalty_amount
            &&& o.penalty_amount <= amount
            &&& *final(account) == withdrawn(
                *old(account),
                old(config).base_apr_bps as int,
                amount as int,
                now as int,
            )
            &&& *final(config) == with_total(*old(config), old(config).total_staked - amount)
        },
        r is Err ==> *final(account) == *old(account) && *final(config) == *old(config),
{
    if amount == 0 {
        return Err(ErrorCode::InvalidAmount);
    }
    if amount > account.stake_amount {
        return Err(ErrorCode::InsufficientStake);
    }
    if amount > config.total_staked {
        return Err(ErrorCode::ArithmeticOverflow);
    }
    let pending = calculate_rewards(
        account.stake_amount,
        account.last_claim_timestamp,
        now,
        config.base_apr_bps,
    );
    if pending > (u64::MAX - account.cumulative_rewards) as u128 {
        return Err(ErrorCode::ArithmeticOverflow);
    }
    let hours = stake_duration_hours(account.stake_timestamp, now);
    let tier = get_penalty_tier(hours, &config.penalty_threshold_hours);
    let penalty_bps = config.early_unstake_penalty_tiers[tier as usize];
    let penalty_amount = bps_amount(amount, penalty_bps);
    let remaining = account.stake_amount - amount;
    account.stake_amount = remaining;
    account.last_claim_timestamp = now;
    account.cumulative_rewards = account.cumulative_rewards + pending as u64;
    if remaining == 0 {
        account.stake_timestamp = 0;
    }
    config.total_staked = config.total_staked - amount;
    Ok(UnstakeOutcome { returned_amount: amount - penalty_amount, penalty_amount, penalty_tier: tier })
}

/// Claims the yield accrued at the daily rate since the last claim, paid
/// from the rewards pool, whose balance is `rewards_pool_balance`. On success
/// the caller moves the returned amount from the pool to the participant.
pub fn claim_rewards(
    config: &StakingConfig,
    account: &mut StakeAccount,
    now: i64,
    rewards_pool_balance: u64,
) -> (r: Result<u64, ErrorCode>)
    ensures
        claimable(*config, *old(account), now as int) == 0 ==> r == Err::<u64, ErrorCode>(
            ErrorCode::NoRewardsToClaim,
        ),
        0 < claimable(*config, *old(account), now as int) && claimable(
            *config,
            *old(account),
            now as int,
        ) > rewards_pool_balance ==> r == Err::<u64, ErrorCode>(ErrorCode::InsufficientFunds),
        0 < claimable(*config, *old(account), now as int) <= rewards_pool_balance
            && old(account).cumulative_rewards + claimable(*config, *old(account), now as int)
            > u64::MAX ==> r == Err::<u64, ErrorCode>(ErrorCode::ArithmeticOverflow),
        r is Ok <==> (0 < claimable(*config, *old(account), now as int) <= rewards_pool_balance
            && old(account).cumulative_rewards + claimable(*config, *old(account), now as int)
            <= u64::MAX),
        r matches Ok(paid) ==> {
            &&& 0 < paid <= rewards_pool_balance
            &&& paid == claimable(*config, *old(account), now as int)
            &&& *final(account) == (StakeAccount {
                last_claim_timestamp: now,
                cumulative_rewards: (old(account).cumulative_rewards + paid) as u64,
                ..*old(account)
            })
        },
        r is Err ==> *final(account) == *old(account),
{
    let pending = calculate_rewards(
        account.stake_amount,
        account.last_claim_timestamp,
        now,
        config.daily_yield_bps,
    );
    if pending == 0 {
        return Err(ErrorCode::NoRewardsToClaim);
    }
    if pending > rewards_pool_balance as u128 {
        return Err(ErrorCode::InsufficientFunds);
    }
    let paid = pending as u64;
    if paid > u64::MAX - account.cumulative_rewards {
        return Err(ErrorCode::ArithmeticOverflow);
    }
    account.last_claim_timestamp = now;
    account.cumulative_rewards = account.cumulative_rewards + paid;
    Ok(paid)
}

/// Sets the base rate (at most 10000) and, when given, the daily rate (at
/// most 1000). Only the authority may do so; a refused call changes nothing.
pub fn update_apr(
    config: &mut StakingConfig,
    caller: &Address,
    new_base_apr_bps: u16,
    new_daily_yield_bps: Option<u16>,
) -> (r: Result<(), ErrorCode>)
    ensures
        caller.bytes@ != old(config).authority.bytes@ ==> r == Err::<(), ErrorCode>(
            ErrorCode::Unauthorized,
        ),
        caller.bytes@ == old(config).authority.bytes@ && (new_base_apr_bps > 10000 || (
        new_daily_yield_bps matches Some(d) && d > 1000)) ==> r == Err::<(), ErrorCode>(
            ErrorCode::InvalidParameter,
        ),
        r is Ok <==> (caller.bytes@ == old(config).authority.bytes@ && new_base_apr_bps <= 10000
            && !(new_daily_yield_bps matches Some(d) && d > 1000)),
        r is Ok ==> *final(config) == (StakingConfig {
            base_apr_bps: new_base_apr_bps,
            daily_yield_bps: match new_daily_yield_bps {
                Some(d) => d,
                None => old(config).daily_yield_bps,
            },
            ..*old(config)
        }),
        r is Err ==> *final(config) == *old(config),
{
    if !caller.same_as(&config.authority) {
        return Err(ErrorCode::Unauthorized);
    }
    if new_base_apr_bps > 10000 {
        return Err(ErrorCode::InvalidParameter);
    }
    match new_daily_yield_bps {
        Some(daily) => {
            if daily > 1000 {
                return Err(ErrorCode::InvalidParameter);
            }
            config.base_apr_bps = new_base_apr_bps;
            config.daily_yield_bps = daily;
        },
        None => {
            config.base_apr_bps = new_base_apr_bps;
        },
    }
    Ok(())
}

/// Withdrawing the whole stake clears its start time, and the next deposit
/// starts the penalty clock afresh at its own time.
pub proof fn lemma_full_withdrawal_restarts_clock(
    account: StakeAccount,
    base_apr_bps: u16,
    daily_yield_bps: u16,
    user: Address,
    amount: u64,
    withdrawn_at: i64,
    deposited_at: i64,
    later: i64,
)
    requires
        amount > 0,
    ensures
        withdrawn(
            account,
            base_apr_bps as int,
            account.stake_amount as int,
            withdrawn_at as int,
        ).stake_timestamp == 0,
        ({
            let emptied = withdrawn(
                account,
                base_apr_bps as int,
                account.stake_amount as int,
                withdrawn_at as int,
            );
            let refilled = deposited(
                emptied,
                user,
                daily_yield_bps as int,
                amount as int,
                deposited_at as int,
            );
            &&& refilled.stake_timestamp == deposited_at
            &&& stake_hours(refilled.stake_timestamp as int, later as int) == stake_hours(
                deposited_at as int,
                later as int,
            )
        }),
{
}

/// Sum of the staked amounts of `accounts`.
pub open spec fn staked_sum(accounts: Seq<StakeAccount>) -> int
    decreases accounts.len(),
{
    if accounts.len() == 0 {
        0
    } else {
        staked_sum(accounts.drop_last()) + accounts.last().stake_amount
    }
}

proof fn lemma_staked_sum_push(accounts: Seq<StakeAccount>, account: StakeAccount)
    ensures
        staked_sum(accounts.push(account)) == staked_sum(accounts) + account.stake_amount,
{
    assert(accounts.push(account).drop_last() =~= accounts);
}

proof fn lemma_staked_sum_update(accounts: Seq<StakeAccount>, i: int, account: StakeAccount)
    requires
        0 <= i < accounts.len(),
    ensures
        staked_sum(accounts.update(i, account)) == staked_sum(accounts)
            - accounts[i].stake_amount + account.stake_amount,
    decreases accounts.len(),
{
    if i == accounts.len() - 1 {
        assert(accounts.update(i, account).drop_last() =~= accounts.drop_last());
    } else {
        lemma_staked_sum_update(accounts.drop_last(), i, account);
        assert(accounts.update(i, account).drop_last() =~= accounts.drop_last().update(
            i,
            account,
        ));
    }
}

proof fn lemma_staked_sum_bounds(accounts: Seq<StakeAccount>, i: int)
    requires
        0 <= i < accounts.len(),
    ensures
        staked_sum(accounts) >= accounts[i].stake_amount,
    decreases accounts.len(),
{
    lemma_staked_sum_nonnegative(accounts.drop_last());
    if i < accounts.len() - 1 {
        lemma_staked_sum_bounds(accounts.drop_last(), i);
    }
}

proof fn lemma_staked_sum_nonnegative(accounts: Seq<StakeAccount>)
    ensures
        staked_sum(accounts) >= 0,
    decreases accounts.len(),
{
    if accounts.len() > 0 {
        lemma_staked_sum_nonnegative(accounts.drop_last());
    }
}

/// The staking parameters together with every participant's record.
pub struct StakingLedger {
    pub config: StakingConfig,
    pub accounts: Vec<StakeAccount>,
}

impl StakingLedger {
    /// The total staked is the sum of the records, each record has an owner,
    /// and no owner has two records.
    pub open spec fn wf(&self) -> bool {
        &&& self.config.wf()
        &&& self.config.total_staked == staked_sum(self.accounts@)
        &&& forall|i: int|
            0 <= i < self.accounts@.len() ==> !is_unset(#[trigger] self.accounts@[i].owner)
        &&& forall|i: int, j: int|
            0 <= i < j < self.accounts@.len() ==> #[trigger] self.accounts@[i].owner.bytes@
                != #[trigger] self.accounts@[j].owner.bytes@
    }

    /// Index of the record owned by `user`, if any.
    pub open spec fn index_of(&self, user: Address) -> Option<int> {
        if exists|i: int|
            0 <= i < self.accounts@.len() && #[trigger] self.accounts@[i].owner.bytes@
                == user.bytes@ {
            Some(
                choose|i: int|
                    0 <= i < self.accounts@.len() && #[trigger] self.accounts@[i].owner.bytes@
                        == user.bytes@,
            )
        } else {
            None
        }
    }

    proof fn lemma_found_is_index(&self, user: Address, i: int)
        requires
            self.wf(),
            0 <= i < self.accounts@.len(),
            self.accounts@[i].owner.bytes@ == user.bytes@,
        ensures
            self.index_of(user) == Some(i),
    {
        let k = self.index_of(user)->0;
        if k != i {
            if k < i {
                assert(self.accounts@[k].owner.bytes@ != self.accounts@[i].owner.bytes@);
            } else {
                assert(self.accounts@[i].owner.bytes@ != self.accounts@[k].owner.bytes@);
            }
        }
    }

    /// An empty ledger under `config`.
    pub fn new(config: StakingConfig) -> (r: StakingLedger)
        requires
            config.wf(),
        ensures
            r.wf(),
            r.accounts@.len() == 0,
            r.config == with_total(config, 0),
    {
        let mut config = config;
        config.total_staked = 0;
        StakingLedger { config, accounts: Vec::new() }
    }

    /// Finds the record owned by `user`.
    pub fn find(&self, user: &Address) -> (r: Option<usize>)
        ensures
            r matches Some(i) ==> i < self.accounts@.len() && self.accounts@[i as int].owner.bytes@
                == user.bytes@,
            r is None ==> forall|i: int|
                0 <= i < self.accounts@.len() ==> #[trigger] self.accounts@[i].owner.bytes@
                    != user.bytes@,
    {
        let mut i: usize = 0;
        while i < self.accounts.len()
            invariant
                i <= self.accounts@.len(),
                forall|j: int| 0 <= j < i ==> #[trigger] self.accounts@[j].owner.bytes@ != user.bytes@,
            decreases self.accounts@.len() - i,
        {
            if self.accounts[i].owner.same_as(user) {
                return Some(i);
            }
            i += 1;
        }
        None
    }

    /// The amount that `user` has staked (zero without a record): the stake
    /// that a spin is measured against.
    pub fn stake_of(&self, user: &Address) -> (r: u64)
        requires
            self.wf(),
        ensures
            r == match self.index_of(*user) {
                Some(i) => self.accounts@[i].stake_amount,
                None => 0u64,
            },
    {
        match self.find(user) {
            Some(i) => {
                proof {
                    self.lemma_found_is_index(*user, i as int);
                }
                self.accounts[i].stake_amount
            },
            None => 0,
        }
    }

    /// Deposits `amount` from `user` at `now` into that participant's record,
    /// creating it on the first deposit. The total staked stays the sum of
    /// the records.
    pub fn deposit(&mut self, user: Address, amount: u64, now: i64) -> (r: Result<(), ErrorCode>)
        requires
            old(self).wf(),
        ensures
            final(self).wf(),
            final(self).config.total_staked == staked_sum(final(self).accounts@),
            is_unset(user) ==> r == Err::<(), ErrorCode>(ErrorCode::Unauthorized),
            !is_unset(user) && amount == 0 ==> r == Err::<(), ErrorCode>(ErrorCode::InvalidAmount),
            r is Ok <==> (!is_unset(user) && amount > 0 && match old(self).index_of(user) {
                Some(i) => !deposit_overflows(
                    old(self).config,
                    old(self).accounts@[i],
                    amount as int,
                    now as int,
                ),
                None => old(self).config.total_staked + amount <= u64::MAX,
            }),
            !is_unset(user) && amount > 0 && r is Err ==> r == Err::<(), ErrorCode>(
                ErrorCode::ArithmeticOverflow,
            ),
            r is Ok ==> final(self).config == with_total(
                old(self).config,
                old(self).config.total_staked + amount,
            ),
            r is Ok ==> match old(self).index_of(user) {
                Some(i) => final(self).accounts@ == old(self).accounts@.update(
                    i,
                    deposited(
                        old(self).accounts@[i],
                        user,
                        old(self).config.daily_yield_bps as int,
                        amount as int,
                        now as int,
                    ),
                ),
                None => final(self).accounts@ == old(self).accounts@.push(
                    deposited(
                        StakeAccount {
                            owner: user,
                            stake_amount: 0,
                            stake_timestamp: 0,
                            last_claim_timestamp: 0,
                            cumulative_rewards: 0,
                        },
                        user,
                        old(self).config.daily_yield_bps as int,
                        amount as int,
                        now as int,
                    ),
                ),
            },
            r is Err ==> *final(self) == *old(self),
    {
        if user.is_unset() {
            return Err(ErrorCode::Unauthorized);
        }
        match self.find(&user) {
            Some(i) => {
                proof {
                    self.lemma_found_is_index(user, i as int);
                    lemma_staked_sum_bounds(self.accounts@, i as int);
                }
                let mut account = self.accounts[i];
                let result = stake(&mut self.config, &mut account, user, amount, now);
                match result {
                    Ok(()) => {
                        proof {
                            lemma_staked_sum_update(self.accounts@, i as int, account);
                        }
                        self.accounts.set(i, account);
                        assert forall|a: int, b: int|
                            0 <= a < b < self.accounts@.len() implies #[trigger] self.accounts@[a].owner.bytes@
                                != #[trigger] self.accounts@[b].owner.bytes@ by {
                            assert(old(self).accounts@[a].owner.bytes@ != old(self).accounts@[b].owner.bytes@);
                        }
                        Ok(())
                    },
                    Err(e) => Err(e),
                }
            },
            None => {
                let mut account = StakeAccount {
                    owner: user,
                    stake_amount: 0,
                    stake_timestamp: 0,
                    last_claim_timestamp: 0,
                    cumulative_rewards: 0,
                };
                let result = stake(&mut self.config, &mut account, user, amount, now);
                match result {
                    Ok(()) => {
                        proof {
                            lemma_staked_sum_push(self.accounts@, account);
                        }
                        self.accounts.push(account);
                        Ok(())
                    },
                    Err(e) => Err(e),
                }
            },
        }
    }

    /// Withdraws `amount` from the record of `user` at `now`; see [`unstake`].
    /// The total staked stays the sum of the records.
    pub fn withdraw(&mut self, user: &Address, amount: u64, now: i64) -> (r: Result<
        UnstakeOutcome,
        ErrorCode,
    >)
        requires
            old(self).wf(),
        ensures
            final(self).wf(),
            final(self).config.total_staked == staked_sum(final(self).accounts@),
            old(self).index_of(*user) is None && amount > 0 ==> r == Err::<UnstakeOutcome, ErrorCode>(
                ErrorCode::InsufficientStake,
            ),
            amount == 0 ==> r == Err::<UnstakeOutcome, ErrorCode>(ErrorCode::InvalidAmount),
            r is Ok <==> (amount > 0 && match old(self).index_of(*user) {
                Some(i) => amount <= old(self).accounts@[i].stake_amount
                    && old(self).accounts@[i].cumulative_rewards + reward_of(
                    old(self).accounts@[i].stake_amount as int,
                    old(self).accounts@[i].last_claim_timestamp as int,
                    now as int,
                    old(self).config.base_apr_bps as int,
                ) <= u64::MAX,
                None => false,
            }),
            r matches Ok(o) ==> ({
                let i = old(self).index_of(*user)->0;
                let before = old(self).accounts@[i];
                &&& o.penalty_amount == bps_share(
                    amount as int,
                    penalty_bps_at(old(self).config, before, now as int),
                )
                &&& o.returned_amount == amount - o.penalty_amount
                &&& final(self).accounts@ == old(self).accounts@.update(
                    i,
                    withdrawn(before, old(self).config.base_apr_bps as int, amount as int, now as int),
                )
                &&& final(self).config == with_total(
                    old(self).config,
                    old(self).config.total_staked - amount,
                )
            }),
            r is Err ==> *final(self) == *old(self),
    {
        if amount == 0 {
            return Err(ErrorCode::InvalidAmount);
        }
        match self.find(user) {
            Some(i) => {
                proof {
                    self.lemma_found_is_index(*user, i as int);
                    lemma_staked_sum_bounds(self.accounts@, i as int);
                }
                let mut account = self.accounts[i];
                let result = unstake(&mut self.config, &mut account, amount, now);
                match result {
                    Ok(o) => {
                        proof {
                            lemma_staked_sum_update(self.accounts@, i as int, account);
                        }
                        self.accounts.set(i, account);
                        assert forall|a: int, b: int|
                            0 <= a < b < self.accounts@.len() implies #[trigger] self.accounts@[a].owner.bytes@
                                != #[trigger] self.accounts@[b].owner.bytes@ by {
                            assert(old(self).accounts@[a].owner.bytes@ != old(self).accounts@[b].owner.bytes@);
                        }
                        Ok(o)
                    },
                    Err(e) => Err(e),
                }
            },
            None => Err(ErrorCode::InsufficientStake),
        }
    }
}

} // verus!
