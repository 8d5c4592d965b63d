use chad_empire::address::Address;
use chad_empire::formula::calculate_rewards;
use chad_empire::staking::{
    claim_rewards, get_penalty_tier, initialize_staking, stake, stake_duration_hours, unstake,
    update_apr, ErrorCode, StakeAccount, StakingConfig, StakingLedger,
};

fn key(b: u8) -> Address {
    Address::new([b; 32])
}

fn empty_account() -> StakeAccount {
    StakeAccount {
        owner: Address::unset(),
        stake_amount: 0,
        stake_timestamp: 0,
        last_claim_timestamp: 0,
        cumulative_rewards: 0,
    }
}

fn config() -> StakingConfig {
    initialize_staking(key(9), 0)
}

#[test]
fn initialize_uses_defaults() {
    let c = initialize_staking(key(9), 0);
    assert_eq!(c.base_apr_bps, 50);
    assert_eq!(c.daily_yield_bps, 50);
    assert_eq!(c.total_staked, 0);
    assert_eq!(c.early_unstake_penalty_tiers, [5000, 3500, 1500, 0]);
    assert_eq!(c.penalty_threshold_hours, [168, 336, 720, 744]);
    let c = initialize_staking(key(9), 120);
    assert_eq!(c.base_apr_bps, 120);
}

#[test]
fn reward_formula_exact_values() {
    assert_eq!(calculate_rewards(1_000_000, 0, 86_400, 50), 5000);
    assert_eq!(calculate_rewards(1_000_000, 0, 43_200, 50), 2500);
    assert_eq!(calculate_rewards(1_000_000, 0, 100, 50), 5);
    assert_eq!(calculate_rewards(1_000_000, 500, 500, 50), 0);
    assert_eq!(calculate_rewards(1_000_000, 900, 500, 50), 0);
    assert_eq!(calculate_rewards(0, 0, 86_400, 50), 0);
    assert_eq!(
        calculate_rewards(u64::MAX, i64::MIN, i64::MAX, u16::MAX),
        25810653838152433102609305731828493u128
    );
}

#[test]
fn reward_is_monotonic_in_time_and_stake() {
    let a = calculate_rewards(1_000, 0, 1_000_000, 50);
    let b = calculate_rewards(1_000, 0, 2_000_000, 50);
    let c = calculate_rewards(2_000, 0, 2_000_000, 50);
    assert!(a <= b && b <= c);
    assert!(a > 0);
    assert_eq!(calculate_rewards(2_000, 7, 7, 50), 0);
}

#[test]
fn first_deposit_creates_record() {
    let mut c = config();
    let mut a = empty_account();
    assert_eq!(stake(&mut c, &mut a, key(1), 1_000_000, 1000), Ok(()));
    assert!(a.owner.same_as(&key(1)));
    assert_eq!(a.stake_amount, 1_000_000);
    assert_eq!(a.stake_timestamp, 1000);
    assert_eq!(a.last_claim_timestamp, 1000);
    assert_eq!(a.cumulative_rewards, 0);
    assert_eq!(c.total_staked, 1_000_000);
}

#[test]
fn second_deposit_accrues_daily_yield() {
    let mut c = config();
    let mut a = empty_account();
    stake(&mut c, &mut a, key(1), 1_000_000, 1000).unwrap();
    assert_eq!(stake(&mut c, &mut a, key(1), 500, 1000 + 86_400), Ok(()));
    assert_eq!(a.stake_amount, 1_000_500);
    assert_eq!(a.cumulative_rewards, 5000);
    assert_eq!(a.stake_timestamp, 1000);
    assert_eq!(a.last_claim_timestamp, 1000 + 86_400);
    assert_eq!(c.total_staked, 1_000_500);
}

#[test]
fn zero_deposit_is_refused() {
    let mut c = config();
    let mut a = empty_account();
    assert_eq!(stake(&mut c, &mut a, key(1), 0, 1000), Err(ErrorCode::InvalidAmount));
    assert_eq!(c.total_staked, 0);
    assert!(a.owner.is_unset());
}

#[test]
fn deposit_past_u64_is_refused() {
    let mut c = config();
    c.total_staked = u64::MAX - 10;
    let mut a = empty_account();
    assert_eq!(stake(&mut c, &mut a, key(1), 11, 1000), Err(ErrorCode::ArithmeticOverflow));
    assert_eq!(c.total_staked, u64::MAX - 10);
}

#[test]
fn penalty_tier_boundaries() {
    let t = [168u16, 336, 720, 744];
    assert_eq!(get_penalty_tier(0, &t), 0);
    assert_eq!(get_penalty_tier(167, &t), 0);
    assert_eq!(get_penalty_tier(168, &t), 1);
    assert_eq!(get_penalty_tier(335, &t), 1);
    assert_eq!(get_penalty_tier(336, &t), 2);
    assert_eq!(get_penalty_tier(719, &t), 2);
    assert_eq!(get_penalty_tier(720, &t), 3);
    assert_eq!(get_penalty_tier(100_000, &t), 3);
    assert_eq!(stake_duration_hours(1000, 1000 + 604_799), 167);
    assert_eq!(stake_duration_hours(1000, 1000 + 604_800), 168);
    assert_eq!(stake_duration_hours(1000, 10), 0);
}

#[test]
fn just_under_seven_days_pays_half() {
    let mut c = config();
    let mut a = empty_account();
    stake(&mut c, &mut a, key(1), 1000, 1000).unwrap();
    let o = unstake(&mut c, &mut a, 1000, 1000 + 604_799).unwrap();
    assert_eq!(o.penalty_tier, 0);
    assert_eq!(o.penalty_amount, 500);
    assert_eq!(o.returned_amount, 500);
}

#[test]
fn exactly_seven_days_pays_thirty_five_percent() {
    let mut c = config();
    let mut a = empty_account();
    stake(&mut c, &mut a, key(1), 1000, 1000).unwrap();
    let o = unstake(&mut c, &mut a, 1000, 1000 + 604_800).unwrap();
    assert_eq!(o.penalty_tier, 1);
    assert_eq!(o.penalty_amount, 350);
    assert_eq!(o.returned_amount, 650);
}

#[test]
fn long_stake_pays_no_penalty_and_accrues_base_rate() {
    let mut c = config();
    let mut a = empty_account();
    stake(&mut c, &mut a, key(1), 1_000_000, 0).unwrap();
    let o = unstake(&mut c, &mut a, 400_000, 720 * 3600).unwrap();
    assert_eq!(o.penalty_tier, 3);
    assert_eq!(o.penalty_amount, 0);
    assert_eq!(o.returned_amount, 400_000);
    // thirty days at the base rate of 50 bps per day on the whole stake
    assert_eq!(a.cumulative_rewards, 150_000);
    assert_eq!(a.stake_amount, 600_000);
    assert_eq!(a.stake_timestamp, 0);
    assert_eq!(a.last_claim_timestamp, 720 * 3600);
    assert_eq!(c.total_staked, 600_000);
}

#[test]
fn full_withdrawal_then_deposit_restarts_clock() {
    let mut c = config();
    let mut a = empty_account();
    stake(&mut c, &mut a, key(1), 1000, 1000).unwrap();
    unstake(&mut c, &mut a, 1000, 2000).unwrap();
    assert_eq!(a.stake_amount, 0);
    assert_eq!(a.stake_timestamp, 0);
    stake(&mut c, &mut a, key(1), 1000, 5_000_000).unwrap();
    assert_eq!(a.stake_timestamp, 5_000_000);
    let o = unstake(&mut c, &mut a, 1000, 5_000_000 + 3600).unwrap();
    assert_eq!(o.penalty_tier, 0);
    assert_eq!(o.penalty_amount, 500);
}

#[test]
fn unstake_errors() {
    let mut c = config();
    let mut a = empty_account();
    stake(&mut c, &mut a, key(1), 1000, 1000).unwrap();
    assert_eq!(unstake(&mut c, &mut a, 0, 2000), Err(ErrorCode::InvalidAmount));
    assert_eq!(unstake(&mut c, &mut a, 1001, 2000), Err(ErrorCode::InsufficientStake));
    assert_eq!(a.stake_amount, 1000);
    assert_eq!(c.total_staked, 1000);
    a.cumulative_rewards = u64::MAX;
    assert_eq!(unstake(&mut c, &mut a, 10, 1000 + 86_400), Err(ErrorCode::ArithmeticOverflow));
    assert_eq!(a.stake_amount, 1000);
}

#[test]
fn claim_pays_daily_yield() {
    let mut c = config();
    let mut a = empty_account();
    stake(&mut c, &mut a, key(1), 1_000_000, 1000).unwrap();
    assert_eq!(claim_rewards(&c, &mut a, 1000 + 86_400, 1_000_000), Ok(5000));
    assert_eq!(a.cumulative_rewards, 5000);
    assert_eq!(a.last_claim_timestamp, 1000 + 86_400);
}

#[test]
fn claim_errors() {
    let mut c = config();
    let mut a = empty_account();
    stake(&mut c, &mut a, key(1), 1_000_000, 1000).unwrap();
    assert_eq!(claim_rewards(&c, &mut a, 1000, 1_000_000), Err(ErrorCode::NoRewardsToClaim));
    assert_eq!(claim_rewards(&c, &mut a, 1000 + 86_400, 4999), Err(ErrorCode::InsufficientFunds));
    assert_eq!(a.last_claim_timestamp, 1000);
    a.cumulative_rewards = u64::MAX - 1;
    assert_eq!(
        claim_rewards(&c, &mut a, 1000 + 86_400, 1_000_000),
        Err(ErrorCode::ArithmeticOverflow)
    );
}

#[test]
fn update_apr_checks_authority_and_caps() {
    let mut c = config();
    assert_eq!(update_apr(&mut c, &key(2), 100, None), Err(ErrorCode::Unauthorized));
    assert_eq!(update_apr(&mut c, &key(9), 10_001, None), Err(ErrorCode::InvalidParameter));
    assert_eq!(update_apr(&mut c, &key(9), 100, Some(1001)), Err(ErrorCode::InvalidParameter));
    assert_eq!(c.base_apr_bps, 50);
    assert_eq!(update_apr(&mut c, &key(9), 10_000, None), Ok(()));
    assert_eq!(c.base_apr_bps, 10_000);
    assert_eq!(c.daily_yield_bps, 50);
    assert_eq!(update_apr(&mut c, &key(9), 70, Some(1000)), Ok(()));
    assert_eq!(c.base_apr_bps, 70);
    assert_eq!(c.daily_yield_bps, 1000);
}

#[test]
fn ledger_total_matches_records() {
    let mut l = StakingLedger::new(config());
    assert_eq!(l.deposit(key(1), 100, 10), Ok(()));
    assert_eq!(l.deposit(key(2), 250, 20), Ok(()));
    assert_eq!(l.deposit(key(1), 50, 30), Ok(()));
    assert_eq!(l.accounts.len(), 2);
    let sum: u64 = l.accounts.iter().map(|a| a.stake_amount).sum();
    assert_eq!(sum, 400);
    assert_eq!(l.config.total_staked, 400);
    assert_eq!(l.deposit(Address::unset(), 50, 30), Err(ErrorCode::Unauthorized));
    assert_eq!(l.deposit(key(3), 0, 30), Err(ErrorCode::InvalidAmount));
    let o = l.withdraw(&key(2), 250, 40).unwrap();
    assert_eq!(o.penalty_amount, 125);
    let sum: u64 = l.accounts.iter().map(|a| a.stake_amount).sum();
    assert_eq!(sum, 150);
    assert_eq!(l.config.total_staked, 150);
    assert_eq!(l.withdraw(&key(4), 1, 40), Err(ErrorCode::InsufficientStake));
    assert_eq!(l.find(&key(2)), Some(1));
    assert_eq!(l.find(&key(4)), None);
}

#[test]
fn stake_lookup_for_spins() {
    let mut l = StakingLedger::new(config());
    l.deposit(key(1), 700, 10).unwrap();
    assert_eq!(l.stake_of(&key(1)), 700);
    assert_eq!(l.stake_of(&key(5)), 0);
    l.withdraw(&key(1), 700, 20).unwrap();
    assert_eq!(l.stake_of(&key(1)), 0);
}
