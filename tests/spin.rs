use anchor_lang::prelude::Pubkey;
use chad_empire::address::Address;
use chad_empire::spin::{
    activate_chad_shield, activate_lucky_charm, activate_yield_amplifier, calculate_booster_cost,
    claim_fallback_yield, initialize_spin_system, spin_for_yield, update_spin_config,
    BoosterType, ErrorCode, SpinConfig, UserSpinInfo,
};
use chad_empire::spin_seed::spin_random_value;

const STAKE: u64 = 1_000_000;
const POOL: u64 = 1_000_000_000;
const DAY: i64 = 86_400;

fn key(b: u8) -> Address {
    Address::new([b; 32])
}

fn config() -> SpinConfig {
    initialize_spin_system(key(9), 10, 50, 100, 300, 20, 50, 86_400).unwrap()
}

#[test]
fn spin_setup_checks_parameters() {
    assert_eq!(
        initialize_spin_system(key(9), 51, 50, 100, 300, 20, 50, 86_400).unwrap_err(),
        ErrorCode::InvalidYieldRange
    );
    assert_eq!(
        initialize_spin_system(key(9), 10, 50, 301, 300, 20, 50, 86_400).unwrap_err(),
        ErrorCode::InvalidYieldRange
    );
    assert_eq!(
        initialize_spin_system(key(9), 10, 50, 100, 300, 101, 50, 86_400).unwrap_err(),
        ErrorCode::InvalidProbability
    );
    assert_eq!(
        initialize_spin_system(key(9), 10, 50, 100, 300, 20, 50, 0).unwrap_err(),
        ErrorCode::InvalidCooldown
    );
    let c = config();
    assert_eq!(c.moonshot_probability, 20);
    assert_eq!(c.cooldown_seconds, 86_400);
}

#[test]
fn moonshot_draw_pays_from_moonshot_range() {
    let c = config();
    let mut info = UserSpinInfo::new(key(1));
    let h = spin_for_yield(&c, &mut info, STAKE, 5, 100_000, POOL).unwrap();
    assert!(h.is_moonshot);
    assert_eq!(h.yield_bps, 105);
    assert_eq!(h.tokens_earned, 10_500);
    assert_eq!(info.total_moonshot_yield_earned, 10_500);
    assert_eq!(info.total_base_yield_earned, 0);
    assert_eq!(info.total_spins, 1);
    assert_eq!(info.last_spin_timestamp, Some(100_000));
}

#[test]
fn base_draw_pays_from_base_range() {
    let c = config();
    let mut info = UserSpinInfo::new(key(1));
    let h = spin_for_yield(&c, &mut info, STAKE, 50, 100_000, POOL).unwrap();
    assert!(!h.is_moonshot);
    assert_eq!(h.yield_bps, 19);
    assert_eq!(h.tokens_earned, 1900);
    assert_eq!(info.total_base_yield_earned, 1900);
    assert!(!h.lucky_charm_active && !h.yield_amplifier_active && !h.chad_shield_active);
}

#[test]
fn second_spin_within_cooldown_is_refused() {
    let c = config();
    let mut info = UserSpinInfo::new(key(1));
    spin_for_yield(&c, &mut info, STAKE, 50, 100_000, POOL).unwrap();
    let before = info;
    assert_eq!(
        spin_for_yield(&c, &mut info, STAKE, 50, 100_000 + DAY - 1, POOL).unwrap_err(),
        ErrorCode::CooldownNotMet
    );
    assert_eq!(info.total_spins, before.total_spins);
    assert_eq!(info.last_spin_timestamp, before.last_spin_timestamp);
    assert!(spin_for_yield(&c, &mut info, STAKE, 50, 100_000 + DAY, POOL).is_ok());
    assert_eq!(info.total_spins, 2);
}

#[test]
fn spin_without_stake_is_refused() {
    let c = config();
    let mut info = UserSpinInfo::new(key(1));
    assert_eq!(
        spin_for_yield(&c, &mut info, 0, 50, 100_000, POOL).unwrap_err(),
        ErrorCode::NoStake
    );
    assert_eq!(info.total_spins, 0);
}

#[test]
fn spin_beyond_pool_balance_is_refused() {
    let c = config();
    let mut info = UserSpinInfo::new(key(1));
    assert_eq!(
        spin_for_yield(&c, &mut info, STAKE, 50, 100_000, 1899).unwrap_err(),
        ErrorCode::InsufficientFunds
    );
    assert_eq!(info.last_spin_timestamp, None);
    assert!(spin_for_yield(&c, &mut info, STAKE, 50, 100_000, 1900).is_ok());
}

#[test]
fn lucky_charm_raises_moonshot_chance() {
    let c = config();
    let mut plain = UserSpinInfo::new(key(1));
    let h = spin_for_yield(&c, &mut plain, STAKE, 25, 100_000, POOL).unwrap();
    assert!(!h.is_moonshot);
    let mut lucky = UserSpinInfo::new(key(1));
    lucky.lucky_charm_spins_remaining = 2;
    let h = spin_for_yield(&c, &mut lucky, STAKE, 25, 100_000, POOL).unwrap();
    assert!(h.is_moonshot);
    assert!(h.lucky_charm_active);
    assert_eq!(h.yield_bps, 125);
    assert_eq!(lucky.lucky_charm_spins_remaining, 1);
}

#[test]
fn shield_raises_low_draw_to_fallback() {
    let c = config();
    let mut info = UserSpinInfo::new(key(1));
    info.chad_shield_spins_remaining = 2;
    let h = spin_for_yield(&c, &mut info, STAKE, 50, 100_000, POOL).unwrap();
    assert_eq!(h.yield_bps, 50);
    assert_eq!(h.tokens_earned, 5000);
    assert!(h.chad_shield_active);
    assert!(!h.lucky_charm_active && !h.yield_amplifier_active);
    assert_eq!(info.chad_shield_spins_remaining, 1);
}

#[test]
fn shield_keeps_good_draw() {
    let c = config();
    let mut info = UserSpinInfo::new(key(1));
    info.chad_shield_spins_remaining = 2;
    let h = spin_for_yield(&c, &mut info, STAKE, 5, 100_000, POOL).unwrap();
    assert_eq!(h.yield_bps, 105);
    assert_eq!(info.chad_shield_spins_remaining, 2);
    assert!(!h.chad_shield_active);
}

#[test]
fn amplifier_multiplies_after_shield() {
    let c = config();
    let mut info = UserSpinInfo::new(key(1));
    info.yield_amplifier_end_time = 100_001;
    let h = spin_for_yield(&c, &mut info, STAKE, 50, 100_000, POOL).unwrap();
    assert!(h.yield_amplifier_active);
    assert_eq!(h.yield_bps, 28);
    assert_eq!(h.tokens_earned, 2800);
    let mut shielded = UserSpinInfo::new(key(1));
    shielded.yield_amplifier_end_time = 100_001;
    shielded.chad_shield_spins_remaining = 1;
    let h = spin_for_yield(&c, &mut shielded, STAKE, 50, 100_000, POOL).unwrap();
    assert_eq!(h.yield_bps, 75);
    assert_eq!(h.tokens_earned, 7500);
    let mut expired = UserSpinInfo::new(key(1));
    expired.yield_amplifier_end_time = 100_000;
    let h = spin_for_yield(&c, &mut expired, STAKE, 50, 100_000, POOL).unwrap();
    assert_eq!(h.yield_bps, 19);
}

#[test]
fn fallback_claim_pays_fallback_and_restarts_cooldown() {
    let c = config();
    let mut info = UserSpinInfo::new(key(1));
    assert_eq!(claim_fallback_yield(&c, &mut info, STAKE, 100_000, POOL), Ok(5000));
    assert_eq!(info.total_base_yield_earned, 5000);
    assert_eq!(info.last_spin_timestamp, Some(100_000));
    assert_eq!(info.total_spins, 0);
    assert_eq!(
        spin_for_yield(&c, &mut info, STAKE, 50, 100_000 + 10, POOL).unwrap_err(),
        ErrorCode::CooldownNotMet
    );
    assert_eq!(
        claim_fallback_yield(&c, &mut info, STAKE, 100_000 + 10, POOL),
        Err(ErrorCode::AlreadySpunToday)
    );
    assert_eq!(claim_fallback_yield(&c, &mut info, 0, 100_000 + DAY, POOL), Err(ErrorCode::NoStake));
    assert_eq!(
        claim_fallback_yield(&c, &mut info, STAKE, 100_000 + DAY, 4999),
        Err(ErrorCode::InsufficientFunds)
    );
}

#[test]
fn booster_costs() {
    assert_eq!(calculate_booster_cost(BoosterType::LuckyCharm, 1), 1000 * 1_000_000_000);
    assert_eq!(calculate_booster_cost(BoosterType::YieldAmplifier, 24), 12_000 * 1_000_000_000);
    assert_eq!(calculate_booster_cost(BoosterType::ChadShield, 3), 6000 * 1_000_000_000);
    assert_eq!(calculate_booster_cost(BoosterType::ChadShield, 255), 510_000 * 1_000_000_000);
}

#[test]
fn lucky_charm_purchase() {
    let mut info = UserSpinInfo::new(key(1));
    assert_eq!(activate_lucky_charm(&mut info, 0), Err(ErrorCode::InvalidBoosterValue));
    assert_eq!(activate_lucky_charm(&mut info, 6), Err(ErrorCode::InvalidBoosterValue));
    assert_eq!(activate_lucky_charm(&mut info, 5), Ok(5000 * 1_000_000_000));
    assert_eq!(info.lucky_charm_spins_remaining, 5);
    info.lucky_charm_spins_remaining = 254;
    assert_eq!(activate_lucky_charm(&mut info, 2), Err(ErrorCode::ArithmeticOverflow));
    assert_eq!(info.lucky_charm_spins_remaining, 254);
}

#[test]
fn amplifier_purchase_extends_open_window() {
    let mut info = UserSpinInfo::new(key(1));
    assert_eq!(activate_yield_amplifier(&mut info, 0, 1000), Err(ErrorCode::InvalidBoosterValue));
    assert_eq!(activate_yield_amplifier(&mut info, 25, 1000), Err(ErrorCode::InvalidBoosterValue));
    assert_eq!(activate_yield_amplifier(&mut info, 2, 1000), Ok(1000 * 1_000_000_000));
    assert_eq!(info.yield_amplifier_end_time, 1000 + 7200);
    assert_eq!(activate_yield_amplifier(&mut info, 1, 2000), Ok(500 * 1_000_000_000));
    assert_eq!(info.yield_amplifier_end_time, 1000 + 7200 + 3600);
    assert_eq!(activate_yield_amplifier(&mut info, 1, 50_000), Ok(500 * 1_000_000_000));
    assert_eq!(info.yield_amplifier_end_time, 50_000 + 3600);
    assert_eq!(
        activate_yield_amplifier(&mut info, 1, i64::MAX - 10),
        Err(ErrorCode::ArithmeticOverflow)
    );
}

#[test]
fn shield_purchase() {
    let mut info = UserSpinInfo::new(key(1));
    assert_eq!(activate_chad_shield(&mut info, 0), Err(ErrorCode::InvalidBoosterValue));
    assert_eq!(activate_chad_shield(&mut info, 4), Err(ErrorCode::InvalidBoosterValue));
    assert_eq!(activate_chad_shield(&mut info, 3), Ok(6000 * 1_000_000_000));
    assert_eq!(info.chad_shield_spins_remaining, 3);
}

#[test]
fn spin_config_update() {
    let mut c = config();
    assert_eq!(
        update_spin_config(&mut c, &key(2), Some(1), None, None, None, None, None, None),
        Err(ErrorCode::Unauthorized)
    );
    assert_eq!(
        update_spin_config(&mut c, &key(9), None, None, None, None, Some(101), None, None),
        Err(ErrorCode::InvalidProbability)
    );
    assert_eq!(
        update_spin_config(&mut c, &key(9), None, None, None, None, None, None, Some(0)),
        Err(ErrorCode::InvalidCooldown)
    );
    assert_eq!(
        update_spin_config(&mut c, &key(9), Some(60), None, None, None, Some(30), None, None),
        Err(ErrorCode::InvalidYieldRange)
    );
    assert_eq!(c.base_yield_min_bps, 10);
    assert_eq!(c.moonshot_probability, 20);
    assert_eq!(
        update_spin_config(&mut c, &key(9), Some(60), Some(80), None, None, Some(30), None, Some(60)),
        Ok(())
    );
    assert_eq!(c.base_yield_min_bps, 60);
    assert_eq!(c.base_yield_max_bps, 80);
    assert_eq!(c.moonshot_probability, 30);
    assert_eq!(c.cooldown_seconds, 60);
    assert_eq!(c.fallback_yield_bps, 50);
}

#[test]
fn spin_draw_matches_program_address_bump() {
    let user = [7u8; 32];
    let hashes = [3u8; 32];
    let program = [5u8; 32];
    let r = spin_random_value(&Address::new(user), 9, &Address::new(hashes), &Address::new(program));
    let expected = Pubkey::find_program_address(
        &[b"spin_result".as_ref(), &user, &9u32.to_le_bytes(), &hashes],
        &Pubkey::new_from_array(program),
    )
    .1;
    assert_eq!(r, Some(expected));
    let again =
        spin_random_value(&Address::new(user), 9, &Address::new(hashes), &Address::new(program));
    assert_eq!(r, again);
}

#[test]
fn cooldown_applies_after_spin_at_time_zero() {
    let c = config();
    let mut info = UserSpinInfo::new(key(1));
    assert!(spin_for_yield(&c, &mut info, STAKE, 50, 0, POOL).is_ok());
    assert_eq!(info.last_spin_timestamp, Some(0));
    assert_eq!(
        spin_for_yield(&c, &mut info, STAKE, 50, 1, POOL).unwrap_err(),
        ErrorCode::CooldownNotMet
    );
    assert_eq!(
        claim_fallback_yield(&c, &mut info, STAKE, 1, POOL),
        Err(ErrorCode::AlreadySpunToday)
    );
    assert!(spin_for_yield(&c, &mut info, STAKE, 50, DAY, POOL).is_ok());
}

#[test]
fn cooldown_applies_after_fallback_at_negative_time() {
    let c = config();
    let mut info = UserSpinInfo::new(key(1));
    assert_eq!(claim_fallback_yield(&c, &mut info, STAKE, -100, POOL), Ok(5000));
    assert_eq!(
        claim_fallback_yield(&c, &mut info, STAKE, -99, POOL),
        Err(ErrorCode::AlreadySpunToday)
    );
    assert_eq!(
        spin_for_yield(&c, &mut info, STAKE, 50, -99, POOL).unwrap_err(),
        ErrorCode::CooldownNotMet
    );
    assert!(spin_for_yield(&c, &mut info, STAKE, 50, DAY - 100, POOL).is_ok());
}
