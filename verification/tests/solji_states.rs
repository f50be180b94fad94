use solji::encoding::{append_decimal, u64_le_bytes};
use solji::solji::errors::{GlobalError, SolJiError, WishCode};
use solji::solji::states::donate::{calc_incense_rewards, DonateCounter, DonateRecord, MedalLevel};
use solji::solji::states::draw_lots::{LotteryConfig, LotteryType};
use solji::solji::states::incense_config::{IncenseRule, IncenseRulesConfig, IncenseType};
use solji::solji::states::nft_mint::{hit, rand_bp, AmuletLevel, SbtNftCount};
use solji::solji::states::temple::{upgrade_condition, Temple};
use solji::solji::states::user::{saturating_sub_i64, UserInfo, UserStake};
use solji::solji::states::wish::{PublishWish, Tower, WishUser};
use solji::Pubkey;

fn key(b: u8) -> Pubkey {
    Pubkey::new_from_array([b; 32])
}

#[test]
fn le_bytes_and_decimal() {
    assert_eq!(u64_le_bytes(0x0102030405060708), [8, 7, 6, 5, 4, 3, 2, 1]);
    let mut s = String::from("n#");
    append_decimal(&mut s, 0);
    assert_eq!(s, "n#0");
    let mut s = String::new();
    append_decimal(&mut s, 10_001);
    assert_eq!(s, "10001");
}

#[test]
fn pubkey_basics() {
    assert_eq!(Pubkey::default_key().to_bytes(), [0u8; 32]);
    assert!(key(3).key_eq(&key(3)));
    let mut b = [3u8; 32];
    b[31] = 4;
    assert!(!key(3).key_eq(&Pubkey::new_from_array(b)));
}

#[test]
fn temple_new_and_upgrade_table() {
    let t = Temple::new(key(1));
    assert_eq!(t.level, 1);
    assert_eq!(t.total_burn_count, 0);
    assert_eq!(upgrade_condition(0), (0, 0, 0, 0, 0));
    assert_eq!(upgrade_condition(1), (1, 1, 1, 1, 0));
    assert_eq!(upgrade_condition(2), (2, 2, 2, 2, 1));
    assert_eq!(upgrade_condition(3), (3, 3, 3, 3, 1));
}

#[test]
fn temple_rises_one_level_at_a_time_and_stops_at_three() {
    let mut t = Temple::new(key(1));
    t.total_incense_value = 10;
    t.total_lottery_count = 10;
    t.total_wish_count = 10;
    t.total_donate_amount = 10;
    t.total_amulet_count = 10;
    assert_eq!(t.check_and_temple_upgrade(), Ok(()));
    assert_eq!(t.level, 2);
    assert_eq!(t.check_and_temple_upgrade(), Ok(()));
    assert_eq!(t.level, 3);
    assert_eq!(t.check_and_temple_upgrade(), Ok(()));
    assert_eq!(t.level, 3);
}

#[test]
fn temple_counters_and_overflow() {
    let mut t = Temple::new(key(1));
    assert_eq!(t.add_temple_incense_and_merit_attribute_upgrade(100, 10), Ok(()));
    assert_eq!((t.total_incense_value, t.total_merit_value, t.total_burn_count), (100, 10, 1));
    t.total_wish_count = u64::MAX;
    let before = t;
    assert_eq!(t.add_temple_wish(), Err(GlobalError::MathOverflow));
    assert_eq!(t.total_wish_count, before.total_wish_count);
    assert_eq!(t.increment_wealth(7), Ok(()));
    assert_eq!(t.wealth, 7);
    assert_eq!(t.add_temple_donate_amount(5), Ok(()));
    assert_eq!((t.total_donate_amount, t.total_donate_count), (5, 1));
}

#[test]
fn incense_types_by_code() {
    assert_eq!(IncenseType::get_incense_type(0), Some(IncenseType::ClearIncense));
    assert_eq!(IncenseType::get_incense_type(5), Some(IncenseType::CelestialIncense));
    assert_eq!(IncenseType::get_incense_type(6), None);
    assert_eq!(IncenseType::SecretBrewIncense.index(), 4);
    assert_eq!(IncenseType::ClearIncense.get_nft_name(), "Merit Incense NFT: Pure");
}

#[test]
fn rule_table_update_and_get() {
    let r = IncenseRule::new(1, 2, 3);
    let mut c = IncenseRulesConfig::new(key(1), [r; 6]);
    c.update_rule(IncenseType::Sandalwood, IncenseRule::new(9, 8, 7));
    assert_eq!(c.get_rule(IncenseType::Sandalwood), IncenseRule::new(9, 8, 7));
    assert_eq!(c.get_rule(IncenseType::ClearIncense), r);
}

#[test]
fn donation_tiers_and_medals() {
    assert_eq!(DonateRecord::get_donation_rewards(49_999_999), (0, 0));
    assert_eq!(DonateRecord::get_donation_rewards(50_000_000), (65, 1200));
    assert_eq!(DonateRecord::get_donation_rewards(200_000_000), (1300, 6300));
    assert_eq!(DonateRecord::get_donation_rewards(1_000_000_000), (14_000, 30_000));
    assert_eq!(DonateRecord::get_donation_rewards(5_000_000_000), (120_000, 100_000));
    assert_eq!(DonateRecord::get_badge_level(0), MedalLevel::NoMedal);
    assert_eq!(DonateRecord::get_badge_level(199_999_999), MedalLevel::Bronze);
    assert_eq!(DonateRecord::get_badge_level(999_999_999), MedalLevel::Silver);
    assert_eq!(DonateRecord::get_badge_level(4_999_999_999), MedalLevel::Gold);
    assert_eq!(DonateRecord::get_badge_level(u64::MAX), MedalLevel::Supreme);
    assert_eq!(MedalLevel::Gold.get_badge_level_reward(), (14_000, 30_000));
}

#[test]
fn medal_reward_equals_donation_reward() {
    for amount in [0u64, 50_000_000, 199_999_999, 200_000_000, 1_000_000_000, 7_000_000_000] {
        assert_eq!(
            DonateRecord::get_badge_level(amount).get_badge_level_reward(),
            DonateRecord::get_donation_rewards(amount)
        );
    }
}

#[test]
fn donation_counter_and_record() {
    let mut c = DonateCounter::new(key(2));
    assert_eq!(c.increment(), Ok(()));
    assert_eq!(c.count, 1);
    c.count = u32::MAX;
    assert_eq!(c.increment(), Err(GlobalError::MathOverflow));
    let mut r = DonateRecord::new(key(2), 10, 77);
    r.update_rewards(5, 6);
    assert_eq!((r.amount, r.merit_value, r.incense_value, r.create_at), (10, 5, 6, 77));
}

#[test]
fn donated_sticks() {
    let mut u = UserInfo::new(key(1));
    assert_eq!(calc_incense_rewards(120_000_000, &mut u), Ok(()));
    assert_eq!(u.incense_donate_count[0], 12);
    assert_eq!(calc_incense_rewards(10_000_000_000, &mut u), Ok(()));
    assert_eq!(u.incense_donate_count[4], 20);
    assert_eq!(calc_incense_rewards(100_000_000_000, &mut u), Ok(()));
    assert_eq!(u.incense_donate_count[5], 10);
}

#[test]
fn user_levels_from_merit() {
    let mut u = UserInfo::new(key(1));
    u.merit_value = 4_999;
    assert_eq!(u.update_level(), Ok(()));
    assert_eq!(u.level, 0);
    u.merit_value = 5_000;
    assert_eq!(u.update_level(), Ok(()));
    assert_eq!(u.level, 1);
    u.donate_merit_value = 25_000;
    assert_eq!(u.update_level(), Ok(()));
    assert_eq!(u.level, 2);
    u.merit_value = 500_000;
    assert_eq!(u.update_level(), Ok(()));
    assert_eq!(u.level, 4);
}

#[test]
fn user_deduction_and_wish_fee() {
    let mut u = UserInfo::new(key(1));
    u.merit_value = 4;
    assert_eq!(u.deduction(5), Err(GlobalError::MathUnderflow));
    assert_eq!(u.merit_value, 4);
    u.wish_daily_count = 3;
    assert_eq!(u.check_wish_daily_count(5), Err(SolJiError::Wish(WishCode::Insufficient)));
    u.merit_value = 10;
    assert_eq!(u.check_wish_daily_count(5), Ok(()));
    assert_eq!(u.merit_value, 5);
    u.wish_daily_count = 2;
    assert_eq!(u.check_wish_daily_count(5), Ok(()));
    assert_eq!(u.merit_value, 5);
}

#[test]
fn stake_reward_table() {
    let mut u = UserInfo::new(key(1));
    assert_eq!(u.get_calculate_reward(7), Ok(30));
    u.current_medal_level = MedalLevel::Silver;
    assert_eq!(u.get_calculate_reward(10), Ok(49));
    u.current_medal_level = MedalLevel::Supreme;
    assert_eq!(u.get_calculate_reward(31), Ok(150));
}

#[test]
fn user_stake_days_and_unstake_check() {
    let s = UserStake::new(key(1), key(2), 1_000);
    assert_eq!(s.days_since_start_clamped(1_000 + 86_400 * 3 + 5), Ok(3));
    assert_eq!(s.days_since_start_clamped(0), Ok(0));
    assert_eq!(saturating_sub_i64(i64::MIN, 1), i64::MIN);
    assert_eq!(s.check_request_unstake(5_000), Err(GlobalError::UnstakeNotRequest));
    let mut s2 = s;
    assert_eq!(s2.set_request_unstake(10_000), Ok(()));
    assert_eq!(s2.check_request_unstake(10_000 + 2_879), Err(GlobalError::UnstakeTooSoon));
    assert_eq!(s2.check_request_unstake(10_000 + 2_880), Ok(()));
}

#[test]
fn lottery_table_and_poetry() {
    let c = LotteryConfig::new();
    assert_eq!(c.get_lottery_type(0), LotteryType::ExcellentLuck);
    assert_eq!(c.get_lottery_type(6), LotteryType::TerribleLuck);
    assert_eq!(LotteryType::Favorable.get_lottery_poety(), "日日有小进，岁岁无烦忧");
}

#[test]
fn wish_counter_and_tower() {
    let mut w = WishUser::new(key(1), 5);
    assert_eq!(w.update_user_wish_count(9), Ok(()));
    assert_eq!((w.total_count, w.daily_count, w.update_time), (1, 1, 9));
    assert_eq!(Tower::get_tower(&9), Tower::SeedTower);
    assert_eq!(Tower::get_tower(&10), Tower::BasicTower);
    assert_eq!(Tower::get_tower(&500).get_level(), 4);
    let a = Tower::AdvancedTower.get_nft_args();
    assert_eq!(a.name, "Advanced Tower");
    assert_eq!(a.symbol, "Advanced");
    let p = PublishWish::new(key(1), String::from("peace"), 3);
    assert_eq!((p.content.as_str(), p.create_time, p.like_count), ("peace", 3, 0));
}

#[test]
fn amulet_levels_and_sbt_counter() {
    assert_eq!(AmuletLevel::try_from(2), Ok(AmuletLevel::L2));
    assert_eq!(AmuletLevel::try_from(0), Err(GlobalError::InvalidLevel));
    assert_eq!(AmuletLevel::L1.meta().name, "FortuneOmikuji ");
    let mut c = SbtNftCount { count: u64::MAX };
    assert_eq!(c.increment(), Err(GlobalError::MathOverflow));
}

#[test]
fn chance_from_keccak_seeds() {
    // The first 16 bytes of keccak256("abc"), little-endian, modulo 10 000.
    assert_eq!(rand_bp(&[b"abc"]), 1982);
    assert_eq!(rand_bp(&[b"a", b"bc"]), 1982);
    assert!(hit(1983, &[b"abc"]));
    assert!(!hit(1982, &[b"abc"]));
    assert!(!hit(0, &[b"abc"]));
    assert!(hit(10_000, &[b"abc"]));
}
