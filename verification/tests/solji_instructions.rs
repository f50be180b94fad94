use solji::solji::instructions::draw_lots::lottery_reward;
use solji::solji::errors::{
    BurnCode, DonateError, DrawLotsCode, ErrorCode, GlobalError, NftErrorCode, SolJiError,
    WishCode, WithdrawCode,
};
use solji::solji::instructions::donate::{create_donate_count, create_donate_record, MedalAction};
use solji::solji::instructions::draw_lots::{
    coin_flip, draw_lots, draw_lots_from_reading, draw_lots_revealed, initialize_lottery_poetry,
    unbiased_u64, DrawEnv,
};
use solji::solji::randomness::RandomnessReading;
use solji::solji::instructions::incense_burn::{incense_buy, incense_burn, BurnEnv};
use solji::solji::instructions::incense_config::{initialize, update_incense};
use solji::solji::instructions::nft_mint::{
    amulet_mint_nft, burn_incense_nft_mint, draw_mint_nft, mint_sbt_nft, wish_mint_nft,
};
use solji::solji::instructions::temple::{create_temple, withdraw};
use solji::solji::instructions::user::{create_user, stake, unstake_confirm, unstake_request};
use solji::solji::instructions::wish::{create_like, create_wish, mint_tower_nft, TowerAction, WishEnv};
use solji::solji::states::donate::MedalLevel;
use solji::solji::states::draw_lots::LotteryType;
use solji::solji::states::incense_config::{IncenseRule, IncenseType};
use solji::solji::states::nft_mint::SbtNftCount;
use solji::solji::states::wish::{PublishWish, Tower};
use solji::Pubkey;

fn key(b: u8) -> Pubkey {
    Pubkey::new_from_array([b; 32])
}

const DAY: i64 = 86_400;

#[test]
fn withdraw_keeps_the_rent_minimum() {
    assert_eq!(withdraw(100, 1_000, 890), Ok(900));
    assert_eq!(withdraw(110, 1_000, 890), Ok(890));
    assert_eq!(
        withdraw(0, 1_000, 890),
        Err(SolJiError::Withdraw(WithdrawCode::AmountMustBeGreaterThanZero))
    );
    assert_eq!(
        withdraw(111, 1_000, 890),
        Err(SolJiError::Withdraw(WithdrawCode::AmountMustBeLessThanTempleBalance))
    );
    assert_eq!(
        withdraw(1, 890, 890),
        Err(SolJiError::Withdraw(WithdrawCode::AmountMustBeLessThanTempleBalance))
    );
}

#[test]
fn incense_rules_initialize_and_admin_update() {
    let mut c = initialize(key(1));
    assert_eq!(c.rules[0], IncenseRule::new(10_000_000, 10, 100));
    assert_eq!(c.rules[5], IncenseRule::new(0, 10000, 30000));
    let before = c;
    assert_eq!(
        update_incense(key(2), &mut c, IncenseType::Sandalwood, IncenseRule::new(1, 1, 1)),
        Err(SolJiError::Admin(ErrorCode::NonAdministrator))
    );
    assert_eq!(c.rules, before.rules);
    assert_eq!(update_incense(key(1), &mut c, IncenseType::Sandalwood, IncenseRule::new(1, 1, 1)), Ok(()));
    assert_eq!(c.rules[1], IncenseRule::new(1, 1, 1));
}

#[test]
fn buying_incense() {
    let rules = initialize(key(1));
    let mut u = create_user(key(5));
    let p = incense_buy(&rules, &mut u, 0, 2).unwrap();
    assert_eq!(p.total_amount, 20_000_000);
    assert_eq!(p.unit_price, 10_000_000);
    assert_eq!(u.incense_buy_count[0], 2);
    assert_eq!(incense_buy(&rules, &mut u, 4, 1), Err(SolJiError::Burn(BurnCode::InvalidIncenseType)));
    assert_eq!(incense_buy(&rules, &mut u, 1, 0), Err(SolJiError::Burn(BurnCode::InvalidNumber)));
    assert_eq!(incense_buy(&rules, &mut u, 6, 1), Err(SolJiError::Global(GlobalError::InvalidIncenseType)));
    assert_eq!(u.incense_buy_count[0], 2);
}

fn burn_env(slot: u64) -> BurnEnv {
    BurnEnv { authority: key(1), temple_key: key(2), slot, now_ts: 5 * DAY }
}

#[test]
fn burning_incense_without_amulet() {
    let rules = initialize(key(9));
    let mut u = create_user(key(1));
    let mut t = create_temple(key(9));
    incense_buy(&rules, &mut u, 0, 2).unwrap();
    let o = incense_burn(&burn_env(0), &rules, &mut u, &mut t, 0, 0).unwrap();
    assert_eq!(o.incense_type, IncenseType::ClearIncense);
    assert_eq!((o.incense_value, o.merit_value), (100, 10));
    assert!(o.mint_burn_nft);
    assert!(!o.amulet_dropped);
    assert_eq!(u.incense_buy_count[0], 1);
    assert_eq!((u.burn_count[0], u.total_burn_count), (1, 1));
    assert_eq!((u.merit_value, u.incense_value, u.amulet_count), (10, 100, 0));
    assert!(u.has_burn_token[0]);
    assert_eq!((t.total_burn_count, t.total_incense_value, t.total_merit_value), (1, 100, 10));
    assert_eq!(t.total_amulet_count, 0);
    assert_eq!(t.level, 1);
    let o2 = incense_burn(&burn_env(0), &rules, &mut u, &mut t, 0, 0).unwrap();
    assert!(!o2.mint_burn_nft);
}

#[test]
fn burning_incense_drops_an_amulet() {
    let rules = initialize(key(9));
    let mut u = create_user(key(1));
    let mut t = create_temple(key(9));
    incense_buy(&rules, &mut u, 0, 1).unwrap();
    // keccak of (signer, temple, burn count 1, slot 28) gives 181 basis points, below 500.
    let o = incense_burn(&burn_env(28), &rules, &mut u, &mut t, 0, 0).unwrap();
    assert!(o.amulet_dropped);
    assert_eq!(u.amulet_count, 1);
    assert_eq!(t.total_amulet_count, 1);
}

#[test]
fn burning_incense_errors() {
    let rules = initialize(key(9));
    let mut u = create_user(key(1));
    let mut t = create_temple(key(9));
    assert_eq!(
        incense_burn(&burn_env(0), &rules, &mut u, &mut t, 1, 0),
        Err(SolJiError::Burn(BurnCode::BurnNotBuy))
    );
    assert_eq!(
        incense_burn(&burn_env(0), &rules, &mut u, &mut t, 3, 1),
        Err(SolJiError::Global(GlobalError::InvalidArgs))
    );
    assert_eq!(
        incense_burn(&burn_env(0), &rules, &mut u, &mut t, 9, 0),
        Err(SolJiError::Global(GlobalError::InvalidIncenseType))
    );
    assert_eq!(u.total_burn_count, 0);
    assert_eq!(t.total_burn_count, 0);
}

#[test]
fn drawing_lots_first_free_then_charged() {
    let (table, mut p) = initialize_lottery_poetry(key(1), 7);
    let mut u = create_user(key(1));
    let mut t = create_temple(key(9));
    // (864000 xor 1) mod 7 = 5.
    let env = DrawEnv { authority: key(1), now_ts: 864_000 };
    let rec = draw_lots(&env, &table, &mut u, &mut t, &mut p).unwrap();
    assert_eq!(rec.lottery_type, LotteryType::SlightBadLuck);
    assert_eq!(rec.lottery_poetry, LotteryType::SlightBadLuck.get_lottery_poety());
    assert_eq!((u.merit_value, u.lottery_count, u.lottery_is_free), (2, 1, false));
    assert_eq!(t.total_lottery_count, 1);
    assert!(p.settled);
    let env2 = DrawEnv { authority: key(1), now_ts: 864_002 };
    assert_eq!(
        draw_lots(&env2, &table, &mut u, &mut t, &mut p).unwrap_err(),
        SolJiError::DrawLots(DrawLotsCode::Insufficient)
    );
    u.merit_value = 10;
    let rec2 = draw_lots(&env2, &table, &mut u, &mut t, &mut p).unwrap();
    assert_eq!(rec2.lottery_type, LotteryType::ExcellentLuck);
    assert_eq!(u.merit_value, 10 - 5 + 3);
}

fn randomness_data(seed_slot: u64, reveal_slot: u64) -> Vec<u8> {
    let mut d = vec![0u8; 408];
    d[..8].copy_from_slice(&[10, 66, 229, 135, 220, 239, 217, 114]);
    d[104..112].copy_from_slice(&seed_slot.to_le_bytes());
    d[144..152].copy_from_slice(&reveal_slot.to_le_bytes());
    d
}

#[test]
fn committing_randomness() {
    let (_, mut p) = initialize_lottery_poetry(key(1), 7);
    let data = randomness_data(100, 0);
    assert_eq!(coin_flip(&mut p, key(4), &data, 104), Err(SolJiError::DrawLots(DrawLotsCode::RandomnessExpired)));
    assert_eq!(coin_flip(&mut p, key(4), &data[..100], 101), Err(SolJiError::DrawLots(DrawLotsCode::InvalidRandomnessAccount)));
    assert_eq!(coin_flip(&mut p, key(4), &data, 102), Ok(100));
    assert_eq!(p.commit_slot, 100);
    assert!(!p.settled);
    assert!(p.randomness_account.key_eq(&key(4)));
    assert_eq!(coin_flip(&mut p, key(4), &data, 102), Err(SolJiError::DrawLots(DrawLotsCode::AlreadySettled)));
}

#[test]
fn drawing_lots_from_a_revealed_reading() {
    let (table, mut p) = initialize_lottery_poetry(key(1), 7);
    let data = randomness_data(100, 0);
    coin_flip(&mut p, key(4), &data, 102).unwrap();
    let mut u = create_user(key(1));
    let mut t = create_temple(key(9));
    let env = DrawEnv { authority: key(1), now_ts: 864_000 };
    let stale = RandomnessReading { seed_slot: 99, reveal_slot: 105, value: [0xff; 32] };
    assert_eq!(
        draw_lots_from_reading(&env, &table, &mut u, &mut t, &mut p, &stale, 105).unwrap_err(),
        SolJiError::DrawLots(DrawLotsCode::RandomnessExpired)
    );
    let early = RandomnessReading { seed_slot: 100, reveal_slot: 104, value: [0xff; 32] };
    assert_eq!(
        draw_lots_from_reading(&env, &table, &mut u, &mut t, &mut p, &early, 105).unwrap_err(),
        SolJiError::DrawLots(DrawLotsCode::RandomnessNotResolved)
    );
    assert_eq!((u.lottery_count, t.total_lottery_count, p.settled), (0, 0, false));
    // The value's first eight bytes, all 0xff, scale to position 6 of 7.
    let ok = RandomnessReading { seed_slot: 100, reveal_slot: 105, value: [0xff; 32] };
    let rec = draw_lots_from_reading(&env, &table, &mut u, &mut t, &mut p, &ok, 105).unwrap();
    assert_eq!(rec.lottery_type, LotteryType::TerribleLuck);
    assert_eq!((u.merit_value, u.lottery_count, u.lottery_is_free), (2, 1, false));
    assert_eq!(t.total_lottery_count, 1);
    assert!(p.settled);
}

#[test]
fn drawing_lots_from_randomness_account_data() {
    let (table, mut p) = initialize_lottery_poetry(key(1), 7);
    coin_flip(&mut p, key(4), &randomness_data(100, 0), 102).unwrap();
    let mut u = create_user(key(1));
    let mut t = create_temple(key(9));
    let env = DrawEnv { authority: key(1), now_ts: 864_000 };
    assert_eq!(
        draw_lots_revealed(&env, &table, &mut u, &mut t, &mut p, &randomness_data(100, 104), 105).unwrap_err(),
        SolJiError::DrawLots(DrawLotsCode::RandomnessNotResolved)
    );
    assert_eq!(
        draw_lots_revealed(&env, &table, &mut u, &mut t, &mut p, &randomness_data(100, 105)[..50], 105).unwrap_err(),
        SolJiError::DrawLots(DrawLotsCode::InvalidRandomnessAccount)
    );
    // A revealed value of zero scales to position 0: excellent luck.
    let rec = draw_lots_revealed(&env, &table, &mut u, &mut t, &mut p, &randomness_data(100, 105), 105).unwrap();
    assert_eq!(rec.lottery_type, LotteryType::ExcellentLuck);
    assert_eq!((u.merit_value, t.total_lottery_count), (3, 1));
}

#[test]
fn lot_position_scaling() {
    assert_eq!(unbiased_u64(0, 7), 0);
    assert_eq!(unbiased_u64(u64::MAX, 7), 6);
    assert_eq!(unbiased_u64(1u64 << 63, 7), 3);
}

fn wish_env(slot: u64) -> WishEnv {
    WishEnv { authority: key(1), temple_key: key(2), slot, now_ts: 3 * DAY }
}

#[test]
fn making_wishes() {
    let mut u = create_user(key(1));
    let mut t = create_temple(key(9));
    let o = create_wish(&wish_env(0), &mut u, &mut t, String::from("peace"), false, 2).unwrap();
    assert!(!o.amulet_dropped);
    assert_eq!(o.publish_wish.content, "peace");
    assert!(o.publish_wish.author.key_eq(&key(1)));
    assert_eq!(o.publish_wish.create_time, 3 * DAY);
    assert_eq!((u.wish_count, u.wish_daily_count, u.merit_value), (1, 1, 1));
    assert_eq!(t.total_wish_count, 1);
    let anon = create_wish(&wish_env(0), &mut u, &mut t, String::from("x"), true, 2).unwrap();
    assert!(anon.publish_wish.author.key_eq(&Pubkey::default_key()));
    assert_eq!(
        create_wish(&wish_env(0), &mut u, &mut t, String::from("x"), false, 1).unwrap_err(),
        SolJiError::Global(GlobalError::InvalidAmulet)
    );
}

#[test]
fn wish_drops_an_amulet() {
    let mut u = create_user(key(1));
    let mut t = create_temple(key(9));
    // keccak of (signer, temple, wish count 1, slot 529) gives 3 basis points, below 10.
    let o = create_wish(&wish_env(529), &mut u, &mut t, String::from("luck"), false, 2).unwrap();
    assert!(o.amulet_dropped);
    assert_eq!((u.amulet_count, t.total_amulet_count), (1, 1));
}

#[test]
fn fourth_wish_of_the_day_costs_merit() {
    let mut u = create_user(key(1));
    let mut t = create_temple(key(9));
    for _ in 0..3 {
        create_wish(&wish_env(0), &mut u, &mut t, String::from("w"), false, 2).unwrap();
    }
    assert_eq!(u.merit_value, 3);
    assert_eq!(
        create_wish(&wish_env(0), &mut u, &mut t, String::from("w"), false, 2).unwrap_err(),
        SolJiError::Wish(WishCode::Insufficient)
    );
    assert_eq!(u.wish_count, 3);
    u.merit_value = 5;
    create_wish(&wish_env(0), &mut u, &mut t, String::from("w"), false, 2).unwrap();
    assert_eq!((u.merit_value, u.wish_count), (1, 4));
}

#[test]
fn tower_nft_stages() {
    let mut u = create_user(key(1));
    let o = mint_tower_nft(&mut u);
    assert_eq!((o.action, o.tower, o.previous_level, o.new_level), (TowerAction::Create, Tower::SeedTower, -1, 0));
    assert_eq!(u.tower_level, 0);
    assert_eq!(mint_tower_nft(&mut u).action, TowerAction::Unchanged);
    u.wish_count = 10;
    let o = mint_tower_nft(&mut u);
    assert_eq!((o.action, o.tower, o.new_level), (TowerAction::Upgrade, Tower::BasicTower, 1));
    assert_eq!(u.tower_level, 1);
}

#[test]
fn liking_a_wish() {
    let mut w = PublishWish::new(key(1), String::from("w"), 1);
    let l = create_like(key(2), key(3), &mut w);
    assert_eq!(w.like_count, 1);
    assert!(l.like_pubkey.key_eq(&key(2)));
    assert!(l.with_pubkey.key_eq(&key(3)));
}

#[test]
fn donating_mints_a_medal() {
    let mut c = create_donate_count(key(1));
    let mut u = create_user(key(1));
    let mut t = create_temple(key(9));
    let o = create_donate_record(key(1), 5, 60_000_000, 1_000_000_000, &mut c, &mut u, &mut t).unwrap();
    assert_eq!(o.medal_action, MedalAction::Mint);
    assert_eq!(o.level, MedalLevel::Bronze);
    assert_eq!((o.merit_value, o.incense_value), (65, 1200));
    assert_eq!((o.record.amount, o.record.merit_value, o.record.incense_value, o.record.create_at), (60_000_000, 65, 1200, 5));
    assert_eq!(c.count, 1);
    assert_eq!((u.donate_amount, u.donate_count), (60_000_000, 1));
    assert_eq!(u.incense_donate_count[0], 6);
    assert_eq!(u.current_medal_level, MedalLevel::Bronze);
    assert_eq!((u.donate_merit_value, u.donate_incense_value), (65, 1200));
    assert_eq!((t.total_donate_amount, t.total_donate_count), (60_000_000, 1));
    let o2 = create_donate_record(key(1), 6, 150_000_000, 1_000_000_000, &mut c, &mut u, &mut t).unwrap();
    assert_eq!(o2.medal_action, MedalAction::Upgrade);
    assert_eq!(o2.level, MedalLevel::Silver);
    assert_eq!(u.current_medal_level, MedalLevel::Silver);
}

#[test]
fn small_donation_and_errors() {
    let mut c = create_donate_count(key(1));
    let mut u = create_user(key(1));
    let mut t = create_temple(key(9));
    let o = create_donate_record(key(1), 5, 10_000_000, 10_000_000, &mut c, &mut u, &mut t).unwrap();
    assert_eq!(o.medal_action, MedalAction::Unchanged);
    assert_eq!((o.merit_value, o.record.merit_value), (0, 0));
    assert_eq!(u.current_medal_level, MedalLevel::NoMedal);
    assert_eq!(
        create_donate_record(key(1), 5, 0, 10, &mut c, &mut u, &mut t).unwrap_err(),
        SolJiError::Donate(DonateError::InvalidDonateAmount)
    );
    assert_eq!(
        create_donate_record(key(1), 5, 11, 10, &mut c, &mut u, &mut t).unwrap_err(),
        SolJiError::Donate(DonateError::InsufficientLamports)
    );
    assert_eq!(c.count, 1);
    assert_eq!(u.donate_amount, 10_000_000);
}

#[test]
fn donation_of_exactly_the_threshold_upgrades() {
    let mut c = create_donate_count(key(1));
    let mut u = create_user(key(1));
    let mut t = create_temple(key(9));
    let o = create_donate_record(key(1), 5, 50_000_000, 50_000_000, &mut c, &mut u, &mut t).unwrap();
    assert_eq!(o.medal_action, MedalAction::Upgrade);
    assert_eq!(u.current_medal_level, MedalLevel::Bronze);
}

#[test]
fn staking_lifecycle() {
    let mut u = create_user(key(1));
    let mut t = create_temple(key(9));
    assert_eq!(stake(key(1), key(7), 0, key(1), 0, &mut u).unwrap_err(), SolJiError::Global(GlobalError::NoNFTToStake));
    assert_eq!(stake(key(1), key(7), 1, key(2), 0, &mut u).unwrap_err(), SolJiError::Global(GlobalError::NotNFTOwner));
    let mut s = stake(key(1), key(7), 1, key(1), 0, &mut u).unwrap();
    assert_eq!(u.stake_count, 1);
    assert_eq!((s.status, s.stake_start_time), (0, 0));
    assert_eq!(unstake_request(6 * DAY, &mut s), Err(SolJiError::Global(GlobalError::CantUnstakeYet)));
    assert_eq!(unstake_request(7 * DAY, &mut s), Ok(7));
    assert_eq!((s.status, s.requst_unstake_time), (1, 7 * DAY));
    assert_eq!(unstake_request(8 * DAY, &mut s), Err(SolJiError::Global(GlobalError::UnstakeRequestStatusError)));
    assert_eq!(
        unstake_confirm(7 * DAY + 2_879, &mut s, &mut u, &mut t),
        Err(SolJiError::Global(GlobalError::UnstakeTooSoon))
    );
    assert_eq!(unstake_confirm(7 * DAY + 2_880, &mut s, &mut u, &mut t), Ok((7, 30)));
    assert_eq!((u.merit_value, t.total_merit_value, s.status), (30, 30, 2));
    assert_eq!(
        unstake_confirm(9 * DAY, &mut s, &mut u, &mut t),
        Err(SolJiError::Global(GlobalError::UnstackConfirmStatusError))
    );
}

#[test]
fn sbt_nft_once_per_donor() {
    let mut c = SbtNftCount { count: 0 };
    let mut u = create_user(key(1));
    u.donate_amount = 499_999_999;
    assert_eq!(mint_sbt_nft(&mut c, &mut u).unwrap_err(), SolJiError::Nft(NftErrorCode::DonateAmountNotEnough));
    u.donate_amount = 500_000_000;
    let a = mint_sbt_nft(&mut c, &mut u).unwrap();
    assert_eq!(a.name, "Buddha Statue NFT#1");
    assert_eq!((a.symbol.as_str(), a.url.as_str()), ("SBT", "https://solji.io/"));
    assert_eq!(c.count, 1);
    assert!(u.has_sbt_token);
    assert_eq!(mint_sbt_nft(&mut c, &mut u).unwrap_err(), SolJiError::Nft(NftErrorCode::HasSbtToken));
    let mut full = SbtNftCount { count: 10_001 };
    let mut v = create_user(key(2));
    assert_eq!(mint_sbt_nft(&mut full, &mut v).unwrap_err(), SolJiError::Nft(NftErrorCode::NftCountOver));
}

#[test]
fn collection_metadata() {
    let a = burn_incense_nft_mint(2).unwrap();
    assert_eq!(a.name, "Merit Incense NFT: Ambergris");
    assert!(!a.is_mutable);
    assert_eq!(burn_incense_nft_mint(7).unwrap_err(), SolJiError::Global(GlobalError::InvalidIncenseType));
    assert_eq!(draw_mint_nft().name, "Omikuji NFT");
    assert_eq!(wish_mint_nft().symbol, "Ema");
    assert_eq!(amulet_mint_nft(1).unwrap().name, "FortuneOmikuji ");
    assert_eq!(amulet_mint_nft(4).unwrap_err(), SolJiError::Global(GlobalError::InvalidLevel));
}

#[test]
fn lot_rewards() {
    assert_eq!(lottery_reward(LotteryType::ExcellentLuck), 3);
    assert_eq!(lottery_reward(LotteryType::TerribleLuck), 2);
}

#[test]
fn burns_beyond_ten_use_donated_sticks() {
    let rules = initialize(key(9));
    let mut u = create_user(key(1));
    let mut t = create_temple(key(9));
    incense_buy(&rules, &mut u, 0, 20).unwrap();
    for _ in 0..10 {
        incense_burn(&burn_env(0), &rules, &mut u, &mut t, 0, 0).unwrap();
    }
    assert_eq!((u.burn_count[0], u.incense_buy_count[0]), (10, 10));
    assert_eq!(
        incense_burn(&burn_env(0), &rules, &mut u, &mut t, 0, 0),
        Err(SolJiError::Burn(BurnCode::TooManyBurns))
    );
    u.incense_donate_count[0] = 2;
    incense_burn(&burn_env(0), &rules, &mut u, &mut t, 0, 0).unwrap();
    assert_eq!((u.burn_count[0], u.incense_buy_count[0], u.incense_donate_count[0]), (11, 10, 1));
}
