use solji::temple::donation::distribute_buddha_nfts;
use solji::temple::incense::{create_nft_mint, init_incense_nft, mint_nft_to_user, update_nft_uri};
use solji::temple::donation::init_donation_leaderboard;
use solji::temple::fortune::generate_fortune_result;
use solji::temple::admin::{
    create_temple_config, init_fortune_config, update_fortune_config, update_incense_types,
    update_temple_levels, update_temple_status, update_temple_status_by_bit,
};
use solji::temple::amulet::{
    calculate_staking_reward, mint_amulet_nft, stake_medal_nft, unstake_medal_nft,
};
use solji::temple::config::{
    find_incense_type, next_level_requirements, FortuneConfig, IncenseType, TempleLevelConfig,
};
use solji::temple::donation::{
    claim_buddha_nft, donate, donate_fund, mint_buddha_nft, mint_medal_nft, BadgeAction,
    MedalNftAction,
};
use solji::temple::errors::{
    BuddhaNftError, BurnIncenseError, BuyIncenseError, DonationError, ErrorCode, TempleError,
    TempleProgramError, UserError,
};
use solji::temple::fortune::{
    draw_fortune, fallback_random_value, fortune_from_random, random_value_from_account,
    share_fortune, FortuneResult,
};
use solji::temple::incense::{
    burn_incense, burn_incense_simplied, buy_incense, default_incense_types, BuyIncenseItem,
    IncenseTypeConfig,
};
use solji::temple::shop::{
    get_shop_items, purchase_item, update_shop_items, PurchaseEffect, ShopConfig, ShopItem,
    ShopItemType,
};
use solji::temple::state::{AmuletNft, GlobalStats, MedalNft, UserDonationState, UserIncenseState, UserState};
use solji::Pubkey;

fn pk(b: u8) -> Pubkey {
    Pubkey::new_from_array([b; 32])
}

fn user_state() -> UserState {
    UserState {
        user: pk(3),
        has_buddha_nft: false,
        has_medal_nft: false,
        has_minted_badge_nft: false,
        pending_amulets: 0,
        total_donation_amount: 0,
        total_spending: 0,
        buy_count: 0,
    }
}

fn incense_state() -> UserIncenseState {
    UserIncenseState { user: pk(3), incense_points: 0, merit: 0, incense_number: 0, incense_balance: [0; 6] }
}

fn donation_state(amount: u64, count: u64) -> UserDonationState {
    UserDonationState { user: pk(3), donation_amount: amount, donation_level: 0, total_donation_count: count, last_donation_time: 0 }
}

fn medal() -> MedalNft {
    MedalNft { owner: pk(0), mint: pk(0), level: 0, total_donation: 0, minted_at: 0, last_upgrade: 0, merit: 0, serial_number: 0 }
}

fn stats() -> GlobalStats {
    GlobalStats::new(pk(8), 0)
}

fn code(c: ErrorCode) -> TempleProgramError {
    TempleProgramError::Code(c)
}

fn fortune(a: u8, b: u8, c: u8, d: u8, e: u8) -> FortuneConfig {
    FortuneConfig {
        great_luck_prob: a,
        good_luck_prob: b,
        neutral_prob: c,
        bad_luck_prob: d,
        great_bad_luck_prob: e,
    }
}

fn level(l: u8) -> TempleLevelConfig {
    TempleLevelConfig {
        level: l,
        required_incense_points: 100 * l as u64,
        required_draw_fortune: 10,
        required_wishes: 20,
        required_donations_sol: 3,
        required_fortune_nfts: 4,
    }
}

#[test]
fn fortune_bands() {
    assert_eq!(fortune_from_random(0), FortuneResult::GreatLuck);
    assert_eq!(fortune_from_random(4), FortuneResult::GreatLuck);
    assert_eq!(fortune_from_random(5), FortuneResult::Lucky);
    assert_eq!(fortune_from_random(34), FortuneResult::Good);
    assert_eq!(fortune_from_random(64), FortuneResult::Normal);
    assert_eq!(fortune_from_random(84), FortuneResult::Nobad);
    assert_eq!(fortune_from_random(94), FortuneResult::Bad);
    assert_eq!(fortune_from_random(99), FortuneResult::VeryBad);
    assert_eq!(fortune_from_random(200), FortuneResult::Normal);
    assert_eq!(FortuneResult::GreatLuck.as_str(), "大吉");
    assert_eq!(FortuneResult::VeryBad.get_description(), "凶险重重，静待时机");
}

#[test]
fn fortune_band_sizes() {
    let mut counts = [0u32; 7];
    for v in 0u8..100 {
        let i = match fortune_from_random(v) {
            FortuneResult::GreatLuck => 0,
            FortuneResult::Lucky => 1,
            FortuneResult::Good => 2,
            FortuneResult::Normal => 3,
            FortuneResult::Nobad => 4,
            FortuneResult::Bad => 5,
            FortuneResult::VeryBad => 6,
        };
        counts[i] += 1;
    }
    assert_eq!(counts, [5, 10, 20, 30, 20, 10, 5]);
}

#[test]
fn randomness_for_fortunes() {
    let mut d = vec![0u8; 16];
    d[0] = 0x2c;
    d[1] = 0x01;
    assert_eq!(random_value_from_account(&d), Ok(0));
    d[0] = 0x2d;
    assert_eq!(random_value_from_account(&d), Ok(1));
    assert_eq!(
        random_value_from_account(&d[..15]),
        Err(TempleProgramError::User(UserError::InvalidRandomnessAccount))
    );
    assert_eq!(fallback_random_value(1_000, 23), 23);
}

#[test]
fn drawing_fortunes() {
    let r = draw_fortune(0, 0, None, 1_000, 0).unwrap();
    assert!(r.is_free_draw);
    assert_eq!((r.reduce_karma_points, r.reward_karma_points, r.current_timestamp), (0, 2, 1_000));
    assert_eq!(r.fortune, FortuneResult::GreatLuck);
    assert_eq!(
        draw_fortune(1, 4, None, 1_000, 7),
        Err(TempleProgramError::User(UserError::NotEnoughKarmaPoints))
    );
    let data = [99u8; 16];
    let r2 = draw_fortune(1, 5, Some(&data[..]), 1_000, 7).unwrap();
    assert!(!r2.is_free_draw);
    assert_eq!(r2.reduce_karma_points, 5);
    let short = [0u8; 8];
    assert_eq!(
        draw_fortune(0, 0, Some(&short[..]), 1_000, 7),
        Err(TempleProgramError::User(UserError::InvalidRandomnessAccount))
    );
}

#[test]
fn sharing_fortunes() {
    assert_eq!(share_fortune(86_400, 0), Ok(1));
    assert_eq!(share_fortune(86_401, 0), Err(code(ErrorCode::ShareTooLate)));
}

#[test]
fn default_incense_and_lookup() {
    let v = default_incense_types();
    assert_eq!(v.len(), 6);
    assert_eq!(v[3].name, "Supreme Spirit");
    assert_eq!((v[4].price_lamports, v[4].is_donation), (10_000_000_000, true));
    assert_eq!(find_incense_type(&v, 6), Some(5));
    assert_eq!(find_incense_type(&v, 7), None);
}

#[test]
fn burning_incense_at_the_temple() {
    let v = default_incense_types();
    let who = pk(3);
    let mut inc = incense_state();
    let mut g = stats();
    // (now + first address byte) mod 100 = (1001 + 3) mod 100 = 4: a fortune amulet.
    let p = burn_incense(Ok(()), &v, 1, Ok(()), 2, 10_000_000, 30_000_000, 1_001, who, &mut inc, &mut g).unwrap();
    assert_eq!(p.total_fee, 20_000_000);
    assert_eq!((p.incense_points, p.merit, p.incense_number_added), (200, 20, 2));
    assert_eq!((p.amulet_dropped, p.amulet_type), (true, 0));
    assert_eq!((inc.incense_number, inc.incense_points, inc.merit), (2, 200, 20));
    assert_eq!((g.total_incense_points, g.total_merit), (200, 20));
    let p2 = burn_incense(Ok(()), &v, 1, Ok(()), 2, 10_000_000, 30_000_000, 1_002, who, &mut inc, &mut g).unwrap();
    assert!(!p2.amulet_dropped);
    assert_eq!((inc.incense_number, inc.incense_points, g.total_merit), (4, 400, 40));
    let p5 = burn_incense(Ok(()), &v, 5, Ok(()), 1, 1, 1, 1_006, who, &mut inc, &mut g).unwrap();
    assert_eq!((p5.amulet_dropped, p5.amulet_type), (true, 2));
    assert_eq!((inc.incense_number, inc.incense_points, inc.merit), (5, 15_400, 5_040));
    assert_eq!(burn_incense(Ok(()), &v, 9, Ok(()), 1, 1, 1, 0, who, &mut inc, &mut g).unwrap_err(), code(ErrorCode::InvalidIncenseId));
    assert_eq!(burn_incense(Ok(()), &v, 1, Ok(()), 0, 1, 1, 0, who, &mut inc, &mut g).unwrap_err(), code(ErrorCode::InvalidAmount));
    assert_eq!(burn_incense(Ok(()), &v, 1, Ok(()), 2, u64::MAX, u64::MAX, 0, who, &mut inc, &mut g).unwrap_err(), code(ErrorCode::MathOverflow));
    assert_eq!(burn_incense(Ok(()), &v, 1, Ok(()), 2, 10, 19, 0, who, &mut inc, &mut g).unwrap_err(), code(ErrorCode::InsufficientSolBalance));
    let refused = code(ErrorCode::InvalidOwner);
    assert_eq!(burn_incense(Err(refused), &v, 1, Ok(()), 2, 1, 9, 0, who, &mut inc, &mut g).unwrap_err(), refused);
    let limit = code(ErrorCode::ExceedDailyIncenseLimit);
    assert_eq!(burn_incense(Ok(()), &v, 1, Err(limit), 2, 1, 9, 0, who, &mut inc, &mut g).unwrap_err(), limit);
    assert_eq!(burn_incense(Ok(()), &v, 9, Err(limit), 2, 1, 9, 0, who, &mut inc, &mut g).unwrap_err(), code(ErrorCode::InvalidIncenseId));
    assert_eq!((inc.incense_number, inc.incense_points, g.total_incense_points), (5, 15_400, 15_400));
}

fn incense_config(id: u8) -> IncenseTypeConfig {
    IncenseTypeConfig {
        incense_type_id: id,
        price_per_unit: 1_000,
        karma_reward: 7,
        incense_value: 9,
        is_active: true,
        max_buy_per_transaction: 10,
        minted_count: 0,
    }
}

#[test]
fn burning_by_incense_configuration() {
    let c = incense_config(1);
    let p = burn_incense_simplied(&c, 3, 3_000, 5_000, 1).unwrap();
    assert_eq!((p.total_paid, p.karma_reward, p.incense_value, p.amount), (3_000, 7, 9, 3));
    let e = |x| TempleProgramError::BurnIncense(x);
    assert_eq!(burn_incense_simplied(&c, 0, 0, 0, 1).unwrap_err(), e(BurnIncenseError::InvalidAmount));
    assert_eq!(burn_incense_simplied(&c, 11, 0, 0, 1).unwrap_err(), e(BurnIncenseError::InvalidAmount));
    assert_eq!(burn_incense_simplied(&c, 3, 2_999, 5_000, 1).unwrap_err(), e(BurnIncenseError::InvalidPaymentAmount));
    assert_eq!(burn_incense_simplied(&c, 3, 3_000, 2_999, 1).unwrap_err(), e(BurnIncenseError::NotEnoughSol));
    assert_eq!(burn_incense_simplied(&c, 3, 3_000, 3_000, 0).unwrap_err(), e(BurnIncenseError::DailyBurnLimitExceeded));
    let off = IncenseTypeConfig { is_active: false, ..c };
    assert_eq!(burn_incense_simplied(&off, 3, 3_000, 3_000, 1).unwrap_err(), e(BurnIncenseError::InactiveIncenseType));
}

fn line(id: u8, quantity: u32, subtotal: u64) -> BuyIncenseItem {
    BuyIncenseItem { incense_type_id: id, quantity, unit_price: 1_000, subtotal }
}

fn buy(items: &Vec<BuyIncenseItem>, configs: &[IncenseTypeConfig], balance: u64) -> Result<u64, TempleProgramError> {
    let checks = vec![Ok(()); items.len()];
    let mut cfgs = configs.to_vec();
    buy_incense(items, &checks, &mut cfgs, Ok(()), balance, &mut user_state(), &mut incense_state())
}

#[test]
fn buying_incense_lines() {
    let configs = vec![incense_config(1), incense_config(2)];
    let items = vec![line(1, 2, 2_000), line(2, 3, 3_000)];
    assert_eq!(buy(&items, &configs, 5_000), Ok(5_000));
    let e = |x| Err(TempleProgramError::BuyIncense(x));
    assert_eq!(buy(&items, &configs, 4_999), e(BuyIncenseError::InsufficientPayment));
    assert_eq!(buy(&vec![], &configs, 0), e(BuyIncenseError::EmptyBuyIncenseList));
    assert_eq!(buy(&vec![line(1, 1, 1); 7], &configs, 0), e(BuyIncenseError::TooManyBuyIncenseItems));
    assert_eq!(buy(&vec![line(2, 1, 1)], &configs, 9), e(BuyIncenseError::InvalidIncenseType));
    assert_eq!(buy(&vec![line(1, 11, 1)], &configs, 9), e(BuyIncenseError::InvalidQuantity));
    let mut wrong_price = line(1, 1, 1);
    wrong_price.unit_price = 1;
    assert_eq!(buy(&vec![wrong_price], &configs, 9), e(BuyIncenseError::InvalidPrice));
    assert_eq!(buy(&vec![line(1, 1, u64::MAX), line(2, 1, 1)], &configs, 9), e(BuyIncenseError::InvalidSubtotal));
    let inactive = vec![IncenseTypeConfig { is_active: false, ..incense_config(1) }];
    assert_eq!(buy(&vec![line(1, 1, 1)], &inactive, 9), e(BuyIncenseError::IncenseTypeNotAvailable));
}

#[test]
fn buying_incense_fills_the_balances() {
    let mut configs = vec![incense_config(1), incense_config(2)];
    let items = vec![line(1, 2, 2_000), line(2, 3, 3_000)];
    let checks = vec![Ok(()), Ok(())];
    let mut u = user_state();
    u.total_spending = 100;
    let mut inc = incense_state();
    inc.incense_balance[1] = 4;
    assert_eq!(buy_incense(&items, &checks, &mut configs, Ok(()), 5_000, &mut u, &mut inc), Ok(5_000));
    assert_eq!(inc.incense_balance, [2, 7, 0, 0, 0, 0]);
    assert_eq!((configs[0].minted_count, configs[1].minted_count), (2, 3));
    assert_eq!((u.total_spending, u.buy_count), (5_100, 1));
    // A failed line check, a failed daily reset or a short balance changes nothing.
    let bad_checks = vec![Ok(()), Err(code(ErrorCode::InvalidAmount))];
    assert_eq!(buy_incense(&items, &bad_checks, &mut configs, Ok(()), 5_000, &mut u, &mut inc), Err(code(ErrorCode::InvalidAmount)));
    assert_eq!(buy_incense(&items, &checks, &mut configs, Err(code(ErrorCode::MathOverflow)), 5_000, &mut u, &mut inc), Err(code(ErrorCode::MathOverflow)));
    assert_eq!(buy_incense(&items, &checks, &mut configs, Ok(()), 4_999, &mut u, &mut inc), Err(TempleProgramError::BuyIncense(BuyIncenseError::InsufficientPayment)));
    assert_eq!(inc.incense_balance, [2, 7, 0, 0, 0, 0]);
    assert_eq!((configs[0].minted_count, u.total_spending, u.buy_count), (2, 5_100, 1));
    // Balances that would overflow are refused.
    inc.incense_balance[0] = u64::MAX;
    assert_eq!(buy_incense(&items, &checks, &mut configs, Ok(()), 5_000, &mut u, &mut inc), Err(code(ErrorCode::MathOverflow)));
    // A spending total that would overflow is refused.
    inc.incense_balance[0] = 0;
    u.total_spending = u64::MAX - 4_999;
    assert_eq!(buy_incense(&items, &checks, &mut configs, Ok(()), 5_000, &mut u, &mut inc), Err(code(ErrorCode::MathOverflow)));
    assert_eq!(inc.incense_balance, [0, 7, 0, 0, 0, 0]);
}

fn item(id: u8, item_type: ShopItemType, available: bool) -> ShopItem {
    ShopItem {
        id,
        name: format!("item{}", id),
        description: String::from("d"),
        price: 500,
        stock: 3,
        is_available: available,
        item_type,
        has_incense_config: true,
    }
}

#[test]
fn shop_purchases() {
    let shop = ShopConfig {
        shop_items: vec![
            item(1, ShopItemType::Incense, true),
            item(101, ShopItemType::Amulet, true),
            item(7, ShopItemType::Prop, true),
            item(8, ShopItemType::Special, false),
            item(103, ShopItemType::Amulet, true),
        ],
        updated_at: 0,
    };
    let mut inc = incense_state();
    let p = purchase_item(Ok(()), &shop, 1, 2, 1_000, &mut inc).unwrap();
    assert_eq!(p.total_price, 1_000);
    assert_eq!(p.effect, PurchaseEffect::AddIncense { item_id: 1, quantity: 2 });
    assert_eq!(inc.incense_balance, [2, 0, 0, 0, 0, 0]);
    assert_eq!(purchase_item(Ok(()), &shop, 101, 1, 500, &mut inc).unwrap().effect, PurchaseEffect::AmuletDropped { amulet_type: 1 });
    assert_eq!(purchase_item(Ok(()), &shop, 7, 3, 1_500, &mut inc).unwrap().effect, PurchaseEffect::NoEffect);
    assert_eq!(purchase_item(Ok(()), &shop, 1, 0, 1_000, &mut inc).unwrap_err(), code(ErrorCode::InvalidAmount));
    assert_eq!(purchase_item(Ok(()), &shop, 2, 1, 1_000, &mut inc).unwrap_err(), code(ErrorCode::InvalidShopItemId));
    assert_eq!(purchase_item(Ok(()), &shop, 8, 1, 1_000, &mut inc).unwrap_err(), code(ErrorCode::ShopItemNotAvailable));
    assert_eq!(purchase_item(Ok(()), &shop, 1, 4, 10_000, &mut inc).unwrap_err(), code(ErrorCode::InsufficientStock));
    assert_eq!(purchase_item(Ok(()), &shop, 1, 2, 999, &mut inc).unwrap_err(), code(ErrorCode::InsufficientSolBalance));
    assert_eq!(purchase_item(Ok(()), &shop, 103, 1, 500, &mut inc).unwrap_err(), code(ErrorCode::InvalidShopItemId));
    assert_eq!(inc.incense_balance, [2, 0, 0, 0, 0, 0]);
    let refused = code(ErrorCode::InvalidOwner);
    assert_eq!(purchase_item(Err(refused), &shop, 1, 2, 1_000, &mut inc).unwrap_err(), refused);
    assert_eq!(inc.incense_balance, [2, 0, 0, 0, 0, 0]);
    let listed = get_shop_items(&shop);
    let ids: Vec<u8> = listed.iter().map(|i| i.id).collect();
    assert_eq!(ids, vec![1, 101, 7, 103]);
}

#[test]
fn updating_shop_items() {
    let mut shop = ShopConfig { shop_items: vec![], updated_at: 1 };
    assert_eq!(update_shop_items(&mut shop, vec![item(1, ShopItemType::Prop, true)], 9), Ok(()));
    assert_eq!((shop.shop_items.len(), shop.updated_at), (1, 9));
    let mut bad = item(2, ShopItemType::Prop, true);
    bad.price = 0;
    assert_eq!(update_shop_items(&mut shop, vec![bad], 10), Err(code(ErrorCode::InvalidShopItemId)));
    assert_eq!((shop.shop_items[0].id, shop.updated_at), (1, 9));
}

#[test]
fn temple_configuration_and_status() {
    let owner = Pubkey::new_from_array([1; 32]);
    let (mut c, g) = create_temple_config(owner, pk(7), Pubkey::new_from_array([2; 32]), 50, fortune(5, 15, 60, 15, 5), fortune(10, 20, 40, 20, 10), vec![level(2)]);
    assert_eq!((c.level, c.status, c.open_time, c.created_at), (1, 0, 50, 50));
    assert!(g.temple_config.key_eq(&pk(7)));
    assert_eq!((g.total_incense_points, g.total_merit, g.total_draw_fortune, g.total_wishes), (0, 0, 0, 0));
    assert_eq!((g.total_donations_lamports, g.total_users, g.total_fortune_nfts, g.total_amulets, g.total_buddha_lights, g.updated_at), (0, 0, 0, 0, 0, 50));
    assert_eq!(c.dynamic_config.incense_types.len(), 6);
    assert_eq!(update_temple_status_by_bit(&mut c, 4, true), Ok(()));
    assert_eq!(c.status, 0b10000);
    assert_eq!(update_temple_status_by_bit(&mut c, 0, true), Ok(()));
    assert_eq!(update_temple_status_by_bit(&mut c, 4, false), Ok(()));
    assert_eq!(c.status, 0b1);
    assert_eq!(update_temple_status_by_bit(&mut c, 6, true), Err(code(ErrorCode::InvalidAmount)));
    assert_eq!(c.status, 0b1);
    update_temple_status(&mut c, 7);
    assert_eq!(c.status, 7);
    let d = &mut c.dynamic_config;
    assert_eq!(update_fortune_config(d, fortune(5, 15, 60, 15, 6), fortune(10, 20, 40, 20, 10)), Err(code(ErrorCode::InvalidFortuneConfig)));
    assert_eq!(update_fortune_config(d, fortune(20, 20, 20, 20, 20), fortune(10, 20, 40, 20, 10)), Ok(()));
    assert_eq!(d.regular_fortune.neutral_prob, 20);
    assert_eq!(update_temple_levels(d, vec![level(5)]), Err(code(ErrorCode::InvalidTempleLevel)));
    assert_eq!(update_temple_levels(d, vec![level(1), level(4)]), Ok(()));
    let mut bad = default_incense_types();
    bad[2].name = String::new();
    assert_eq!(update_incense_types(d, bad), Err(code(ErrorCode::InvalidIncenseType)));
    assert_eq!(update_incense_types(d, vec![IncenseType { id: 9, name: String::from("x"), price_lamports: 1, merit: 1, incense_points: 1, is_donation: false }]), Ok(()));
    assert_eq!(d.incense_types.len(), 1);
    assert_eq!(init_fortune_config(fortune(0, 0, 100, 0, 0), fortune(1, 1, 1, 1, 1)), Err(code(ErrorCode::InvalidFortuneConfig)));
}

#[test]
fn next_temple_level() {
    let levels = vec![level(2), level(3), level(3)];
    let n = next_level_requirements(&levels, 2).unwrap();
    assert_eq!((n.target_level, n.required_incense_points), (3, 300));
    assert_eq!(next_level_requirements(&levels, 3), None);
}

#[test]
fn medal_nfts() {
    let mut u = user_state();
    let mut m = medal();
    let mut g = stats();
    let mut inc = incense_state();
    inc.merit = 70;
    let d = donation_state(2_000_000_000, 17);
    let p = mint_medal_nft(Ok(()), &mut u, &mut m, &mut g, &d, &inc, None, Some(2), pk(3), pk(5), 99).unwrap();
    assert_eq!(p.action, MedalNftAction::Mint);
    assert_eq!(p.name, "Diligent Silver Medal #17");
    assert_eq!(p.uri, "https://api.foxverse.co/temple/medal/2/metadata.json");
    assert!(!p.make_immutable);
    assert!(u.has_medal_nft);
    assert_eq!(g.total_fortune_nfts, 1);
    assert!(m.owner.key_eq(&pk(3)) && m.mint.key_eq(&pk(5)));
    assert_eq!((m.level, m.total_donation, m.minted_at, m.last_upgrade, m.merit, m.serial_number), (2, 2_000_000_000, 99, 99, 70, 17));
    let d2 = donation_state(9_000_000_000, 18);
    let up = mint_medal_nft(Ok(()), &mut u, &mut m, &mut g, &d2, &inc, Some(4), None, pk(3), pk(6), 120).unwrap();
    assert_eq!((up.action, up.name.as_str(), up.make_immutable), (MedalNftAction::Upgrade, "Supreme Dragon Medal #17", true));
    assert_eq!((m.level, m.total_donation, m.minted_at, m.last_upgrade, m.serial_number), (4, 9_000_000_000, 99, 120, 17));
    assert!(m.mint.key_eq(&pk(5)));
    assert_eq!(g.total_fortune_nfts, 1);
    assert_eq!(mint_medal_nft(Ok(()), &mut u, &mut m, &mut g, &d2, &inc, None, Some(1), pk(3), pk(5), 130).unwrap_err(), code(ErrorCode::InsufficientDonationForUpgrade));
    assert_eq!(m.last_upgrade, 120);
    let mut fresh = user_state();
    assert_eq!(mint_medal_nft(Ok(()), &mut fresh, &mut medal(), &mut g, &d, &inc, None, None, pk(3), pk(5), 0).unwrap_err(), code(ErrorCode::InsufficientDonationForMedal));
    assert!(!fresh.has_medal_nft);
    assert_eq!(g.total_fortune_nfts, 1);
}

#[test]
fn donations_to_the_temple() {
    let mut u = user_state();
    let mut d = donation_state(0, 0);
    let mut inc = incense_state();
    let mut g = stats();
    let mut m = medal();
    assert_eq!(donate(Ok(()), 999, &mut u, &mut d, &mut inc, &mut g, &mut m, 1, 1, Some(1), pk(3), pk(5), 7).unwrap_err(), code(ErrorCode::InvalidAmount));
    assert_eq!(donate(Ok(()), 0, &mut u, &mut d, &mut inc, &mut g, &mut m, 1, 1, Some(1), pk(3), pk(5), 7).unwrap_err(), code(ErrorCode::InvalidAmount));
    assert_eq!((d.donation_amount, g.total_donations_lamports), (0, 0));
    let p = donate(Ok(()), 1_000, &mut u, &mut d, &mut inc, &mut g, &mut m, 4, 6, Some(1), pk(3), pk(5), 7).unwrap().unwrap();
    assert_eq!(p.name, "入门功德铜章 #1");
    assert_eq!((d.donation_amount, d.total_donation_count), (1_000, 1));
    assert_eq!((inc.merit, inc.incense_points), (4, 6));
    assert_eq!((g.total_donations_lamports, g.total_merit, g.total_incense_points), (1_000, 4, 6));
    assert!(u.has_medal_nft);
    assert_eq!((m.level, m.serial_number, m.total_donation, m.merit, m.minted_at), (1, 1, 1_000, 4, 7));
    assert_eq!(g.total_fortune_nfts, 0);
    assert!(donate(Ok(()), 1_000, &mut u, &mut d, &mut inc, &mut g, &mut m, 0, 0, Some(3), pk(3), pk(5), 8).unwrap().is_none());
    assert_eq!((d.donation_amount, d.total_donation_count, m.level, m.minted_at), (2_000, 2, 1, 7));
    assert_eq!((inc.merit, g.total_donations_lamports), (4, 2_000));
}

#[test]
fn donating_to_the_fund() {
    let mut u = user_state();
    u.has_minted_badge_nft = true;
    let f = donate_fund(5_000_000_000, 6_000_000_000, &mut u, 2, 4, 10, 20, 99).unwrap();
    assert_eq!(f.badge_action, BadgeAction::Update { make_immutable: true });
    assert_eq!(f.badge_uri, "https://api.foxverse.co/temple/badge/4/metadata.json");
    assert!(f.airdrop_incense);
    assert_eq!((f.result.reward_karma_points, f.result.reward_incense_value, f.result.donation_amount, f.result.current_timestamp), (10, 20, 5_000_000_000, 99));
    assert_eq!(u.total_donation_amount, 5_000_000_000);
    let mut fresh = user_state();
    assert_eq!(donate_fund(1, 1, &mut fresh, 0, 0, 0, 0, 0).unwrap().badge_action, BadgeAction::Mint);
    assert!(fresh.has_minted_badge_nft);
    // The badge is minted once: the next donation only updates or keeps it.
    assert_eq!(donate_fund(1, 1, &mut fresh, 0, 0, 0, 0, 0).unwrap().badge_action, BadgeAction::Unchanged);
    assert_eq!(donate_fund(1, 1, &mut fresh, 0, 1, 0, 0, 0).unwrap().badge_action, BadgeAction::Update { make_immutable: false });
    assert_eq!(fresh.total_donation_amount, 3);
    assert_eq!(donate_fund(1, 1, &mut u, 1, 1, 0, 0, 0).unwrap().badge_action, BadgeAction::Unchanged);
    assert_eq!(donate_fund(0, 1, &mut u, 1, 1, 0, 0, 0).unwrap_err(), TempleProgramError::Donation(DonationError::InvalidDonationAmount));
    assert_eq!(donate_fund(2, 1, &mut u, 1, 1, 0, 0, 0).unwrap_err(), TempleProgramError::Donation(DonationError::InsufficientPayment));
    assert_eq!(u.total_donation_amount, 5_000_000_001);
}

#[test]
fn buddha_nfts() {
    let p = mint_buddha_nft(41, true, true).unwrap();
    assert_eq!((p.serial_number, p.name.as_str()), (41, "Buddha NFT #41"));
    assert_eq!(mint_buddha_nft(10_000, true, true).unwrap_err(), TempleProgramError::Temple(TempleError::BuddhaNftCountOverflow));
    assert_eq!(mint_buddha_nft(1, false, true).unwrap_err(), TempleProgramError::BuddhaNft(BuddhaNftError::UserCannotMintBuddhaNft));
    assert_eq!(mint_buddha_nft(1, true, false).unwrap_err(), TempleProgramError::BuddhaNft(BuddhaNftError::UserAlreadyMintedBuddhaNft));
    let mut has = false;
    assert_eq!(claim_buddha_nft(false, true, &mut has), Err(code(ErrorCode::NotApproved)));
    assert_eq!(claim_buddha_nft(true, false, &mut has), Err(code(ErrorCode::InsufficientDonation)));
    assert!(!has);
    assert_eq!(claim_buddha_nft(true, true, &mut has), Ok(()));
    assert!(has);
    assert_eq!(claim_buddha_nft(true, true, &mut has), Err(code(ErrorCode::UserHasBuddhaNFT)));
}

fn amulet() -> AmuletNft {
    AmuletNft { owner: pk(0), mint: pk(0), name: String::new(), description: String::new(), minted_at: 0, source: 0, serial_number: 0 }
}

#[test]
fn amulet_nfts() {
    let mut pending = 1u32;
    let mut total = 12u64;
    let mut a = amulet();
    let mut g = stats();
    let p = mint_amulet_nft(Ok(()), &mut pending, &mut total, &mut a, &mut g, pk(3), pk(5), 77, 1).unwrap();
    assert_eq!((pending, total), (0, 13));
    assert_eq!(p.serial_number, 12);
    assert_eq!(p.name, "御守 #12");
    assert_eq!(p.description, "通过许愿获得的祝福御守");
    assert_eq!(p.uri, "https://api.foxverse.co/temple/amulet/12/metadata.json");
    assert_eq!((p.symbol.as_str(), p.seller_fee_basis_points), ("AMULET", 500));
    assert!(a.owner.key_eq(&pk(3)) && a.mint.key_eq(&pk(5)));
    assert_eq!((a.name.as_str(), a.description.as_str()), ("御守 #12", "通过许愿获得的祝福御守"));
    assert_eq!((a.minted_at, a.source, a.serial_number), (77, 1, 12));
    assert_eq!(g.total_amulets, 1);
    assert_eq!(mint_amulet_nft(Ok(()), &mut pending, &mut total, &mut a, &mut g, pk(3), pk(5), 78, 0).unwrap_err(), code(ErrorCode::InsufficientPendingAmulets));
    let refused = code(ErrorCode::InvalidOwner);
    pending = 1;
    assert_eq!(mint_amulet_nft(Err(refused), &mut pending, &mut total, &mut a, &mut g, pk(3), pk(5), 78, 0).unwrap_err(), refused);
    assert_eq!((pending, total, g.total_amulets, a.minted_at), (1, 13, 1, 77));
}

#[test]
fn fortune_split_over_all_values() {
    let mut counts = [0u32; 7];
    for v in 0u8..100 {
        let k = match fortune_from_random(v) {
            FortuneResult::GreatLuck => 0,
            FortuneResult::Lucky => 1,
            FortuneResult::Good => 2,
            FortuneResult::Normal => 3,
            FortuneResult::Nobad => 4,
            FortuneResult::Bad => 5,
            FortuneResult::VeryBad => 6,
        };
        counts[k] += 1;
    }
    assert_eq!(counts, [5, 10, 20, 30, 20, 10, 5]);
    assert_eq!(fortune_from_random(100), FortuneResult::Normal);
    assert_eq!(fortune_from_random(255), FortuneResult::Normal);
}

#[test]
fn badge_minted_once_over_a_run_of_fund_donations() {
    let mut u = user_state();
    let levels = [(0, 1), (1, 1), (1, 3), (3, 4), (4, 4)];
    let mut actions = Vec::new();
    for (old_level, new_level) in levels {
        actions.push(donate_fund(1, 1, &mut u, old_level, new_level, 0, 0, 0).unwrap().badge_action);
    }
    assert_eq!(
        actions,
        vec![
            BadgeAction::Mint,
            BadgeAction::Unchanged,
            BadgeAction::Update { make_immutable: false },
            BadgeAction::Update { make_immutable: true },
            BadgeAction::Unchanged,
        ]
    );
    assert_eq!(u.total_donation_amount, 5);
}

#[test]
fn status_refusal_stops_donations_and_medals() {
    let refused = code(ErrorCode::InvalidOwner);
    let mut u = user_state();
    let mut d = donation_state(0, 0);
    let mut inc = incense_state();
    let mut g = stats();
    let mut m = medal();
    assert_eq!(donate(Err(refused), 5_000, &mut u, &mut d, &mut inc, &mut g, &mut m, 1, 1, Some(1), pk(3), pk(5), 7).unwrap_err(), refused);
    assert_eq!((d.donation_amount, g.total_donations_lamports, u.has_medal_nft), (0, 0, false));
    let dd = donation_state(2_000_000_000, 17);
    assert_eq!(mint_medal_nft(Err(refused), &mut u, &mut m, &mut g, &dd, &inc, None, Some(2), pk(3), pk(5), 99).unwrap_err(), refused);
    assert_eq!((u.has_medal_nft, m.level, g.total_fortune_nfts), (false, 0, 0));
}

#[test]
fn medal_staking() {
    assert_eq!(calculate_staking_reward(604_799), 0);
    assert_eq!(calculate_staking_reward(604_800), 30);
    assert_eq!(calculate_staking_reward(3 * 604_800 + 5), 90);
    let mut at = None;
    assert_eq!(stake_medal_nft(false, &mut at, 5), Err(code(ErrorCode::UserDoesNotHaveMedalNFT)));
    assert_eq!(stake_medal_nft(true, &mut at, 5), Ok(()));
    assert_eq!(at, Some(5));
    assert_eq!(stake_medal_nft(true, &mut at, 6), Err(code(ErrorCode::MedalAlreadyStaked)));
    assert_eq!(unstake_medal_nft(&mut at, 5 + 2 * 604_800), Ok(60));
    assert_eq!(at, None);
    assert_eq!(unstake_medal_nft(&mut at, 9), Err(code(ErrorCode::MedalNotStaked)));
    let mut short = Some(0);
    assert_eq!(unstake_medal_nft(&mut short, 100), Ok(0));
}

#[test]
fn error_messages() {
    assert_eq!(ErrorCode::ShareTooLate.msg(), "Share too late after fortune draw");
    assert_eq!(ErrorCode::MathOverflow.msg(), "Math overflow");
}

#[test]
fn incense_nft_collections() {
    let v = default_incense_types();
    assert_eq!(create_nft_mint(&v, 2).unwrap(), "Sandalwood NFT");
    assert_eq!(create_nft_mint(&v, 0).unwrap_err(), code(ErrorCode::InvalidIncenseId));
    let (name, uri) = update_nft_uri(&v, 6, String::from("https://x/6.json")).unwrap();
    assert_eq!((name.as_str(), uri.as_str()), ("Heavenly NFT", "https://x/6.json"));
    let owner = Pubkey::new_from_array([1; 32]);
    let other = Pubkey::new_from_array([2; 32]);
    assert_eq!(mint_nft_to_user(owner, owner, &v, 1), Ok(()));
    assert_eq!(mint_nft_to_user(owner, other, &v, 1), Err(code(ErrorCode::InvalidOwner)));
    assert_eq!(mint_nft_to_user(owner, owner, &v, 7), Err(code(ErrorCode::InvalidIncenseId)));
    assert_eq!(init_incense_nft(&String::from("Fresh")), "Fresh NFT");
}

#[test]
fn leaderboard_deadline_and_fortune_generation() {
    assert_eq!(init_donation_leaderboard(11, 10), Ok(11));
    assert_eq!(init_donation_leaderboard(10, 10), Err(code(ErrorCode::InvalidAmount)));
    assert_eq!(generate_fortune_result(None, 1_000, 99), Ok(FortuneResult::VeryBad));
    let mut d = [0u8; 16];
    d[0] = 40;
    assert_eq!(generate_fortune_result(Some(&d[..]), 0, 0), Ok(FortuneResult::Normal));
}

#[test]
fn buddha_distribution() {
    assert_eq!(distribute_buddha_nfts(false, 3), Err(code(ErrorCode::NotApproved)));
    assert_eq!(distribute_buddha_nfts(true, 0), Ok(None));
    assert_eq!(distribute_buddha_nfts(true, 3), Ok(Some(3)));
}
