//! Properties that hold across the program's operations.
use vstd::prelude::*;

use crate::pubkey::Pubkey;
use crate::solji::errors::{DrawLotsCode, GlobalError, SolJiError, WishCode};
use crate::solji::instructions::donate::spec_create_donate_record;
use crate::solji::instructions::draw_lots::{
    spec_commit,
    spec_committed,
    spec_draw_lots,
    spec_new_lot_day,
    DrawEnv,
};
use crate::solji::instructions::incense_burn::{
    spec_daily_reset,
    spec_incense_burn,
    spec_incense_buy,
    BurnEnv,
};
use crate::solji::instructions::donate::MedalAction;
use crate::solji::instructions::wish::{spec_create_wish, WishEnv};
use crate::solji::instructions::temple::spec_withdraw;
use crate::solji::states::incense_config::{spec_incense_from_code, spec_incense_index, IncenseRule};
use crate::solji::instructions::user::{spec_unstake_confirm, spec_unstake_request};
use crate::solji::states::donate::{
    spec_donation_tier,
    spec_medal_rank,
    spec_tier_medal,
    spec_tier_rewards,
    DonateCounter,
    MedalLevel,
};
use crate::solji::states::draw_lots::{LotteryType, PlayerState};
use crate::solji::states::nft_mint::{spec_hit, DENOM_BP};
use crate::solji::states::temple::{
    spec_add_amulet,
    spec_add_lottery,
    spec_add_stake_merit,
    spec_add_wealth,
    spec_add_wish,
    spec_burn_at_temple,
    spec_donate_at_temple,
    spec_upgraded,
    Temple,
    MAX_TEMPLE_LEVEL,
};
use crate::solji::states::user::{
    div_trunc,
    spec_duration_multiplier,
    spec_level_for_merit,
    spec_medal_multiplier,
    spec_stake_reward,
    spec_wish_fee,
    UserInfoView,
    UserStake,
};
use crate::solji::states::wish::{spec_tower_for, spec_tower_level};

verus! {

/// `b`'s level is `a`'s or one above, and never above the highest level
/// unless `a`'s already was.
pub open spec fn level_step(a: Temple, b: Temple) -> bool {
    &&& a.level <= b.level <= a.level + 1
    &&& a.level <= MAX_TEMPLE_LEVEL ==> b.level <= MAX_TEMPLE_LEVEL
}

/// Every running total of `b` is at least that of `a`, and the admin is the
/// same.
pub open spec fn totals_grow(a: Temple, b: Temple) -> bool {
    &&& b.admin == a.admin
    &&& a.total_incense_value <= b.total_incense_value
    &&& a.total_merit_value <= b.total_merit_value
    &&& a.total_burn_count <= b.total_burn_count
    &&& a.total_lottery_count <= b.total_lottery_count
    &&& a.total_wish_count <= b.total_wish_count
    &&& a.total_donate_amount <= b.total_donate_amount
    &&& a.total_donate_count <= b.total_donate_count
    &&& a.total_amulet_count <= b.total_amulet_count
    &&& a.buddha_nft_count <= b.buddha_nft_count
    &&& a.wealth <= b.wealth
}

/// Whether `b` is what some temple operation, successful or not, can leave of
/// `a`: its level moves up by at most one step and its totals only grow.
pub open spec fn temple_step(a: Temple, b: Temple) -> bool {
    level_step(a, b) && totals_grow(a, b)
}

/// The temple level never goes down, rises by at most one per operation and
/// never passes the highest level; the temple's totals never go down. This
/// holds of every temple operation, whether it succeeds or fails.
pub proof fn law_temple_operations_only_grow(t: Temple, incense: u64, merit: u64, amount: u64)
    ensures
        temple_step(t, spec_upgraded(t)),
        temple_step(t, spec_burn_at_temple(t, incense, merit).1),
        temple_step(t, spec_donate_at_temple(t, amount).1),
        temple_step(t, spec_add_lottery(t).1),
        temple_step(t, spec_add_wish(t).1),
        temple_step(t, spec_add_amulet(t).1),
        temple_step(t, spec_add_wealth(t, amount).1),
        temple_step(t, spec_add_stake_merit(t, merit).1),
{
}

/// The rewards attached to the medal a donation total earns are the rewards
/// the same amount earns as a single donation.
pub proof fn law_medal_reward_matches_donation_reward(amount: u64)
    ensures
        spec_tier_rewards(spec_medal_rank(spec_tier_medal(spec_donation_tier(amount))))
            == spec_tier_rewards(spec_donation_tier(amount)),
{
}

/// A larger donation never earns a lower medal, nor smaller rewards.
pub proof fn law_medal_and_rewards_monotone(a: u64, b: u64)
    requires
        a <= b,
    ensures
        spec_medal_rank(spec_tier_medal(spec_donation_tier(a))) <= spec_medal_rank(
            spec_tier_medal(spec_donation_tier(b)),
        ),
        spec_tier_rewards(spec_donation_tier(a)).0 <= spec_tier_rewards(spec_donation_tier(b)).0,
        spec_tier_rewards(spec_donation_tier(a)).1 <= spec_tier_rewards(spec_donation_tier(b)).1,
{
}

/// More wishes never mean a lower wish tower.
pub proof fn law_tower_monotone(a: u32, b: u32)
    requires
        a <= b,
    ensures
        spec_tower_level(spec_tower_for(a)) <= spec_tower_level(spec_tower_for(b)),
{
}

/// A chance of zero never hits, and a chance of the whole 10 000 basis
/// points always hits, whatever the seeds.
pub proof fn law_hit_extremes(seeds: Seq<Seq<u8>>, prob_bp: u32)
    ensures
        !spec_hit(0, seeds),
        prob_bp >= DENOM_BP ==> spec_hit(prob_bp, seeds),
{
}

/// A withdrawal that succeeds leaves at least the rent-exempt minimum in the
/// temple, and transfers exactly the requested amount.
pub proof fn law_withdraw_keeps_rent(lamports: u64, temple_lamports: u64, min_rent: u64)
    ensures
        spec_withdraw(lamports, temple_lamports, min_rent) matches Ok(left) ==> left >= min_rent
            && left + lamports == temple_lamports,
        lamports > 0 && temple_lamports >= min_rent + lamports ==> spec_withdraw(
            lamports,
            temple_lamports,
            min_rent,
        ) is Ok,
{
}

/// Once committed, the draw state refuses another commitment until a draw
/// settles it.
pub proof fn law_no_second_commit(
    p: PlayerState,
    key: Pubkey,
    seed_slot: u64,
    seed_slot2: u64,
    clock_slot: u64,
)
    ensures
        spec_commit(spec_committed(p, key, seed_slot), seed_slot2, clock_slot) is Err,
{
}

/// Only the first draw of a day (UTC+8) is free: after a successful draw, a
/// second draw the same day by a user left with less merit than the fee is
/// refused, and a successful second draw the same day costs the fee.
pub proof fn law_free_lot_once_a_day(
    env: DrawEnv,
    env2: DrawEnv,
    table: Seq<LotteryType>,
    u: UserInfoView,
    t: Temple,
    p: PlayerState,
    index: int,
    index2: int,
)
    requires
        spec_draw_lots(env, table, u, t, p, index).0 is Ok,
        !spec_new_lot_day(env.now_ts, env2.now_ts),
    ensures
        ({
            let (_, u1, t1, p1) = spec_draw_lots(env, table, u, t, p, index);
            let (r2, u2, _, _) = spec_draw_lots(env2, table, u1, t1, p1, index2);
            &&& u1.merit_value < 5 ==> r2 == Err::<LotteryType, SolJiError>(
                SolJiError::DrawLots(DrawLotsCode::Insufficient),
            )
            &&& r2 is Ok ==> u2.merit_value <= u1.merit_value - 5 + 3
        }),
{
}

/// The first three wishes of a day cost no merit.
pub proof fn law_three_free_wishes(u: UserInfoView, fee: u64)
    requires
        u.wish_daily_count < 3,
    ensures
        spec_wish_fee(u, fee) == (Ok::<(), SolJiError>(()), u),
{
}

/// A successful donation adds the donated amount to the user's lifetime
/// donation and to the temple's total alike, and counts it once in each.
pub proof fn law_donation_reaches_user_and_temple(
    authority: Pubkey,
    now_ts: i64,
    amount: u64,
    lamports: u64,
    c: DonateCounter,
    u: UserInfoView,
    t: Temple,
)
    requires
        spec_create_donate_record(authority, now_ts, amount, lamports, c, u, t).0 is Ok,
    ensures
        ({
            let (_, c1, u1, t1) = spec_create_donate_record(
                authority,
                now_ts,
                amount,
                lamports,
                c,
                u,
                t,
            );
            &&& u1.donate_amount == u.donate_amount + amount
            &&& t1.total_donate_amount == t.total_donate_amount + amount
            &&& u1.donate_count == u.donate_count + 1
            &&& t1.total_donate_count == t.total_donate_count + 1
            &&& c1.count == c.count + 1
        }),
{
}

/// A stake ends once: a requested unstake cannot be requested again, and a
/// confirmed one cannot be confirmed again.
pub proof fn law_unstake_once(s: UserStake, u: UserInfoView, t: Temple, now: i64, now2: i64)
    ensures
        spec_unstake_request(s, now).0 is Ok ==> spec_unstake_request(
            spec_unstake_request(s, now).1,
            now2,
        ).0 == Err::<i64, SolJiError>(SolJiError::Global(GlobalError::UnstakeRequestStatusError)),
        ({
            let (r, s1, u1, t1) = spec_unstake_confirm(s, u, t, now);
            r is Ok ==> spec_unstake_confirm(s1, u1, t1, now2).0 == Err::<(i64, u64), SolJiError>(
                SolJiError::Global(GlobalError::UnstackConfirmStatusError),
            )
        }),
{
}

/// The staking reward never falls with a higher medal, and is at most 150
/// merit.
pub proof fn law_stake_reward_by_medal(a: MedalLevel, b: MedalLevel, day: i64)
    requires
        spec_medal_rank(a) <= spec_medal_rank(b),
    ensures
        spec_stake_reward(a, day) <= spec_stake_reward(b, day),
        0 <= spec_stake_reward(b, day) <= 150,
{
    let ma = spec_medal_multiplier(a);
    let mb = spec_medal_multiplier(b);
    let d = spec_duration_multiplier(day);
    assert(0 < ma <= mb <= 400 && 0 < d <= 125);
    assert(30 * ma * d <= 30 * mb * d <= 1_500_000) by (nonlinear_arith)
        requires
            0 < ma <= mb <= 400,
            0 < d <= 125,
    ;
    vstd::arithmetic::div_mod::lemma_div_is_ordered(30 * ma * d, 30 * mb * d, 10_000);
    vstd::arithmetic::div_mod::lemma_div_is_ordered(30 * mb * d, 1_500_000, 10_000);
    assert(0 <= 30 * ma * d);
    vstd::arithmetic::div_mod::lemma_div_pos_is_pos(30 * ma * d, 10_000);
}

/// A successful burn is counted once for the user and once for the temple,
/// and adds the same merit and incense value to both.
pub proof fn law_burn_counted_at_user_and_temple(
    env: BurnEnv,
    rules: Seq<IncenseRule>,
    u: UserInfoView,
    t: Temple,
    incense: u8,
    amulet: u8,
)
    requires
        spec_incense_burn(env, rules, u, t, incense, amulet).0 is Ok,
    ensures
        ({
            let (r, u1, t1) = spec_incense_burn(env, rules, u, t, incense, amulet);
            let o = r->Ok_0;
            &&& u1.total_burn_count == u.total_burn_count + 1
            &&& t1.total_burn_count == t.total_burn_count + 1
            &&& u1.merit_value == u.merit_value + o.merit_value
            &&& t1.total_merit_value == t.total_merit_value + o.merit_value
            &&& u1.incense_value == u.incense_value + o.incense_value
            &&& t1.total_incense_value == t.total_incense_value + o.incense_value
        }),
{
}

/// More merit never means a lower user level.
pub proof fn law_level_monotone(a: int, b: int)
    requires
        a <= b,
    ensures
        spec_level_for_merit(a) <= spec_level_for_merit(b),
{
}

/// From the tenth burn of a kind in a day on, a burn uses a stick granted by
/// donations, not a bought one: the bought stock stays and one donated stick
/// is used.
pub proof fn law_burns_beyond_ten_use_donated_sticks(
    env: BurnEnv,
    rules: Seq<IncenseRule>,
    u: UserInfoView,
    t: Temple,
    incense: u8,
    amulet: u8,
)
    requires
        u.burn_count.len() == 6 && u.incense_buy_count.len() == 6,
        u.incense_donate_count.len() == 6 && u.has_burn_token.len() == 6,
        spec_incense_burn(env, rules, u, t, incense, amulet).0 is Ok,
        spec_incense_from_code(incense) is Some,
        spec_daily_reset(u, env.now_ts).burn_count[spec_incense_index(
            spec_incense_from_code(incense)->0,
        )] >= 10,
    ensures
        ({
            let i = spec_incense_index(spec_incense_from_code(incense)->0);
            let u0 = spec_daily_reset(u, env.now_ts);
            let u1 = spec_incense_burn(env, rules, u, t, incense, amulet).1;
            &&& u1.incense_buy_count[i] == u0.incense_buy_count[i]
            &&& u1.incense_donate_count[i] == u0.incense_donate_count[i] - 1
            &&& u1.burn_count[i] == u0.burn_count[i] + 1
        }),
{
}

/// The first draw of a new day (UTC+8, days counted from the epoch) is free:
/// when the draw time falls on a later day than the user's last draw, the
/// draw succeeds even with no merit, charges no fee, and leaves the user with
/// their merit plus the lot's reward (3 for excellent luck, else 2), one more
/// lot drawn and the free draw used up; the temple counts one more lot.
pub proof fn law_new_day_lot_is_free(
    env: DrawEnv,
    table: Seq<LotteryType>,
    u: UserInfoView,
    t: Temple,
    p: PlayerState,
    index: int,
)
    requires
        div_trunc(env.now_ts + 28_800, 86_400) > div_trunc(u.lottery_time + 28_800, 86_400),
        u.lottery_count < u32::MAX,
        u.merit_value + 3 <= u64::MAX,
        t.total_lottery_count < u64::MAX,
    ensures
        ({
            let (r, u1, t1, p1) = spec_draw_lots(env, table, u, t, p, index);
            let reward: int = if table[index] == LotteryType::ExcellentLuck {
                3
            } else {
                2
            };
            &&& r == Ok::<LotteryType, SolJiError>(table[index])
            &&& u1.merit_value == u.merit_value + reward
            &&& u1.lottery_count == u.lottery_count + 1
            &&& !u1.lottery_is_free
            &&& u1.lottery_time == env.now_ts
            &&& t1.total_lottery_count == t.total_lottery_count + 1
            &&& p1.settled
        }),
{
}

/// A wish made on a later day (UTC) than the user's last wish is among the
/// first three of its day: it costs no merit, is never refused for want of
/// merit, and when it goes through it is the first of the day and earns one
/// merit.
pub proof fn law_new_day_wish_is_free(env: WishEnv, u: UserInfoView, t: Temple)
    requires
        div_trunc(env.now_ts as int, 86_400) > div_trunc(u.wish_update_time as int, 86_400),
        u.wish_count < u32::MAX,
        u.merit_value < u64::MAX,
        u.amulet_count < u64::MAX,
        t.total_wish_count < u64::MAX,
        t.total_amulet_count < u64::MAX,
    ensures
        ({
            let (r, u1, t1) = spec_create_wish(env, u, t, 2);
            &&& r is Ok
            &&& u1.wish_daily_count == 1
            &&& u1.wish_count == u.wish_count + 1
            &&& u1.merit_value == u.merit_value + 1
            &&& t1.total_wish_count == t.total_wish_count + 1
        }),
{
}

/// A burn of the kind coded `incense` credits that kind's rule: exactly its
/// merit and incense value, in the outcome, to the user and to the temple.
pub proof fn law_burn_credits_its_kind(
    env: BurnEnv,
    rules: Seq<IncenseRule>,
    u: UserInfoView,
    t: Temple,
    incense: u8,
    amulet: u8,
)
    requires
        spec_incense_burn(env, rules, u, t, incense, amulet).0 is Ok,
    ensures
        ({
            let (r, u1, t1) = spec_incense_burn(env, rules, u, t, incense, amulet);
            let o = r->Ok_0;
            let rule = rules[incense as int];
            &&& incense < 6
            &&& o.merit_value == rule.merit_value
            &&& o.incense_value == rule.incense_value
            &&& u1.merit_value == u.merit_value + rule.merit_value
            &&& u1.incense_value == u.incense_value + rule.incense_value
            &&& t1.total_merit_value == t.total_merit_value + rule.merit_value
            &&& t1.total_incense_value == t.total_incense_value + rule.incense_value
        }),
{
}

/// A purchase of the kind coded `incense` is priced by that kind's rule:
/// the unit price is its incense price and the total is the number of
/// sticks times it.
pub proof fn law_purchase_priced_by_its_kind(
    rules: Seq<IncenseRule>,
    u: UserInfoView,
    incense: u8,
    number: u64,
)
    ensures
        spec_incense_buy(rules, u, incense, number).0 matches Ok(p) ==> {
            &&& incense < 6
            &&& p.number == number
            &&& p.unit_price == rules[incense as int].incense_price
            &&& p.total_amount == number * rules[incense as int].incense_price
        },
{
}

/// A donation that mints or upgrades the medal credits the rewards of the
/// donation's tier (by its amount) exactly as a mint does: they are added to
/// the user's donation merit and incense value and written into the record.
pub proof fn law_medal_change_credits_rewards(
    authority: Pubkey,
    now_ts: i64,
    amount: u64,
    lamports: u64,
    c: DonateCounter,
    u: UserInfoView,
    t: Temple,
)
    requires
        spec_create_donate_record(authority, now_ts, amount, lamports, c, u, t).0 matches Ok(o)
            && o.medal_action != MedalAction::Unchanged,
    ensures
        ({
            let (r, _, u1, _) = spec_create_donate_record(authority, now_ts, amount, lamports, c, u, t);
            let o = r->Ok_0;
            let (m, i) = spec_tier_rewards(spec_donation_tier(amount));
            &&& o.merit_value == m && o.incense_value == i
            &&& o.record.merit_value == m && o.record.incense_value == i
            &&& u1.donate_merit_value == u.donate_merit_value + m
            &&& u1.donate_incense_value == u.donate_incense_value + i
            &&& u1.current_medal_level == o.level
        }),
{
}

/// A draw on the same day (UTC+8) as the user's last one, once the free draw
/// is used up, costs 5 merit: a user holding less is refused, and a draw that
/// goes through leaves their merit less 5 plus the lot's reward.
pub proof fn law_same_day_lot_costs_fee(
    env: DrawEnv,
    table: Seq<LotteryType>,
    u: UserInfoView,
    t: Temple,
    p: PlayerState,
    index: int,
)
    requires
        div_trunc(env.now_ts + 28_800, 86_400) <= div_trunc(u.lottery_time + 28_800, 86_400),
        !u.lottery_is_free,
    ensures
        ({
            let (r, u1, _, _) = spec_draw_lots(env, table, u, t, p, index);
            let reward: int = if table[index] == LotteryType::ExcellentLuck {
                3
            } else {
                2
            };
            &&& u.merit_value < 5 ==> r == Err::<LotteryType, SolJiError>(
                SolJiError::DrawLots(DrawLotsCode::Insufficient),
            )
            &&& r is Ok ==> u1.merit_value == u.merit_value - 5 + reward
        }),
{
}

/// A wish on the same day (UTC) as the user's last one, after three wishes
/// that day, costs 5 merit: a user holding less is refused, and a wish that
/// goes through leaves their merit less 5 plus the one merit a wish earns.
pub proof fn law_fourth_wish_costs_fee(env: WishEnv, u: UserInfoView, t: Temple)
    requires
        div_trunc(env.now_ts as int, 86_400) <= div_trunc(u.wish_update_time as int, 86_400),
        u.wish_daily_count >= 3,
    ensures
        ({
            let (r, u1, _) = spec_create_wish(env, u, t, 2);
            &&& u.merit_value < 5 ==> r == Err::<bool, SolJiError>(
                SolJiError::Wish(WishCode::Insufficient),
            )
            &&& r is Ok ==> u1.merit_value == u.merit_value - 5 + 1
        }),
{
}

} // verus!
