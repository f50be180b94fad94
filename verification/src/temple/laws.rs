//! Properties that hold across the temple program's operations.
use vstd::prelude::*;

use crate::temple::amulet::spec_staking_reward;
use crate::temple::fortune::{spec_draw_fortune, spec_fortune_from_random, FortuneResult};
use crate::temple::incense::{spec_buy_incense, BuyIncenseItem, IncenseTypeConfig};
use crate::temple::shop::{spec_purchase, ShopItem};
use crate::temple::errors::TempleProgramError;
use crate::temple::donation::{spec_badge_action, spec_funded_user, BadgeAction};
use crate::temple::state::UserState;

verus! {

/// Rank of a fortune, from 0 (great luck) to 6 (very bad).
pub open spec fn fortune_rank(f: FortuneResult) -> int {
    match f {
        FortuneResult::GreatLuck => 0,
        FortuneResult::Lucky => 1,
        FortuneResult::Good => 2,
        FortuneResult::Normal => 3,
        FortuneResult::Nobad => 4,
        FortuneResult::Bad => 5,
        FortuneResult::VeryBad => 6,
    }
}

/// Over the values 0 to 99, a larger random value never gives a better
/// fortune; 0 gives great luck and 99 very bad luck.
pub proof fn law_fortune_order(a: u8, b: u8)
    requires
        a <= b < 100,
    ensures
        fortune_rank(spec_fortune_from_random(a)) <= fortune_rank(spec_fortune_from_random(b)),
        spec_fortune_from_random(0) == FortuneResult::GreatLuck,
        spec_fortune_from_random(99) == FortuneResult::VeryBad,
{
}

/// A longer stake never earns less; a stake shorter than a week earns
/// nothing, and every whole week earns 30 merit.
pub proof fn law_staking_reward_weekly(a: i64, b: i64)
    requires
        0 <= a <= b,
    ensures
        spec_staking_reward(a) <= spec_staking_reward(b),
        a < 604_800 ==> spec_staking_reward(a) == 0,
        spec_staking_reward(a) == 30 * (a / 604_800),
{
    vstd::arithmetic::div_mod::lemma_div_is_ordered(a as int, b as int, 604_800);
}

/// The first fortune draw of a day costs nothing; later ones cost 5 merit;
/// every draw earns 2.
pub proof fn law_first_draw_free(
    daily_draw_count: u64,
    karma_points: u64,
    randomness: Option<Seq<u8>>,
    now_ts: i64,
    slot: u64,
)
    ensures
        spec_draw_fortune(daily_draw_count, karma_points, randomness, now_ts, slot) matches Ok(d)
            ==> d.is_free_draw == (daily_draw_count == 0) && d.reduce_karma_points == (if daily_draw_count
            == 0 {
            0u64
        } else {
            5u64
        }) && d.reward_karma_points == 2 && d.reduce_karma_points <= karma_points,
        daily_draw_count == 0 && randomness is None ==> spec_draw_fortune(
            daily_draw_count,
            karma_points,
            randomness,
            now_ts,
            slot,
        ) is Ok,
{
}

/// A purchase that goes through costs the unit price times the quantity,
/// which the buyer can afford.
pub proof fn law_purchase_affordable(items: Seq<ShopItem>, item_id: u8, quantity: u64, balance: u64)
    ensures
        spec_purchase(items, item_id, quantity, balance) matches Ok(p) ==> p.total_price <= balance
            && exists|i: int|
            0 <= i < items.len() && items[i].id == item_id && p.total_price == items[i].price
                * quantity,
{
    if spec_purchase(items, item_id, quantity, balance) is Ok {
        let w = choose|i: int| 0 <= i < items.len() && items[i].id == item_id;
        lemma_first_item(items, item_id, w);
        let i = choose|i: int|
            0 <= i < items.len() && items[i].id == item_id && forall|j: int|
                0 <= j < i ==> items[j].id != item_id;
        assert(0 <= i < items.len() && items[i].id == item_id);
    }
}

/// When some item has id `id`, there is a first one.
proof fn lemma_first_item(items: Seq<ShopItem>, id: u8, w: int)
    requires
        0 <= w < items.len(),
        items[w].id == id,
    ensures
        exists|i: int|
            0 <= i < items.len() && items[i].id == id && forall|j: int|
                0 <= j < i ==> items[j].id != id,
    decreases w,
{
    if exists|j: int| 0 <= j < w && items[j].id == id {
        let j = choose|j: int| 0 <= j < w && items[j].id == id;
        lemma_first_item(items, id, j);
    } else {
        assert(forall|j: int| 0 <= j < w ==> items[j].id != id);
    }
}

/// An incense purchase that goes through costs at most what the buyer holds.
pub proof fn law_incense_purchase_affordable(
    items: Seq<BuyIncenseItem>,
    checks: Seq<Result<(), TempleProgramError>>,
    configs: Seq<IncenseTypeConfig>,
    daily_reset: Result<(), TempleProgramError>,
    balance: u64,
    balances: Seq<u64>,
)
    ensures
        spec_buy_incense(items, checks, configs, daily_reset, balance, balances) matches Ok(
            (t, _, _),
        ) ==> t <= balance,
{
}

/// How many of the values `0..n` give fortune `f`.
pub open spec fn fortune_count(f: FortuneResult, n: nat) -> nat
    decreases n,
{
    if n == 0 {
        0
    } else {
        fortune_count(f, (n - 1) as nat) + if spec_fortune_from_random((n - 1) as u8) == f {
            1nat
        } else {
            0nat
        }
    }
}

/// Counting a fortune that the values `lo..hi` (within 0..100) give, and no
/// other value below 100.
proof fn lemma_count_range(f: FortuneResult, lo: nat, hi: nat, n: nat)
    requires
        lo <= hi <= 100,
        n <= 100,
        forall|v: u8| v < 100 ==> (#[trigger] spec_fortune_from_random(v) == f <==> lo <= v < hi),
    ensures
        fortune_count(f, n) == if n <= lo {
            0
        } else if n <= hi {
            n - lo
        } else {
            hi - lo
        },
    decreases n,
{
    if n > 0 {
        lemma_count_range(f, lo, hi, (n - 1) as nat);
        let v = (n - 1) as u8;
        assert(spec_fortune_from_random(v) == f <==> lo <= v < hi);
    }
}

/// Over a uniform value from 0 to 99 the fortunes split 5/10/20/30/20/10/5
/// percent, from great luck to very bad luck; values from 100 up give a
/// normal fortune.
pub proof fn law_fortune_split()
    ensures
        fortune_count(FortuneResult::GreatLuck, 100) == 5,
        fortune_count(FortuneResult::Lucky, 100) == 10,
        fortune_count(FortuneResult::Good, 100) == 20,
        fortune_count(FortuneResult::Normal, 100) == 30,
        fortune_count(FortuneResult::Nobad, 100) == 20,
        fortune_count(FortuneResult::Bad, 100) == 10,
        fortune_count(FortuneResult::VeryBad, 100) == 5,
        forall|v: u8| v >= 100 ==> #[trigger] spec_fortune_from_random(v) == FortuneResult::Normal,
{
    lemma_count_range(FortuneResult::GreatLuck, 0, 5, 100);
    lemma_count_range(FortuneResult::Lucky, 5, 15, 100);
    lemma_count_range(FortuneResult::Good, 15, 35, 100);
    lemma_count_range(FortuneResult::Normal, 35, 65, 100);
    lemma_count_range(FortuneResult::Nobad, 65, 85, 100);
    lemma_count_range(FortuneResult::Bad, 85, 95, 100);
    lemma_count_range(FortuneResult::VeryBad, 95, 100, 100);
}

/// The badge actions of a run of fund donations by a user in state `u`; each
/// step is the amount, the donation level before and the level after.
pub open spec fn fund_badge_actions(u: UserState, steps: Seq<(u64, u8, u8)>) -> Seq<BadgeAction>
    decreases steps.len(),
{
    if steps.len() == 0 {
        Seq::empty()
    } else {
        seq![spec_badge_action(u.has_minted_badge_nft, steps[0].1, steps[0].2)]
            + fund_badge_actions(spec_funded_user(u, steps[0].0), steps.drop_first())
    }
}

/// Once the badge is minted, no fund donation mints it again: each updates
/// it when the level rose and leaves it otherwise.
proof fn lemma_no_remint(u: UserState, steps: Seq<(u64, u8, u8)>)
    requires
        u.has_minted_badge_nft,
    ensures
        fund_badge_actions(u, steps).len() == steps.len(),
        forall|i: int|
            0 <= i < steps.len() ==> #[trigger] fund_badge_actions(u, steps)[i] == if steps[i].2
                > steps[i].1 {
                BadgeAction::Update { make_immutable: steps[i].2 == 4 }
            } else {
                BadgeAction::Unchanged
            },
    decreases steps.len(),
{
    if steps.len() > 0 {
        let u2 = spec_funded_user(u, steps[0].0);
        lemma_no_remint(u2, steps.drop_first());
        assert forall|i: int| 0 <= i < steps.len() implies #[trigger] fund_badge_actions(u, steps)[i]
            == if steps[i].2 > steps[i].1 {
            BadgeAction::Update { make_immutable: steps[i].2 == 4 }
        } else {
            BadgeAction::Unchanged
        } by {
            if i > 0 {
                assert(steps.drop_first()[i - 1] == steps[i]);
            }
        }
    }
}

/// Over any run of fund donations by a user whose badge was not minted, the
/// badge is minted exactly once, by the first donation; each later one
/// updates it when the donation level rose (making it immutable at level 4)
/// and leaves it unchanged otherwise.
pub proof fn law_badge_minted_exactly_once(u: UserState, steps: Seq<(u64, u8, u8)>)
    requires
        !u.has_minted_badge_nft,
        steps.len() >= 1,
    ensures
        fund_badge_actions(u, steps).len() == steps.len(),
        fund_badge_actions(u, steps)[0] == BadgeAction::Mint,
        forall|i: int|
            1 <= i < steps.len() ==> #[trigger] fund_badge_actions(u, steps)[i] == if steps[i].2
                > steps[i].1 {
                BadgeAction::Update { make_immutable: steps[i].2 == 4 }
            } else {
                BadgeAction::Unchanged
            },
{
    let u2 = spec_funded_user(u, steps[0].0);
    lemma_no_remint(u2, steps.drop_first());
    assert forall|i: int| 1 <= i < steps.len() implies #[trigger] fund_badge_actions(u, steps)[i]
        == if steps[i].2 > steps[i].1 {
        BadgeAction::Update { make_immutable: steps[i].2 == 4 }
    } else {
        BadgeAction::Unchanged
    } by {
        assert(steps.drop_first()[i - 1] == steps[i]);
    }
}

} // verus!
