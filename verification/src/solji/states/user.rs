//! User accounts: incense stock and burns, merit, lots, wishes, donations
//! and staking.
use vstd::prelude::*;

use crate::pubkey::Pubkey;
use crate::solji::errors::{GlobalError, SolJiError, WishCode};
use crate::solji::states::donate::MedalLevel;
use crate::solji::states::incense_config::{spec_incense_index, IncenseRule, IncenseType};

verus! {

/// Seconds in one day.
pub const SECONDS_PER_DAY: i64 = 86400;

/// `a / b` rounded toward zero, as integer division does in executable code.
pub open spec fn div_trunc(a: int, b: int) -> int {
    if a >= 0 {
        a / b
    } else {
        -((-a) / b)
    }
}

/// `a - b` clamped to the range of `i64`.
pub open spec fn spec_saturating_sub_i64(a: i64, b: i64) -> i64 {
    if a - b > i64::MAX {
        i64::MAX
    } else if a - b < i64::MIN {
        i64::MIN
    } else {
        (a - b) as i64
    }
}

/// `a - b` clamped to the range of `i64`.
pub fn saturating_sub_i64(a: i64, b: i64) -> (r: i64)
    ensures
        r == spec_saturating_sub_i64(a, b),
{
    match a.checked_sub(b) {
        Some(d) => d,
        None => {
            if b < 0 {
                i64::MAX
            } else {
                i64::MIN
            }
        },
    }
}

/// A user's account.
#[derive(Clone, Copy, Debug)]
pub struct UserInfo {
    pub user: Pubkey,
    pub level: u8,
    /// Burns today, per incense kind.
    pub burn_count: [u32; 6],
    pub total_burn_count: u64,
    /// Bought sticks in stock, per incense kind.
    pub incense_buy_count: [u32; 6],
    /// Sticks granted by donations, per incense kind.
    pub incense_donate_count: [u32; 6],
    pub merit_value: u64,
    pub incense_value: u64,
    /// Time of the last burn.
    pub incense_time: i64,
    pub donate_amount: u64,
    pub donate_count: u64,
    pub donate_merit_value: u64,
    pub donate_incense_value: u64,
    pub current_medal_level: MedalLevel,
    pub lottery_count: u32,
    pub lottery_is_free: bool,
    pub lottery_time: i64,
    pub wish_count: u32,
    pub wish_update_time: i64,
    pub wish_daily_count: u32,
    pub amulet_count: u64,
    pub has_sbt_token: bool,
    /// Whether the burn NFT of each incense kind was already minted.
    pub has_burn_token: [bool; 6],
    pub stake_count: u64,
    /// Level of the wish tower NFT; -1 before the first one is minted.
    pub tower_level: i8,
}

/// A user's account with its per-kind tables as sequences.
#[verifier::ext_equal]
pub struct UserInfoView {
    pub user: Pubkey,
    pub level: u8,
    pub burn_count: Seq<u32>,
    pub total_burn_count: u64,
    pub incense_buy_count: Seq<u32>,
    pub incense_donate_count: Seq<u32>,
    pub merit_value: u64,
    pub incense_value: u64,
    pub incense_time: i64,
    pub donate_amount: u64,
    pub donate_count: u64,
    pub donate_merit_value: u64,
    pub donate_incense_value: u64,
    pub current_medal_level: MedalLevel,
    pub lottery_count: u32,
    pub lottery_is_free: bool,
    pub lottery_time: i64,
    pub wish_count: u32,
    pub wish_update_time: i64,
    pub wish_daily_count: u32,
    pub amulet_count: u64,
    pub has_sbt_token: bool,
    pub has_burn_token: Seq<bool>,
    pub stake_count: u64,
    pub tower_level: i8,
}

impl View for UserInfo {
    type V = UserInfoView;

    open spec fn view(&self) -> UserInfoView {
        UserInfoView {
            user: self.user,
            level: self.level,
            burn_count: self.burn_count@,
            total_burn_count: self.total_burn_count,
            incense_buy_count: self.incense_buy_count@,
            incense_donate_count: self.incense_donate_count@,
            merit_value: self.merit_value,
            incense_value: self.incense_value,
            incense_time: self.incense_time,
            donate_amount: self.donate_amount,
            donate_count: self.donate_count,
            donate_merit_value: self.donate_merit_value,
            donate_incense_value: self.donate_incense_value,
            current_medal_level: self.current_medal_level,
            lottery_count: self.lottery_count,
            lottery_is_free: self.lottery_is_free,
            lottery_time: self.lottery_time,
            wish_count: self.wish_count,
            wish_update_time: self.wish_update_time,
            wish_daily_count: self.wish_daily_count,
            amulet_count: self.amulet_count,
            has_sbt_token: self.has_sbt_token,
            has_burn_token: self.has_burn_token@,
            stake_count: self.stake_count,
            tower_level: self.tower_level,
        }
    }
}

/// Level reached with `total` merit (own plus donation merit), from 5000 on.
pub open spec fn spec_level_for_merit(total: int) -> u8 {
    if total < 30_000 {
        1
    } else if total < 150_000 {
        2
    } else if total < 500_000 {
        3
    } else {
        4
    }
}

/// A new user's account.
pub open spec fn spec_new_user(user: Pubkey) -> UserInfoView {
    UserInfoView {
        user,
        level: 0,
        burn_count: Seq::new(6, |i: int| 0u32),
        total_burn_count: 0,
        incense_buy_count: Seq::new(6, |i: int| 0u32),
        incense_donate_count: Seq::new(6, |i: int| 0u32),
        merit_value: 0,
        incense_value: 0,
        incense_time: 0,
        donate_amount: 0,
        donate_count: 0,
        donate_merit_value: 0,
        donate_incense_value: 0,
        current_medal_level: MedalLevel::NoMedal,
        lottery_count: 0,
        lottery_is_free: true,
        lottery_time: 0,
        wish_count: 0,
        wish_update_time: 0,
        wish_daily_count: 0,
        amulet_count: 0,
        has_sbt_token: false,
        has_burn_token: Seq::new(6, |i: int| false),
        stake_count: 0,
        tower_level: -1i8,
    }
}

/// Outcome of recomputing the level from the merit totals: levels move only
/// from 5000 merit on, and the sum of the two merit totals must fit.
pub open spec fn spec_update_level(u: UserInfoView) -> (Result<(), GlobalError>, UserInfoView) {
    let total = u.merit_value + u.donate_merit_value;
    if total > u64::MAX {
        (Err(GlobalError::MathOverflow), u)
    } else if total < 5_000 {
        (Ok(()), u)
    } else {
        (Ok(()), UserInfoView { level: spec_level_for_merit(total), ..u })
    }
}

/// Outcome of adding `number` (cut to 32 bits) donated sticks of kind `i`.
pub open spec fn spec_add_donated_sticks(u: UserInfoView, i: int, number: u64) -> (
    Result<(), GlobalError>,
    UserInfoView,
) {
    if u.incense_donate_count[i] + (number as u32) > u32::MAX {
        (Err(GlobalError::MathOverflow), u)
    } else {
        (
            Ok(()),
            UserInfoView {
                incense_donate_count: u.incense_donate_count.update(
                    i,
                    (u.incense_donate_count[i] + (number as u32)) as u32,
                ),
                ..u
            },
        )
    }
}

/// Outcome of adding `number` (cut to 32 bits) bought sticks of kind `i`.
pub open spec fn spec_add_bought_sticks(u: UserInfoView, i: int, number: u64) -> (
    Result<(), GlobalError>,
    UserInfoView,
) {
    if u.incense_buy_count[i] + (number as u32) > u32::MAX {
        (Err(GlobalError::MathOverflow), u)
    } else {
        (
            Ok(()),
            UserInfoView {
                incense_buy_count: u.incense_buy_count.update(
                    i,
                    (u.incense_buy_count[i] + (number as u32)) as u32,
                ),
                ..u
            },
        )
    }
}

/// Whether a burn of kind `i` uses a donated stick rather than a bought one:
/// from the tenth burn of the day on, or when no bought stick is left.
pub open spec fn uses_donated_stick(u: UserInfoView, i: int) -> bool {
    u.burn_count[i] >= 10 || u.incense_buy_count[i] < 1
}

/// Outcome of one burn of kind `i` by `user` at `now_ts`: one stick is used,
/// the burn is counted, the rule's merit and incense value are added, and the
/// level is recomputed.
pub open spec fn spec_burn(
    u: UserInfoView,
    user: Pubkey,
    i: int,
    rule: IncenseRule,
    now_ts: i64,
) -> (Result<(), GlobalError>, UserInfoView) {
    let u1 = UserInfoView { user, ..u };
    if uses_donated_stick(u1, i) && u1.incense_donate_count[i] == 0 {
        (Err(GlobalError::MathUnderflow), u1)
    } else {
        let u2 = if uses_donated_stick(u1, i) {
            UserInfoView {
                incense_donate_count: u1.incense_donate_count.update(
                    i,
                    (u1.incense_donate_count[i] - 1) as u32,
                ),
                ..u1
            }
        } else {
            UserInfoView {
                incense_buy_count: u1.incense_buy_count.update(
                    i,
                    (u1.incense_buy_count[i] - 1) as u32,
                ),
                ..u1
            }
        };
        if u2.burn_count[i] == u32::MAX {
            (Err(GlobalError::MathOverflow), u2)
        } else {
            let u3 = UserInfoView {
                burn_count: u2.burn_count.update(i, (u2.burn_count[i] + 1) as u32),
                ..u2
            };
            if u3.merit_value + rule.merit_value > u64::MAX {
                (Err(GlobalError::MathOverflow), u3)
            } else {
                let u4 = UserInfoView {
                    merit_value: (u3.merit_value + rule.merit_value) as u64,
                    ..u3
                };
                if u4.incense_value + rule.incense_value > u64::MAX {
                    (Err(GlobalError::MathOverflow), u4)
                } else {
                    let u5 = UserInfoView {
                        incense_value: (u4.incense_value + rule.incense_value) as u64,
                        ..u4
                    };
                    if u5.total_burn_count == u64::MAX {
                        (Err(GlobalError::MathOverflow), u5)
                    } else {
                        spec_update_level(
                            UserInfoView {
                                total_burn_count: (u5.total_burn_count + 1) as u64,
                                incense_time: now_ts,
                                ..u5
                            },
                        )
                    }
                }
            }
        }
    }
}

/// Outcome of taking `value` merit away.
pub open spec fn spec_deduction(u: UserInfoView, value: u64) -> (
    Result<(), GlobalError>,
    UserInfoView,
) {
    if u.merit_value < value {
        (Err(GlobalError::MathUnderflow), u)
    } else {
        (Ok(()), UserInfoView { merit_value: (u.merit_value - value) as u64, ..u })
    }
}

/// Outcome of counting a drawn lot at `now_ts` that earns `value` merit; the
/// free lot of the day is used up either way.
pub open spec fn spec_lottery(u: UserInfoView, now_ts: i64, value: u64) -> (
    Result<(), GlobalError>,
    UserInfoView,
) {
    let u1 = UserInfoView { lottery_is_free: false, lottery_time: now_ts, ..u };
    if u1.lottery_count == u32::MAX {
        (Err(GlobalError::MathOverflow), u1)
    } else {
        let u2 = UserInfoView { lottery_count: (u1.lottery_count + 1) as u32, ..u1 };
        if u2.merit_value + value > u64::MAX {
            (Err(GlobalError::MathOverflow), u2)
        } else {
            (Ok(()), UserInfoView { merit_value: (u2.merit_value + value) as u64, ..u2 })
        }
    }
}

/// Outcome of counting a wish made at `now_ts`; a wish earns one merit.
pub open spec fn spec_wish(u: UserInfoView, now_ts: i64) -> (
    Result<(), GlobalError>,
    UserInfoView,
) {
    if u.wish_count == u32::MAX {
        (Err(GlobalError::MathOverflow), u)
    } else {
        let u1 = UserInfoView { wish_count: (u.wish_count + 1) as u32, ..u };
        if u1.wish_daily_count == u32::MAX {
            (Err(GlobalError::MathOverflow), u1)
        } else {
            let u2 = UserInfoView {
                wish_daily_count: (u1.wish_daily_count + 1) as u32,
                wish_update_time: now_ts,
                ..u1
            };
            if u2.merit_value == u64::MAX {
                (Err(GlobalError::MathOverflow), u2)
            } else {
                (Ok(()), UserInfoView { merit_value: (u2.merit_value + 1) as u64, ..u2 })
            }
        }
    }
}

/// Whether `now_ts` falls on a later day (UTC) than the last wish.
pub open spec fn spec_new_wish_day(u: UserInfoView, now_ts: i64) -> bool {
    div_trunc(now_ts as int, 86_400) > div_trunc(u.wish_update_time as int, 86_400)
}

/// The account after the daily wish counter is reset on a new day.
pub open spec fn spec_wish_day_reset(u: UserInfoView, now_ts: i64) -> UserInfoView {
    if spec_new_wish_day(u, now_ts) {
        UserInfoView { wish_daily_count: 0, ..u }
    } else {
        u
    }
}

/// Outcome of the wish fee check: the first three wishes of a day are free,
/// later ones cost `value` merit.
pub open spec fn spec_wish_fee(u: UserInfoView, value: u64) -> (
    Result<(), SolJiError>,
    UserInfoView,
) {
    if u.wish_daily_count >= 3 {
        if u.merit_value < value {
            (Err(SolJiError::Wish(WishCode::Insufficient)), u)
        } else {
            (Ok(()), UserInfoView { merit_value: (u.merit_value - value) as u64, ..u })
        }
    } else {
        (Ok(()), u)
    }
}

/// Outcome of adding donation rewards (only when the merit reward is not
/// zero) and recomputing the level.
pub open spec fn spec_donate_info(u: UserInfoView, merit: u64, incense: u64) -> (
    Result<(), GlobalError>,
    UserInfoView,
) {
    if merit > 0 {
        if u.donate_merit_value + merit > u64::MAX {
            (Err(GlobalError::MathOverflow), u)
        } else {
            let u1 = UserInfoView {
                donate_merit_value: (u.donate_merit_value + merit) as u64,
                ..u
            };
            if u1.donate_incense_value + incense > u64::MAX {
                (Err(GlobalError::MathOverflow), u1)
            } else {
                spec_update_level(
                    UserInfoView {
                        donate_incense_value: (u1.donate_incense_value + incense) as u64,
                        ..u1
                    },
                )
            }
        }
    } else {
        spec_update_level(u)
    }
}

/// Outcome of recording a donation of `amount` lamports.
pub open spec fn spec_donate_amount(u: UserInfoView, amount: u64) -> (
    Result<(), GlobalError>,
    UserInfoView,
) {
    if u.donate_amount + amount > u64::MAX {
        (Err(GlobalError::MathOverflow), u)
    } else {
        let u1 = UserInfoView { donate_amount: (u.donate_amount + amount) as u64, ..u };
        if u1.donate_count == u64::MAX {
            (Err(GlobalError::MathOverflow), u1)
        } else {
            (Ok(()), UserInfoView { donate_count: (u1.donate_count + 1) as u64, ..u1 })
        }
    }
}

/// Outcome of counting one amulet.
pub open spec fn spec_user_amulet(u: UserInfoView) -> (Result<(), GlobalError>, UserInfoView) {
    if u.amulet_count == u64::MAX {
        (Err(GlobalError::MathOverflow), u)
    } else {
        (Ok(()), UserInfoView { amulet_count: (u.amulet_count + 1) as u64, ..u })
    }
}

/// Outcome of counting one stake.
pub open spec fn spec_user_stake(u: UserInfoView) -> (Result<(), GlobalError>, UserInfoView) {
    if u.stake_count == u64::MAX {
        (Err(GlobalError::MathOverflow), u)
    } else {
        (Ok(()), UserInfoView { stake_count: (u.stake_count + 1) as u64, ..u })
    }
}

/// Outcome of adding staking merit and recomputing the level.
pub open spec fn spec_stake_merit(u: UserInfoView, merit: u64) -> (
    Result<(), GlobalError>,
    UserInfoView,
) {
    if u.merit_value + merit > u64::MAX {
        (Err(GlobalError::MathOverflow), u)
    } else {
        spec_update_level(UserInfoView { merit_value: (u.merit_value + merit) as u64, ..u })
    }
}

/// Medal multiplier of the staking reward, in hundredths.
pub open spec fn spec_medal_multiplier(m: MedalLevel) -> int {
    match m {
        MedalLevel::Bronze => 100,
        MedalLevel::Silver => 150,
        MedalLevel::Gold => 250,
        MedalLevel::Supreme => 400,
        MedalLevel::NoMedal => 100,
    }
}

/// Duration multiplier of the staking reward, in hundredths.
pub open spec fn spec_duration_multiplier(day: i64) -> int {
    if day == 7 {
        100
    } else if 8 <= day <= 30 {
        110
    } else {
        125
    }
}

/// Staking reward: 30 merit a stake, times the medal and duration multipliers,
/// rounded down.
pub open spec fn spec_stake_reward(m: MedalLevel, day: i64) -> int {
    (30 * spec_medal_multiplier(m) * spec_duration_multiplier(day)) / 10_000
}

impl UserInfo {
    pub fn new(user: Pubkey) -> (u: UserInfo)
        ensures
            u@ == spec_new_user(user),
    {
        let u = UserInfo {
            user,
            level: 0,
            burn_count: [0; 6],
            total_burn_count: 0,
            incense_buy_count: [0; 6],
            incense_donate_count: [0; 6],
            merit_value: 0,
            incense_value: 0,
            incense_time: 0,
            donate_amount: 0,
            donate_count: 0,
            donate_merit_value: 0,
            donate_incense_value: 0,
            current_medal_level: MedalLevel::NoMedal,
            lottery_count: 0,
            lottery_is_free: true,
            lottery_time: 0,
            wish_count: 0,
            wish_update_time: 0,
            wish_daily_count: 0,
            amulet_count: 0,
            has_sbt_token: false,
            has_burn_token: [false; 6],
            stake_count: 0,
            tower_level: -1,
        };
        proof {
            assert(u@.burn_count =~= Seq::new(6, |i: int| 0u32));
            assert(u@.incense_buy_count =~= Seq::new(6, |i: int| 0u32));
            assert(u@.incense_donate_count =~= Seq::new(6, |i: int| 0u32));
            assert(u@.has_burn_token =~= Seq::new(6, |i: int| false));
        }
        u
    }

    /// Adds `number` donated sticks of one kind; `number` is cut to 32 bits.
    pub fn update_incense_donate_count(&mut self, incense_type: IncenseType, number: u64) -> (r:
        Result<(), GlobalError>)
        ensures
            (r, final(self)@) == spec_add_donated_sticks(
                old(self)@,
                spec_incense_index(incense_type),
                number,
            ),
    {
        let i = incense_type.index();
        match self.incense_donate_count[i].checked_add(number as u32) {
            Some(n) => {
                self.incense_donate_count[i] = n;
                Ok(())
            },
            None => Err(GlobalError::MathOverflow),
        }
    }

    /// Adds `number` bought sticks of one kind; `number` is cut to 32 bits.
    pub fn update_incense_buy_count(&mut self, incense_type: IncenseType, number: u64) -> (r:
        Result<(), GlobalError>)
        ensures
            (r, final(self)@) == spec_add_bought_sticks(
                old(self)@,
                spec_incense_index(incense_type),
                number,
            ),
    {
        let i = incense_type.index();
        match self.incense_buy_count[i].checked_add(number as u32) {
            Some(n) => {
                self.incense_buy_count[i] = n;
                Ok(())
            },
            None => Err(GlobalError::MathOverflow),
        }
    }

    /// Burns of one kind today.
    pub fn get_burn_count(&self, incense_type: IncenseType) -> (c: u32)
        ensures
            c == self.burn_count@[spec_incense_index(incense_type)],
    {
        self.burn_count[incense_type.index()]
    }

    /// Records one burn of `incense_type` by `user` at `now_ts` under
    /// `incense_rule`.
    pub fn update_user_info(
        &mut self,
        user: Pubkey,
        incense_type: IncenseType,
        incense_rule: IncenseRule,
        now_ts: i64,
    ) -> (r: Result<(), GlobalError>)
        ensures
            (r, final(self)@) == spec_burn(
                old(self)@,
                user,
                spec_incense_index(incense_type),
                incense_rule,
                now_ts,
            ),
    {
        let i = incense_type.index();
        self.user = user;
        if self.burn_count[i] >= 10 || self.incense_buy_count[i] < 1 {
            match self.incense_donate_count[i].checked_sub(1) {
                Some(n) => {
                    self.incense_donate_count[i] = n;
                },
                None => {
                    return Err(GlobalError::MathUnderflow);
                },
            }
        } else {
            self.incense_buy_count[i] = self.incense_buy_count[i] - 1;
        }
        match self.burn_count[i].checked_add(1) {
            Some(n) => {
                self.burn_count[i] = n;
            },
            None => {
                return Err(GlobalError::MathOverflow);
            },
        }
        match self.merit_value.checked_add(incense_rule.merit_value) {
            Some(n) => {
                self.merit_value = n;
            },
            None => {
                return Err(GlobalError::MathOverflow);
            },
        }
        match self.incense_value.checked_add(incense_rule.incense_value) {
            Some(n) => {
                self.incense_value = n;
            },
            None => {
                return Err(GlobalError::MathOverflow);
            },
        }
        match self.total_burn_count.checked_add(1) {
            Some(n) => {
                self.total_burn_count = n;
            },
            None => {
                return Err(GlobalError::MathOverflow);
            },
        }
        self.incense_time = now_ts;
        self.update_level()
    }

    /// Recomputes the level from the merit totals.
    pub fn update_level(&mut self) -> (r: Result<(), GlobalError>)
        ensures
            (r, final(self)@) == spec_update_level(old(self)@),
    {
        let total_merit = match self.merit_value.checked_add(self.donate_merit_value) {
            Some(t) => t,
            None => {
                return Err(GlobalError::MathOverflow);
            },
        };
        if total_merit < 5_000 {
            return Ok(());
        }
        let new_level: u8 = if total_merit < 30_000 {
            1
        } else if total_merit < 150_000 {
            2
        } else if total_merit < 500_000 {
            3
        } else {
            4
        };
        if self.level == new_level {
            return Ok(());
        }
        self.level = new_level;
        Ok(())
    }

    /// Takes `value` merit away.
    pub fn deduction(&mut self, value: u64) -> (r: Result<(), GlobalError>)
        ensures
            (r, final(self)@) == spec_deduction(old(self)@, value),
    {
        match self.merit_value.checked_sub(value) {
            Some(n) => {
                self.merit_value = n;
                Ok(())
            },
            None => Err(GlobalError::MathUnderflow),
        }
    }

    /// Counts a lot drawn at `now_ts` that earned `value` merit.
    pub fn update_lottery_count(&mut self, now_ts: i64, value: u64) -> (r: Result<(), GlobalError>)
        ensures
            (r, final(self)@) == spec_lottery(old(self)@, now_ts, value),
    {
        self.lottery_is_free = false;
        self.lottery_time = now_ts;
        match self.lottery_count.checked_add(1) {
            Some(n) => {
                self.lottery_count = n;
            },
            None => {
                return Err(GlobalError::MathOverflow);
            },
        }
        match self.merit_value.checked_add(value) {
            Some(n) => {
                self.merit_value = n;
                Ok(())
            },
            None => Err(GlobalError::MathOverflow),
        }
    }

    /// Counts a wish made at `now_ts`.
    pub fn update_user_wish_count(&mut self, now_ts: i64) -> (r: Result<(), GlobalError>)
        ensures
            (r, final(self)@) == spec_wish(old(self)@, now_ts),
    {
        match self.wish_count.checked_add(1) {
            Some(n) => {
                self.wish_count = n;
            },
            None => {
                return Err(GlobalError::MathOverflow);
            },
        }
        match self.wish_daily_count.checked_add(1) {
            Some(n) => {
                self.wish_daily_count = n;
            },
            None => {
                return Err(GlobalError::MathOverflow);
            },
        }
        self.wish_update_time = now_ts;
        match self.merit_value.checked_add(1) {
            Some(n) => {
                self.merit_value = n;
                Ok(())
            },
            None => Err(GlobalError::MathOverflow),
        }
    }

    /// Starts a new wish day: the daily wish counter is reset when `now_ts`
    /// falls on a later day than the last wish.
    pub fn check_is_free(&mut self, now_ts: i64) -> (r: Result<(), GlobalError>)
        ensures
            r == Ok::<(), GlobalError>(()),
            final(self)@ == spec_wish_day_reset(old(self)@, now_ts),
    {
        let current_day = now_ts / 86_400;
        let last_day = self.wish_update_time / 86_400;
        if current_day > last_day {
            self.wish_daily_count = 0;
        }
        Ok(())
    }

    /// Charges `value` merit for a wish beyond the third of the day.
    pub fn check_wish_daily_count(&mut self, value: u64) -> (r: Result<(), SolJiError>)
        ensures
            (r, final(self)@) == spec_wish_fee(old(self)@, value),
    {
        if self.wish_daily_count >= 3 {
            if self.merit_value < value {
                return Err(SolJiError::Wish(WishCode::Insufficient));
            }
            match self.deduction(value) {
                Ok(()) => {},
                Err(e) => {
                    return Err(SolJiError::Global(e));
                },
            }
        }
        Ok(())
    }

    /// Adds the merit and incense rewards of a donation (when the merit reward
    /// is not zero) and recomputes the level.
    pub fn update_user_donate_info(&mut self, donate_merit_value: u64, donate_incense_value: u64) -> (r:
        Result<(), GlobalError>)
        ensures
            (r, final(self)@) == spec_donate_info(
                old(self)@,
                donate_merit_value,
                donate_incense_value,
            ),
    {
        if donate_merit_value > 0 {
            match self.donate_merit_value.checked_add(donate_merit_value) {
                Some(n) => {
                    self.donate_merit_value = n;
                },
                None => {
                    return Err(GlobalError::MathOverflow);
                },
            }
            match self.donate_incense_value.checked_add(donate_incense_value) {
                Some(n) => {
                    self.donate_incense_value = n;
                },
                None => {
                    return Err(GlobalError::MathOverflow);
                },
            }
        }
        self.update_level()
    }

    /// Records a donation of `amount` lamports.
    pub fn update_user_donate_amount(&mut self, amount: u64) -> (r: Result<(), GlobalError>)
        ensures
            (r, final(self)@) == spec_donate_amount(old(self)@, amount),
    {
        match self.donate_amount.checked_add(amount) {
            Some(n) => {
                self.donate_amount = n;
            },
            None => {
                return Err(GlobalError::MathOverflow);
            },
        }
        match self.donate_count.checked_add(1) {
            Some(n) => {
                self.donate_count = n;
                Ok(())
            },
            None => Err(GlobalError::MathOverflow),
        }
    }

    /// Counts one amulet.
    pub fn amulet_increment(&mut self) -> (r: Result<(), GlobalError>)
        ensures
            (r, final(self)@) == spec_user_amulet(old(self)@),
    {
        match self.amulet_count.checked_add(1) {
            Some(n) => {
                self.amulet_count = n;
                Ok(())
            },
            None => Err(GlobalError::MathOverflow),
        }
    }

    /// Counts one stake.
    pub fn stake_increment(&mut self) -> (r: Result<(), GlobalError>)
        ensures
            (r, final(self)@) == spec_user_stake(old(self)@),
    {
        match self.stake_count.checked_add(1) {
            Some(n) => {
                self.stake_count = n;
                Ok(())
            },
            None => Err(GlobalError::MathOverflow),
        }
    }

    /// Merit earned by a stake that lasted `day` days.
    pub fn get_calculate_reward(&self, day: i64) -> (r: Result<u64, GlobalError>)
        ensures
            r matches Ok(v) && v == spec_stake_reward(self.current_medal_level, day),
    {
        let level_scaled: u64 = match self.current_medal_level {
            MedalLevel::Bronze => 100,
            MedalLevel::Silver => 150,
            MedalLevel::Gold => 250,
            MedalLevel::Supreme => 400,
            _ => 100,
        };
        let time_scaled: u64 = if day == 7 {
            100
        } else if day >= 8 && day <= 30 {
            110
        } else {
            125
        };
        assert(level_scaled <= 400 && time_scaled <= 125);
        assert(30 * level_scaled * time_scaled <= 1_500_000) by (nonlinear_arith)
            requires
                level_scaled <= 400,
                time_scaled <= 125,
        ;
        let tmp: u128 = 30u128 * (level_scaled as u128) * (time_scaled as u128);
        let reward = tmp / 10_000u128;
        Ok(reward as u64)
    }

    /// Adds staking merit and recomputes the level.
    pub fn increment_stake_merit(&mut self, merit: u64) -> (r: Result<(), GlobalError>)
        ensures
            (r, final(self)@) == spec_stake_merit(old(self)@, merit),
    {
        match self.merit_value.checked_add(merit) {
            Some(n) => {
                self.merit_value = n;
            },
            None => {
                return Err(GlobalError::MathOverflow);
            },
        }
        self.update_level()
    }
}

/// Kinds of user activity reported to listeners.
#[derive(Clone, Copy, Debug, PartialEq, Eq, Structural)]
pub enum ActivityEnum {
    Burn,
    Donate,
    Lottery,
    Wish,
    Like,
}

/// One staked medal NFT.
#[derive(Clone, Copy, Debug)]
pub struct UserStake {
    pub user: Pubkey,
    pub token: Pubkey,
    pub merit_value: u64,
    /// 0 staked, 1 unstake requested, 2 unstaked.
    pub status: u8,
    pub stake_start_time: i64,
    pub requst_unstake_time: i64,
    pub unstake_end_time: i64,
}

/// Whether an unstake may be confirmed at `time`: `UnstakeNotRequest` when
/// none was requested, `MathUnderflow` when `time` minus the request time
/// leaves the `i64` range, `UnstakeTooSoon` when that difference divided
/// (truncating) by 1440 is below 2.
pub open spec fn spec_unstake_check(s: UserStake, time: i64) -> Result<(), GlobalError> {
    let d = time - s.requst_unstake_time;
    if s.requst_unstake_time == 0 {
        Err(GlobalError::UnstakeNotRequest)
    } else if d > i64::MAX || d < i64::MIN {
        Err(GlobalError::MathUnderflow)
    } else if div_trunc(d, 1440) < 2 {
        Err(GlobalError::UnstakeTooSoon)
    } else {
        Ok(())
    }
}

/// Minutes in one day; an unstake is confirmed once the time since the request
/// divided by it reaches 2.
pub const MINUTES_PER_DAY: i64 = 24 * 60;

impl UserStake {
    pub fn new(user: Pubkey, token: Pubkey, time: i64) -> (s: UserStake)
        ensures
            s.user == user,
            s.token == token,
            s.merit_value == 0,
            s.status == 0,
            s.stake_start_time == time,
            s.requst_unstake_time == 0,
            s.unstake_end_time == 0,
    {
        UserStake {
            user,
            token,
            merit_value: 0,
            status: 0,
            stake_start_time: time,
            requst_unstake_time: 0,
            unstake_end_time: 0,
        }
    }

    /// Whole days from the stake's start to `time` (negative when `time` is
    /// earlier; the difference is clamped to the range of `i64`).
    pub fn days_since_start_clamped(&self, time: i64) -> (r: Result<i64, GlobalError>)
        ensures
            r matches Ok(d) && d == div_trunc(
                spec_saturating_sub_i64(time, self.stake_start_time) as int,
                86400,
            ),
    {
        let elapsed = saturating_sub_i64(time, self.stake_start_time);
        Ok(elapsed / SECONDS_PER_DAY)
    }

    /// Marks the unstake as requested at `time`.
    pub fn set_request_unstake(&mut self, time: i64) -> (r: Result<(), GlobalError>)
        ensures
            r == Ok::<(), GlobalError>(()),
            *final(self) == (UserStake { requst_unstake_time: time, status: 1, ..*old(self) }),
    {
        self.requst_unstake_time = time;
        self.status = 1;
        Ok(())
    }

    /// Marks the unstake as confirmed at `time`.
    pub fn set_unstake_confirm(&mut self, time: i64) -> (r: Result<(), GlobalError>)
        ensures
            r == Ok::<(), GlobalError>(()),
            *final(self) == (UserStake { unstake_end_time: time, status: 2, ..*old(self) }),
    {
        self.unstake_end_time = time;
        self.status = 2;
        Ok(())
    }

    /// Whether an unstake may be confirmed at `time`: it must have been
    /// requested, and the seconds since the request divided by 1440 must
    /// reach 2.
    pub fn check_request_unstake(&self, time: i64) -> (r: Result<(), GlobalError>)
        ensures
            r == spec_unstake_check(*self, time),
    {
        if self.requst_unstake_time == 0 {
            return Err(GlobalError::UnstakeNotRequest);
        }
        let value = match time.checked_sub(self.requst_unstake_time) {
            Some(v) => v,
            None => {
                return Err(GlobalError::MathUnderflow);
            },
        };
        if value / MINUTES_PER_DAY < 2 {
            return Err(GlobalError::UnstakeTooSoon);
        }
        Ok(())
    }
}

} // verus!
