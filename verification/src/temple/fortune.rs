//! Drawing and sharing a fortune.
use vstd::prelude::*;

use crate::solji::instructions::draw_lots::le_u64;
use crate::solji::states::nft_mint::le_value;
use crate::temple::errors::{ErrorCode, TempleProgramError, UserError};

verus! {

/// The seven fortunes, from best to worst.
#[derive(Clone, Copy, Debug, PartialEq, Eq, Structural)]
pub enum FortuneResult {
    GreatLuck,
    Lucky,
    Good,
    Normal,
    Nobad,
    Bad,
    VeryBad,
}

/// Fortune of a random value from 0 to 99: 5% great luck (0-4), 10% luck
/// (5-14), 20% good (15-34), 30% normal (35-64), 20% slightly bad (65-84),
/// 10% bad (85-94), 5% very bad (95-99); a larger value counts as normal.
pub open spec fn spec_fortune_from_random(value: u8) -> FortuneResult {
    if value <= 4 {
        FortuneResult::GreatLuck
    } else if value <= 14 {
        FortuneResult::Lucky
    } else if value <= 34 {
        FortuneResult::Good
    } else if value <= 64 {
        FortuneResult::Normal
    } else if value <= 84 {
        FortuneResult::Nobad
    } else if value <= 94 {
        FortuneResult::Bad
    } else if value <= 99 {
        FortuneResult::VeryBad
    } else {
        FortuneResult::Normal
    }
}

/// Name of each fortune.
pub open spec fn spec_fortune_name(f: FortuneResult) -> Seq<char> {
    match f {
        FortuneResult::GreatLuck => "大吉"@,
        FortuneResult::Lucky => "吉"@,
        FortuneResult::Good => "小吉"@,
        FortuneResult::Normal => "正常"@,
        FortuneResult::Nobad => "小凶"@,
        FortuneResult::Bad => "凶"@,
        FortuneResult::VeryBad => "大凶"@,
    }
}

/// Saying of each fortune.
pub open spec fn spec_fortune_description(f: FortuneResult) -> Seq<char> {
    match f {
        FortuneResult::GreatLuck => "万事顺意，心想事成"@,
        FortuneResult::Lucky => "诸事顺利，渐入佳境"@,
        FortuneResult::Good => "平平淡淡，稳中求进"@,
        FortuneResult::Normal => "平平淡淡，顺其自然"@,
        FortuneResult::Nobad => "小心谨慎，化险为夷"@,
        FortuneResult::Bad => "诸事不利，谨慎为上"@,
        FortuneResult::VeryBad => "凶险重重，静待时机"@,
    }
}

impl FortuneResult {
    /// Name of the fortune.
    pub fn as_str(&self) -> (s: &'static str)
        ensures
            s@ == spec_fortune_name(*self),
    {
        match self {
            FortuneResult::GreatLuck => "大吉",
            FortuneResult::Lucky => "吉",
            FortuneResult::Good => "小吉",
            FortuneResult::Normal => "正常",
            FortuneResult::Nobad => "小凶",
            FortuneResult::Bad => "凶",
            FortuneResult::VeryBad => "大凶",
        }
    }

    /// Saying of the fortune.
    pub fn get_description(&self) -> (s: &'static str)
        ensures
            s@ == spec_fortune_description(*self),
    {
        match self {
            FortuneResult::GreatLuck => "万事顺意，心想事成",
            FortuneResult::Lucky => "诸事顺利，渐入佳境",
            FortuneResult::Good => "平平淡淡，稳中求进",
            FortuneResult::Normal => "平平淡淡，顺其自然",
            FortuneResult::Nobad => "小心谨慎，化险为夷",
            FortuneResult::Bad => "诸事不利，谨慎为上",
            FortuneResult::VeryBad => "凶险重重，静待时机",
        }
    }
}

/// Fortune of a random value from 0 to 99.
pub fn fortune_from_random(value: u8) -> (f: FortuneResult)
    ensures
        f == spec_fortune_from_random(value),
{
    if value <= 4 {
        FortuneResult::GreatLuck
    } else if value <= 14 {
        FortuneResult::Lucky
    } else if value <= 34 {
        FortuneResult::Good
    } else if value <= 64 {
        FortuneResult::Normal
    } else if value <= 84 {
        FortuneResult::Nobad
    } else if value <= 94 {
        FortuneResult::Bad
    } else if value <= 99 {
        FortuneResult::VeryBad
    } else {
        FortuneResult::Normal
    }
}

/// Random value from 0 to 99 read from a randomness account's data: its
/// first eight bytes, little-endian, modulo 100. The data must hold at least
/// 16 bytes.
pub fn random_value_from_account(data: &[u8]) -> (r: Result<u8, TempleProgramError>)
    ensures
        data@.len() < 16 ==> r == Err::<u8, TempleProgramError>(
            TempleProgramError::User(UserError::InvalidRandomnessAccount),
        ),
        data@.len() >= 16 ==> r == Ok::<u8, TempleProgramError>(
            (le_value(data@.subrange(0, 8)) % 100) as u8,
        ),
{
    if data.len() < 16 {
        return Err(TempleProgramError::User(UserError::InvalidRandomnessAccount));
    }
    let x = le_u64(data);
    Ok((x % 100) as u8)
}

/// Random value from 0 to 99 used when no randomness account is given: the
/// time, read as unsigned, plus the slot, modulo 100.
pub fn fallback_random_value(unix_timestamp: i64, slot: u64) -> (r: u8)
    requires
        (unix_timestamp as u64) + slot <= u64::MAX,
    ensures
        r == ((unix_timestamp as u64) + slot) % 100,
{
    let seed = (unix_timestamp as u64) + slot;
    (seed % 100) as u8
}

/// The random value 0 to 99 of a draw, from the randomness account's data
/// when one is given, else from the time and slot.
pub open spec fn spec_draw_value(randomness: Option<Seq<u8>>, now_ts: i64, slot: u64) -> Result<
    u8,
    TempleProgramError,
> {
    match randomness {
        Some(d) => if d.len() < 16 {
            Err(TempleProgramError::User(UserError::InvalidRandomnessAccount))
        } else {
            Ok((le_value(d.subrange(0, 8)) % 100) as u8)
        },
        None => Ok((((now_ts as u64) + slot) % 100) as u8),
    }
}

/// The fortune of a draw at `now_ts` and `slot`, from the randomness
/// account's data when one is given.
pub fn generate_fortune_result(randomness: Option<&[u8]>, now_ts: i64, slot: u64) -> (r: Result<
    FortuneResult,
    TempleProgramError,
>)
    requires
        randomness is None ==> (now_ts as u64) + slot <= u64::MAX,
    ensures
        r == match spec_draw_value(
            match randomness {
                Some(d) => Some(d@),
                None => None,
            },
            now_ts,
            slot,
        ) {
            Ok(v) => Ok(spec_fortune_from_random(v)),
            Err(e) => Err(e),
        },
{
    let value = match randomness {
        Some(d) => match random_value_from_account(d) {
            Ok(v) => v,
            Err(e) => {
                return Err(e);
            },
        },
        None => fallback_random_value(now_ts, slot),
    };
    Ok(fortune_from_random(value))
}

/// What a fortune draw yields.
#[derive(Clone, Copy, Debug, PartialEq, Eq, Structural)]
pub struct DrawFortuneResult {
    /// Merit the draw cost.
    pub reduce_karma_points: u64,
    /// Merit the draw earns.
    pub reward_karma_points: u64,
    pub current_timestamp: i64,
    /// Whether this was the free draw of the day.
    pub is_free_draw: bool,
    pub fortune: FortuneResult,
}

/// Merit a draw costs once the free draw of the day is used.
pub const DRAW_FORTUNE_COST: u64 = 5;

/// Merit every draw earns.
pub const DRAW_FORTUNE_REWARD: u64 = 2;

/// Outcome of a fortune draw by a user who drew `daily_draw_count` times
/// today and holds `karma_points` merit, at `now_ts` and `slot`: the first
/// draw of the day is free, later ones cost 5 merit, which the user must
/// hold; the fortune comes from the randomness account's data when one is
/// given, else from the time and slot.
pub open spec fn spec_draw_fortune(
    daily_draw_count: u64,
    karma_points: u64,
    randomness: Option<Seq<u8>>,
    now_ts: i64,
    slot: u64,
) -> Result<DrawFortuneResult, TempleProgramError> {
    let free = daily_draw_count == 0;
    let cost: u64 = if free {
        0
    } else {
        DRAW_FORTUNE_COST
    };
    if karma_points < cost {
        Err(TempleProgramError::User(UserError::NotEnoughKarmaPoints))
    } else {
        match spec_draw_value(randomness, now_ts, slot) {
            Err(e) => Err(e),
            Ok(v) => Ok(
                DrawFortuneResult {
                    reduce_karma_points: cost,
                    reward_karma_points: DRAW_FORTUNE_REWARD,
                    current_timestamp: now_ts,
                    is_free_draw: free,
                    fortune: spec_fortune_from_random(v),
                },
            ),
        }
    }
}

/// Draws a fortune; `randomness` is the data of the randomness account, when
/// one is given.
pub fn draw_fortune(
    daily_draw_count: u64,
    karma_points: u64,
    randomness: Option<&[u8]>,
    now_ts: i64,
    slot: u64,
) -> (r: Result<DrawFortuneResult, TempleProgramError>)
    requires
        randomness is None && (daily_draw_count == 0 || karma_points >= DRAW_FORTUNE_COST) ==> (
        now_ts as u64) + slot <= u64::MAX,
    ensures
        r == spec_draw_fortune(
            daily_draw_count,
            karma_points,
            match randomness {
                Some(d) => Some(d@),
                None => None,
            },
            now_ts,
            slot,
        ),
{
    let is_free_draw = daily_draw_count == 0;
    let reduce_karma_points: u64 = if is_free_draw {
        0
    } else {
        DRAW_FORTUNE_COST
    };
    if karma_points < reduce_karma_points {
        return Err(TempleProgramError::User(UserError::NotEnoughKarmaPoints));
    }
    let fortune = match generate_fortune_result(randomness, now_ts, slot) {
        Ok(f) => f,
        Err(e) => {
            return Err(e);
        },
    };
    Ok(
        DrawFortuneResult {
            reduce_karma_points,
            reward_karma_points: DRAW_FORTUNE_REWARD,
            current_timestamp: now_ts,
            is_free_draw,
            fortune,
        },
    )
}

/// Seconds after a draw within which sharing it earns merit.
pub const SHARE_WINDOW: i64 = 86_400;

/// Shares the last fortune drawn at `last_draw_time`, at `now`: allowed up
/// to a day after the draw (`ShareTooLate` later); returns the merit it
/// earns, 1.
pub fn share_fortune(now: i64, last_draw_time: i64) -> (r: Result<u64, TempleProgramError>)
    requires
        i64::MIN <= now - last_draw_time <= i64::MAX,
    ensures
        now - last_draw_time <= SHARE_WINDOW ==> r == Ok::<u64, TempleProgramError>(1),
        now - last_draw_time > SHARE_WINDOW ==> r == Err::<u64, TempleProgramError>(
            TempleProgramError::Code(ErrorCode::ShareTooLate),
        ),
{
    let since = now - last_draw_time;
    if since > SHARE_WINDOW {
        return Err(TempleProgramError::Code(ErrorCode::ShareTooLate));
    }
    Ok(1)
}

} // verus!
