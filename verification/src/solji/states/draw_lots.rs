//! Fortune lots: the seven lot kinds, drawn records and the draw state.
use vstd::prelude::*;

use crate::pubkey::Pubkey;

verus! {

/// One drawn lot.
#[derive(Clone, Debug)]
pub struct LotteryRecord {
    pub user: Pubkey,
    pub lottery_type: LotteryType,
    pub lottery_poetry: String,
    pub create_at: i64,
    /// Merit the draw cost.
    pub merit_value: u64,
}

/// Merit a draw costs once the free draw of the day is used.
pub const LOTTERY_FEE_MERIT: u64 = 5;

pub const LOTTERY_NFT_NAME: &'static str = "Omikuji NFT";

pub const LOTTERY_NFT_SYMBOL: &'static str = "Omikuji";

pub const LOTTERY_NFT_URL: &'static str = "https://solji.io/";

impl LotteryRecord {
    pub fn new(
        user: Pubkey,
        lottery_type: LotteryType,
        lottery_poetry: String,
        create_at: i64,
        merit_value: u64,
    ) -> (r: LotteryRecord)
        ensures
            r.user == user,
            r.lottery_type == lottery_type,
            r.lottery_poetry@ == lottery_poetry@,
            r.create_at == create_at,
            r.merit_value == merit_value,
    {
        LotteryRecord { user, lottery_type, lottery_poetry, create_at, merit_value }
    }
}

/// The seven lot kinds, from excellent to terrible luck.
#[derive(Clone, Copy, Debug, PartialEq, Eq, Structural)]
pub enum LotteryType {
    ExcellentLuck,
    ModerateLuck,
    SlightLuck,
    Favorable,
    FutureLuck,
    SlightBadLuck,
    TerribleLuck,
}

/// The lot kind at each position of the lot table.
pub open spec fn spec_lottery_at(index: int) -> LotteryType {
    if index == 0 {
        LotteryType::ExcellentLuck
    } else if index == 1 {
        LotteryType::ModerateLuck
    } else if index == 2 {
        LotteryType::SlightLuck
    } else if index == 3 {
        LotteryType::Favorable
    } else if index == 4 {
        LotteryType::FutureLuck
    } else if index == 5 {
        LotteryType::SlightBadLuck
    } else {
        LotteryType::TerribleLuck
    }
}

pub open spec fn spec_lottery_poetry(t: LotteryType) -> Seq<char> {
    match t {
        LotteryType::ExcellentLuck => "链上祥瑞至，财富节节高"@,
        LotteryType::ModerateLuck => "趋势已明朗，钱包鼓鼓囊"@,
        LotteryType::SlightLuck => "仓中资产涨，日日有进账"@,
        LotteryType::Favorable => "日日有小进，岁岁无烦忧"@,
        LotteryType::FutureLuck => "暂有小阻碍，坚持见曙光"@,
        LotteryType::SlightBadLuck => "链上多陷阱，操作需谨慎"@,
        LotteryType::TerribleLuck => "市场风浪急，三思为上计"@,
    }
}

impl LotteryType {
    /// The verse printed on a lot of this kind.
    pub fn get_lottery_poety(&self) -> (s: &'static str)
        ensures
            s@ == spec_lottery_poetry(*self),
    {
        match self {
            LotteryType::ExcellentLuck => "链上祥瑞至，财富节节高",
            LotteryType::ModerateLuck => "趋势已明朗，钱包鼓鼓囊",
            LotteryType::SlightLuck => "仓中资产涨，日日有进账",
            LotteryType::Favorable => "日日有小进，岁岁无烦忧",
            LotteryType::FutureLuck => "暂有小阻碍，坚持见曙光",
            LotteryType::SlightBadLuck => "链上多陷阱，操作需谨慎",
            LotteryType::TerribleLuck => "市场风浪急，三思为上计",
        }
    }
}

/// The lot table: the seven kinds in order.
#[derive(Clone, Copy, Debug)]
pub struct LotteryConfig {
    pub lottery_array: [LotteryType; 7],
}

impl LotteryConfig {
    pub fn new() -> (c: LotteryConfig)
        ensures
            forall|i: int| 0 <= i < 7 ==> c.lottery_array@[i] == spec_lottery_at(i),
    {
        LotteryConfig {
            lottery_array: [
                LotteryType::ExcellentLuck,
                LotteryType::ModerateLuck,
                LotteryType::SlightLuck,
                LotteryType::Favorable,
                LotteryType::FutureLuck,
                LotteryType::SlightBadLuck,
                LotteryType::TerribleLuck,
            ],
        }
    }

    /// The lot kind at `index` (below 7).
    pub fn get_lottery_type(&self, index: u64) -> (t: LotteryType)
        requires
            index < 7,
        ensures
            t == self.lottery_array@[index as int],
    {
        self.lottery_array[index as usize]
    }
}

/// Per-user commit state of a randomness request: a flip commits to a
/// randomness account and seed slot, a draw settles it.
#[derive(Clone, Copy, Debug)]
pub struct PlayerState {
    pub allowed_user: Pubkey,
    pub latest_flip_result: bool,
    pub randomness_account: Pubkey,
    pub commit_slot: u64,
    pub settled: bool,
    pub bump: u8,
}

} // verus!
