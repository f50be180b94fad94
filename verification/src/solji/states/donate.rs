//! Donations: records, the per-user counter, reward tiers and medals.
use vstd::prelude::*;

use crate::pubkey::Pubkey;
use crate::solji::errors::GlobalError;
use crate::solji::states::incense_config::{spec_incense_index, IncenseType};
use crate::solji::states::user::{spec_add_donated_sticks, UserInfo};

verus! {

/// Lamports in one SOL.
pub const LAMPORTS_PER_SOL: u64 = 1_000_000_000;

/// One donation.
#[derive(Clone, Copy, Debug)]
pub struct DonateRecord {
    pub user: Pubkey,
    /// Donated lamports.
    pub amount: u64,
    pub merit_value: u64,
    pub incense_value: u64,
    pub create_at: i64,
}

/// Per-user donation counter, used to number donation records.
#[derive(Clone, Copy, Debug)]
pub struct DonateCounter {
    pub user: Pubkey,
    pub count: u32,
}

impl DonateCounter {
    pub fn new(user: Pubkey) -> (c: DonateCounter)
        ensures
            c.user == user,
            c.count == 0,
    {
        DonateCounter { user, count: 0 }
    }

    /// Counts one donation.
    pub fn increment(&mut self) -> (r: Result<(), GlobalError>)
        ensures
            old(self).count == u32::MAX ==> r == Err::<(), GlobalError>(GlobalError::MathOverflow)
                && final(self).count == old(self).count,
            old(self).count < u32::MAX ==> r is Ok && final(self).count == old(self).count + 1,
            final(self).user == old(self).user,
    {
        match self.count.checked_add(1) {
            Some(n) => {
                self.count = n;
                Ok(())
            },
            None => Err(GlobalError::MathOverflow),
        }
    }
}

/// Donation tier of an amount of lamports: 0 below 0.05 SOL, then 1 from
/// 0.05 SOL, 2 from 0.2 SOL, 3 from 1 SOL and 4 from 5 SOL.
pub open spec fn spec_donation_tier(amount: u64) -> int {
    if amount < 50_000_000 {
        0
    } else if amount < 200_000_000 {
        1
    } else if amount < 1_000_000_000 {
        2
    } else if amount < 5_000_000_000 {
        3
    } else {
        4
    }
}

/// (merit, incense value) rewarded at each donation tier.
pub open spec fn spec_tier_rewards(tier: int) -> (u64, u64) {
    if tier == 1 {
        (65, 1200)
    } else if tier == 2 {
        (1300, 6300)
    } else if tier == 3 {
        (14_000, 30_000)
    } else if tier == 4 {
        (120_000, 100_000)
    } else {
        (0, 0)
    }
}

/// Medal of each donation tier.
pub open spec fn spec_tier_medal(tier: int) -> MedalLevel {
    if tier == 1 {
        MedalLevel::Bronze
    } else if tier == 2 {
        MedalLevel::Silver
    } else if tier == 3 {
        MedalLevel::Gold
    } else if tier == 4 {
        MedalLevel::Supreme
    } else {
        MedalLevel::NoMedal
    }
}

/// Rank of each medal, from 0 (none) to 4 (supreme).
pub open spec fn spec_medal_rank(m: MedalLevel) -> int {
    match m {
        MedalLevel::NoMedal => 0,
        MedalLevel::Bronze => 1,
        MedalLevel::Silver => 2,
        MedalLevel::Gold => 3,
        MedalLevel::Supreme => 4,
    }
}

impl DonateRecord {
    /// A record of `amount` lamports donated by `user` at `create_at`, with no
    /// rewards yet.
    pub fn new(user: Pubkey, amount: u64, create_at: i64) -> (r: DonateRecord)
        ensures
            r == (DonateRecord { user, amount, merit_value: 0, incense_value: 0, create_at }),
    {
        DonateRecord { user, amount, merit_value: 0, incense_value: 0, create_at }
    }

    /// Sets the rewards the donation earned.
    pub fn update_rewards(&mut self, merit_value: u64, incense_value: u64)
        ensures
            *final(self) == (DonateRecord { merit_value, incense_value, ..*old(self) }),
    {
        self.merit_value = merit_value;
        self.incense_value = incense_value;
    }

    /// (merit, incense value) earned by a donation of `amount` lamports.
    pub fn get_donation_rewards(amount: u64) -> (r: (u64, u64))
        ensures
            r == spec_tier_rewards(spec_donation_tier(amount)),
    {
        if amount >= 50_000_000 && amount <= 199_999_999 {
            (65, 1200)
        } else if amount >= 200_000_000 && amount <= 999_999_999 {
            (1300, 6300)
        } else if amount >= 1_000_000_000 && amount <= 4_999_999_999 {
            (14_000, 30_000)
        } else if amount >= 5_000_000_000 {
            (120_000, 100_000)
        } else {
            (0, 0)
        }
    }

    /// Medal earned by a total donation of `total_donation` lamports.
    pub fn get_badge_level(total_donation: u64) -> (m: MedalLevel)
        ensures
            m == spec_tier_medal(spec_donation_tier(total_donation)),
    {
        if total_donation >= 50_000_000 && total_donation <= 199_999_999 {
            MedalLevel::Bronze
        } else if total_donation >= 200_000_000 && total_donation <= 999_999_999 {
            MedalLevel::Silver
        } else if total_donation >= 1_000_000_000 && total_donation <= 4_999_999_999 {
            MedalLevel::Gold
        } else if total_donation >= 5_000_000_000 {
            MedalLevel::Supreme
        } else {
            MedalLevel::NoMedal
        }
    }
}

/// Donation medals, from none to supreme.
#[derive(Clone, Copy, Debug, PartialEq, Eq, Structural)]
pub enum MedalLevel {
    NoMedal,
    Bronze,
    Silver,
    Gold,
    Supreme,
}

pub open spec fn spec_medal_nft_name(m: MedalLevel) -> Seq<char> {
    match m {
        MedalLevel::NoMedal => ""@,
        MedalLevel::Bronze => "Beginner Merit Bronze Medal"@,
        MedalLevel::Silver => "Diligence Silver Medal"@,
        MedalLevel::Gold => "Dharma Protector Gold Medal"@,
        MedalLevel::Supreme => "Supreme Dragon Medal"@,
    }
}

pub open spec fn spec_medal_symbol(m: MedalLevel) -> Seq<char> {
    match m {
        MedalLevel::NoMedal => ""@,
        MedalLevel::Bronze => "Bronze"@,
        MedalLevel::Silver => "Silver"@,
        MedalLevel::Gold => "Gold"@,
        MedalLevel::Supreme => "Supreme"@,
    }
}

pub open spec fn spec_medal_uri(m: MedalLevel) -> Seq<char> {
    match m {
        MedalLevel::NoMedal => ""@,
        MedalLevel::Bronze => "https://xxx/bronze.json"@,
        MedalLevel::Silver => "https://xxx/silver.json"@,
        MedalLevel::Gold => "https://xxx/gold.json"@,
        MedalLevel::Supreme => "https://xxx/supreme.json"@,
    }
}

impl MedalLevel {
    /// Name of the medal NFT.
    pub fn get_nft_name(&self) -> (s: String)
        ensures
            s@ == spec_medal_nft_name(*self),
    {
        match self {
            MedalLevel::NoMedal => String::from_str(""),
            MedalLevel::Bronze => String::from_str("Beginner Merit Bronze Medal"),
            MedalLevel::Silver => String::from_str("Diligence Silver Medal"),
            MedalLevel::Gold => String::from_str("Dharma Protector Gold Medal"),
            MedalLevel::Supreme => String::from_str("Supreme Dragon Medal"),
        }
    }

    /// Symbol of the medal NFT.
    pub fn get_symbol(&self) -> (s: String)
        ensures
            s@ == spec_medal_symbol(*self),
    {
        match self {
            MedalLevel::NoMedal => String::from_str(""),
            MedalLevel::Bronze => String::from_str("Bronze"),
            MedalLevel::Silver => String::from_str("Silver"),
            MedalLevel::Gold => String::from_str("Gold"),
            MedalLevel::Supreme => String::from_str("Supreme"),
        }
    }

    /// Metadata URI of the medal NFT.
    pub fn get_nft_uri(&self) -> (s: String)
        ensures
            s@ == spec_medal_uri(*self),
    {
        match self {
            MedalLevel::NoMedal => String::from_str(""),
            MedalLevel::Bronze => String::from_str("https://xxx/bronze.json"),
            MedalLevel::Silver => String::from_str("https://xxx/silver.json"),
            MedalLevel::Gold => String::from_str("https://xxx/gold.json"),
            MedalLevel::Supreme => String::from_str("https://xxx/supreme.json"),
        }
    }

    /// (merit, incense value) attached to the medal.
    pub fn get_badge_level_reward(&self) -> (r: (u64, u64))
        ensures
            r == spec_tier_rewards(spec_medal_rank(*self)),
    {
        match self {
            MedalLevel::NoMedal => (0, 0),
            MedalLevel::Bronze => (65, 1200),
            MedalLevel::Silver => (1300, 6300),
            MedalLevel::Gold => (14000, 30000),
            MedalLevel::Supreme => (120000, 100000),
        }
    }
}

/// Incense kind and number of sticks granted for a donation of `d` lamports:
/// one clear stick per 0.01 SOL below 5 SOL; ten secret sticks per whole 5 SOL
/// up to 50 SOL; five celestial sticks per whole 50 SOL above.
pub open spec fn spec_donation_sticks(d: u64) -> (IncenseType, u64) {
    if d < 5_000_000_000 {
        (IncenseType::ClearIncense, (d / 10_000_000) as u64)
    } else if d <= 50_000_000_000 {
        (IncenseType::SecretBrewIncense, ((d / 5_000_000_000) * 10) as u64)
    } else {
        (IncenseType::CelestialIncense, ((d / 50_000_000_000) * 5) as u64)
    }
}

/// Grants the incense sticks a donation of `donation_sol` lamports earns.
pub fn calc_incense_rewards(donation_sol: u64, user_info: &mut UserInfo) -> (r: Result<
    (),
    GlobalError,
>)
    ensures
        (r, final(user_info)@) == spec_add_donated_sticks(
            old(user_info)@,
            spec_incense_index(spec_donation_sticks(donation_sol).0),
            spec_donation_sticks(donation_sol).1,
        ),
        spec_donation_sticks(donation_sol).1 <= u32::MAX,
{
    if donation_sol < 5 * LAMPORTS_PER_SOL {
        let number = donation_sol / 10_000_000;
        user_info.update_incense_donate_count(IncenseType::ClearIncense, number)
    } else if donation_sol <= 50 * LAMPORTS_PER_SOL {
        let units_of_5 = donation_sol / (5 * LAMPORTS_PER_SOL);
        let secret = units_of_5 * 10;
        user_info.update_incense_donate_count(IncenseType::SecretBrewIncense, secret)
    } else {
        let units_of_50 = donation_sol / (50 * LAMPORTS_PER_SOL);
        let celestial = units_of_50 * 5;
        user_info.update_incense_donate_count(IncenseType::CelestialIncense, celestial)
    }
}

} // verus!
