//! The temple program's user and statistics accounts, as far as its
//! instructions read and write them. Operations that can fail report
//! `MathOverflow`; the others saturate.
use vstd::prelude::*;

use crate::pubkey::Pubkey;
use crate::temple::errors::{ErrorCode, TempleProgramError};
use crate::temple::incense::spec_add_balance;

verus! {

/// A user's flags and totals.
#[derive(Clone, Copy, Debug)]
pub struct UserState {
    pub user: Pubkey,
    pub has_buddha_nft: bool,
    pub has_medal_nft: bool,
    pub has_minted_badge_nft: bool,
    pub pending_amulets: u32,
    /// Lamports donated to the fund.
    pub total_donation_amount: u64,
    /// Lamports spent on incense.
    pub total_spending: u64,
    /// Incense purchases made.
    pub buy_count: u64,
}

/// A user's incense points, merit, burns and incense stock.
#[derive(Clone, Copy, Debug)]
pub struct UserIncenseState {
    pub user: Pubkey,
    pub incense_points: u64,
    pub merit: u64,
    /// Sticks burned, cut to a byte.
    pub incense_number: u8,
    /// Sticks held of incense kinds 1 to 6, in that order.
    pub incense_balance: [u64; 6],
}

/// A user's donations.
#[derive(Clone, Copy, Debug)]
pub struct UserDonationState {
    pub user: Pubkey,
    /// Lamports donated.
    pub donation_amount: u64,
    pub donation_level: u8,
    pub total_donation_count: u64,
    pub last_donation_time: i64,
}

/// A user's medal NFT.
#[derive(Clone, Copy, Debug)]
pub struct MedalNft {
    pub owner: Pubkey,
    pub mint: Pubkey,
    pub level: u8,
    /// The owner's donation total when the medal last changed.
    pub total_donation: u64,
    pub minted_at: i64,
    pub last_upgrade: i64,
    /// The owner's merit when the medal was minted.
    pub merit: u64,
    pub serial_number: u64,
}

/// An amulet NFT account.
#[derive(Clone, Debug)]
pub struct AmuletNft {
    pub owner: Pubkey,
    pub mint: Pubkey,
    pub name: String,
    pub description: String,
    pub minted_at: i64,
    /// How it was obtained: 0 by a fortune draw, 1 by a wish.
    pub source: u8,
    pub serial_number: u32,
}

/// Totals over all users of the temple.
#[derive(Clone, Copy, Debug)]
pub struct GlobalStats {
    pub temple_config: Pubkey,
    pub total_incense_points: u64,
    pub total_merit: u64,
    pub total_draw_fortune: u64,
    pub total_wishes: u64,
    pub total_donations_lamports: u64,
    pub total_users: u64,
    pub total_fortune_nfts: u64,
    pub total_amulets: u64,
    pub total_buddha_lights: u64,
    pub updated_at: i64,
}

/// `a + b`, held at `u64::MAX`.
pub open spec fn sat_add(a: u64, b: u64) -> u64 {
    if a + b > u64::MAX {
        u64::MAX
    } else {
        (a + b) as u64
    }
}

/// Statistics of the temple configuration at `temple_config`, all zero,
/// as of `now`.
pub open spec fn spec_new_global_stats(temple_config: Pubkey, now: i64) -> GlobalStats {
    GlobalStats {
        temple_config,
        total_incense_points: 0,
        total_merit: 0,
        total_draw_fortune: 0,
        total_wishes: 0,
        total_donations_lamports: 0,
        total_users: 0,
        total_fortune_nfts: 0,
        total_amulets: 0,
        total_buddha_lights: 0,
        updated_at: now,
    }
}

/// The user's incense state after earning `points` incense points and
/// `merit` merit.
pub open spec fn spec_user_earn(u: UserIncenseState, points: u64, merit: u64) -> UserIncenseState {
    UserIncenseState {
        incense_points: sat_add(u.incense_points, points),
        merit: sat_add(u.merit, merit),
        ..u
    }
}

/// The statistics after `points` incense points and `merit` merit are
/// earned.
pub open spec fn spec_stats_earn(g: GlobalStats, points: u64, merit: u64) -> GlobalStats {
    GlobalStats {
        total_incense_points: sat_add(g.total_incense_points, points),
        total_merit: sat_add(g.total_merit, merit),
        ..g
    }
}

/// The donation state after a donation of `amount` lamports.
pub open spec fn spec_process_donation(d: UserDonationState, amount: u64) -> UserDonationState {
    UserDonationState {
        donation_amount: sat_add(d.donation_amount, amount),
        total_donation_count: sat_add(d.total_donation_count, 1),
        ..d
    }
}

impl GlobalStats {
    /// Statistics of the temple configuration at `temple_config`, all zero.
    pub fn new(temple_config: Pubkey, now: i64) -> (g: GlobalStats)
        ensures
            g == spec_new_global_stats(temple_config, now),
    {
        GlobalStats {
            temple_config,
            total_incense_points: 0,
            total_merit: 0,
            total_draw_fortune: 0,
            total_wishes: 0,
            total_donations_lamports: 0,
            total_users: 0,
            total_fortune_nfts: 0,
            total_amulets: 0,
            total_buddha_lights: 0,
            updated_at: now,
        }
    }

    /// Adds earned incense points and merit.
    pub fn add_incense_value_and_merit(&mut self, points: u64, merit: u64)
        ensures
            *final(self) == spec_stats_earn(*old(self), points, merit),
    {
        self.total_incense_points = self.total_incense_points.saturating_add(points);
        self.total_merit = self.total_merit.saturating_add(merit);
    }

    /// Adds a donation of `amount` lamports.
    pub fn add_donation(&mut self, amount: u64)
        ensures
            *final(self) == (GlobalStats {
                total_donations_lamports: sat_add(old(self).total_donations_lamports, amount),
                ..*old(self)
            }),
    {
        self.total_donations_lamports = self.total_donations_lamports.saturating_add(amount);
    }

    /// Counts one more minted amulet NFT.
    pub fn increment_amulets(&mut self)
        ensures
            *final(self) == (GlobalStats {
                total_amulets: sat_add(old(self).total_amulets, 1),
                ..*old(self)
            }),
    {
        self.total_amulets = self.total_amulets.saturating_add(1);
    }

    /// Counts one more minted medal NFT.
    pub fn increment_fortune_nfts(&mut self)
        ensures
            *final(self) == (GlobalStats {
                total_fortune_nfts: sat_add(old(self).total_fortune_nfts, 1),
                ..*old(self)
            }),
    {
        self.total_fortune_nfts = self.total_fortune_nfts.saturating_add(1);
    }
}

impl UserIncenseState {
    /// Adds earned incense points and merit.
    pub fn add_incense_value_and_merit(&mut self, points: u64, merit: u64)
        ensures
            *final(self) == spec_user_earn(*old(self), points, merit),
    {
        self.incense_points = self.incense_points.saturating_add(points);
        self.merit = self.merit.saturating_add(merit);
    }

    /// Adds `quantity` sticks of incense kind `incense_id` (1 to 6) to the
    /// stock; on error (`InvalidIncenseId`, `MathOverflow`) nothing changes.
    pub fn add_incense_balance(&mut self, incense_id: u8, quantity: u64) -> (r: Result<
        (),
        TempleProgramError,
    >)
        ensures
            spec_add_balance(old(self).incense_balance@, incense_id, quantity) matches Ok(b) ==> r
                is Ok && final(self).incense_balance@ == b && *final(self) == (UserIncenseState {
                incense_balance: final(self).incense_balance,
                ..*old(self)
            }),
            spec_add_balance(old(self).incense_balance@, incense_id, quantity) matches Err(e) ==> r
                == Err::<(), TempleProgramError>(e) && *final(self) == *old(self),
    {
        if incense_id < 1 || incense_id > 6 {
            return Err(TempleProgramError::Code(ErrorCode::InvalidIncenseId));
        }
        let slot = (incense_id - 1) as usize;
        match self.incense_balance[slot].checked_add(quantity) {
            Some(v) => {
                self.incense_balance[slot] = v;
                Ok(())
            },
            None => Err(TempleProgramError::Code(ErrorCode::MathOverflow)),
        }
    }
}

impl UserDonationState {
    /// Records a donation of `amount` lamports.
    pub fn process_donation(&mut self, amount: u64)
        ensures
            *final(self) == spec_process_donation(*old(self), amount),
    {
        self.donation_amount = self.donation_amount.saturating_add(amount);
        self.total_donation_count = self.total_donation_count.saturating_add(1);
    }
}

impl UserState {
    /// Records `amount` lamports spent and one more purchase.
    pub fn record_purchase(&mut self, amount: u64) -> (r: Result<(), TempleProgramError>)
        ensures
            old(self).total_spending + amount > u64::MAX || old(self).buy_count == u64::MAX ==> r
                == Err::<(), TempleProgramError>(TempleProgramError::Code(ErrorCode::MathOverflow))
                && *final(self) == *old(self),
            old(self).total_spending + amount <= u64::MAX && old(self).buy_count < u64::MAX ==> r
                is Ok && *final(self) == (UserState {
                total_spending: (old(self).total_spending + amount) as u64,
                buy_count: (old(self).buy_count + 1) as u64,
                ..*old(self)
            }),
    {
        if self.total_spending > u64::MAX - amount || self.buy_count == u64::MAX {
            return Err(TempleProgramError::Code(ErrorCode::MathOverflow));
        }
        self.total_spending = self.total_spending + amount;
        self.buy_count = self.buy_count + 1;
        Ok(())
    }
}

} // verus!
