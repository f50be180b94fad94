//! The temple account: totals of all activity and the temple level.
use vstd::prelude::*;

use crate::pubkey::Pubkey;
use crate::solji::errors::GlobalError;

verus! {

/// Highest temple level; the upgrade table has a row for each level below it.
pub const MAX_TEMPLE_LEVEL: u8 = 3;

/// Global temple account.
#[derive(Clone, Copy, Debug)]
pub struct Temple {
    pub admin: Pubkey,
    pub level: u8,
    pub total_incense_value: u64,
    pub total_merit_value: u64,
    pub total_burn_count: u64,
    pub total_lottery_count: u64,
    pub total_wish_count: u64,
    pub total_donate_amount: u64,
    pub total_donate_count: u64,
    pub total_amulet_count: u64,
    pub buddha_nft_count: u64,
    pub wealth: u64,
}

/// Requirements (incense value, lots, wishes, donated lamports, amulets) a
/// temple at `level` must reach to rise one level.
pub open spec fn spec_upgrade_condition(level: u8) -> (u64, u64, u64, u64, u64) {
    if level == 0 {
        (0, 0, 0, 0, 0)
    } else if level == 1 {
        (1, 1, 1, 1, 0)
    } else if level == 2 {
        (2, 2, 2, 2, 1)
    } else {
        (3, 3, 3, 3, 1)
    }
}

/// The upgrade table row of `level` (`level` is at most the highest level).
pub fn upgrade_condition(level: u8) -> (c: (u64, u64, u64, u64, u64))
    requires
        level <= MAX_TEMPLE_LEVEL,
    ensures
        c == spec_upgrade_condition(level),
{
    if level == 0 {
        (0, 0, 0, 0, 0)
    } else if level == 1 {
        (1, 1, 1, 1, 0)
    } else if level == 2 {
        (2, 2, 2, 2, 1)
    } else {
        (3, 3, 3, 3, 1)
    }
}

/// Whether the temple's totals reach the requirements of its current level.
pub open spec fn meets_upgrade_condition(t: Temple) -> bool {
    let c = spec_upgrade_condition(t.level);
    &&& t.total_incense_value >= c.0
    &&& t.total_lottery_count >= c.1
    &&& t.total_wish_count >= c.2
    &&& t.total_donate_amount >= c.3
    &&& t.total_amulet_count >= c.4
}

/// The temple after one upgrade check: one level up when below the highest
/// level and the requirements of its level are met, otherwise unchanged.
pub open spec fn spec_upgraded(t: Temple) -> Temple {
    if t.level < MAX_TEMPLE_LEVEL && meets_upgrade_condition(t) {
        Temple { level: (t.level + 1) as u8, ..t }
    } else {
        t
    }
}

/// A fresh temple owned by `admin`.
pub open spec fn spec_new_temple(admin: Pubkey) -> Temple {
    Temple {
        admin,
        level: 1,
        total_incense_value: 0,
        total_merit_value: 0,
        total_burn_count: 0,
        total_lottery_count: 0,
        total_wish_count: 0,
        total_donate_amount: 0,
        total_donate_count: 0,
        total_amulet_count: 0,
        buddha_nft_count: 0,
        wealth: 0,
    }
}

/// Outcome of adding incense and merit: the incense total overflows first,
/// then the merit total (which leaves the new incense total in place).
pub open spec fn spec_add_incense_and_merit(t: Temple, incense: u64, merit: u64) -> (
    Result<(), GlobalError>,
    Temple,
) {
    if t.total_incense_value + incense > u64::MAX {
        (Err(GlobalError::MathOverflow), t)
    } else if t.total_merit_value + merit > u64::MAX {
        (
            Err(GlobalError::MathOverflow),
            Temple { total_incense_value: (t.total_incense_value + incense) as u64, ..t },
        )
    } else {
        (
            Ok(()),
            Temple {
                total_incense_value: (t.total_incense_value + incense) as u64,
                total_merit_value: (t.total_merit_value + merit) as u64,
                ..t
            },
        )
    }
}

/// Outcome of one incense burn at the temple.
pub open spec fn spec_burn_at_temple(t: Temple, incense: u64, merit: u64) -> (
    Result<(), GlobalError>,
    Temple,
) {
    let (r, t1) = spec_add_incense_and_merit(t, incense, merit);
    if r is Err {
        (r, t1)
    } else if t1.total_burn_count + 1 > u64::MAX {
        (Err(GlobalError::MathOverflow), t1)
    } else {
        (Ok(()), spec_upgraded(Temple { total_burn_count: (t1.total_burn_count + 1) as u64, ..t1 }))
    }
}

/// Outcome of one donation of `amount` lamports at the temple.
pub open spec fn spec_donate_at_temple(t: Temple, amount: u64) -> (Result<(), GlobalError>, Temple) {
    if t.total_donate_amount + amount > u64::MAX {
        (Err(GlobalError::MathOverflow), t)
    } else if t.total_donate_count + 1 > u64::MAX {
        (
            Err(GlobalError::MathOverflow),
            Temple { total_donate_amount: (t.total_donate_amount + amount) as u64, ..t },
        )
    } else {
        (
            Ok(()),
            spec_upgraded(
                Temple {
                    total_donate_amount: (t.total_donate_amount + amount) as u64,
                    total_donate_count: (t.total_donate_count + 1) as u64,
                    ..t
                },
            ),
        )
    }
}

/// Outcome of counting one drawn lot.
pub open spec fn spec_add_lottery(t: Temple) -> (Result<(), GlobalError>, Temple) {
    if t.total_lottery_count == u64::MAX {
        (Err(GlobalError::MathOverflow), t)
    } else {
        (Ok(()), spec_upgraded(Temple { total_lottery_count: (t.total_lottery_count + 1) as u64, ..t }))
    }
}

/// Outcome of counting one amulet.
pub open spec fn spec_add_amulet(t: Temple) -> (Result<(), GlobalError>, Temple) {
    if t.total_amulet_count == u64::MAX {
        (Err(GlobalError::MathOverflow), t)
    } else {
        (Ok(()), Temple { total_amulet_count: (t.total_amulet_count + 1) as u64, ..t })
    }
}

/// Outcome of counting one wish.
pub open spec fn spec_add_wish(t: Temple) -> (Result<(), GlobalError>, Temple) {
    if t.total_wish_count == u64::MAX {
        (Err(GlobalError::MathOverflow), t)
    } else {
        (Ok(()), spec_upgraded(Temple { total_wish_count: (t.total_wish_count + 1) as u64, ..t }))
    }
}

/// Outcome of adding `amount` to the temple's wealth.
pub open spec fn spec_add_wealth(t: Temple, amount: u64) -> (Result<(), GlobalError>, Temple) {
    if t.wealth + amount > u64::MAX {
        (Err(GlobalError::MathOverflow), t)
    } else {
        (Ok(()), Temple { wealth: (t.wealth + amount) as u64, ..t })
    }
}

/// Outcome of adding staking merit to the temple's merit total.
pub open spec fn spec_add_stake_merit(t: Temple, merit: u64) -> (Result<(), GlobalError>, Temple) {
    if t.total_merit_value + merit > u64::MAX {
        (Err(GlobalError::MathOverflow), t)
    } else {
        (Ok(()), Temple { total_merit_value: (t.total_merit_value + merit) as u64, ..t })
    }
}

impl Temple {
    pub fn new(admin: Pubkey) -> (t: Temple)
        ensures
            t == spec_new_temple(admin),
    {
        Temple {
            admin,
            level: 1,
            total_incense_value: 0,
            total_merit_value: 0,
            total_burn_count: 0,
            total_lottery_count: 0,
            total_wish_count: 0,
            total_donate_amount: 0,
            total_donate_count: 0,
            total_amulet_count: 0,
            buddha_nft_count: 0,
            wealth: 0,
        }
    }

    /// Records one incense burn: adds its incense and merit value, counts the
    /// burn and checks for a level upgrade.
    pub fn add_temple_incense_and_merit_attribute_upgrade(
        &mut self,
        incense_value: u64,
        merit_value: u64,
    ) -> (r: Result<(), GlobalError>)
        ensures
            (r, *final(self)) == spec_burn_at_temple(*old(self), incense_value, merit_value),
    {
        match self.add_temple_incense_and_merit(incense_value, merit_value) {
            Ok(()) => {},
            Err(e) => {
                return Err(e);
            },
        }
        match self.total_burn_count.checked_add(1) {
            Some(n) => {
                self.total_burn_count = n;
            },
            None => {
                return Err(GlobalError::MathOverflow);
            },
        }
        match self.check_and_temple_upgrade() {
            Ok(()) => {},
            Err(e) => {
                return Err(e);
            },
        }
        Ok(())
    }

    /// Adds incense value and merit value to the totals.
    pub fn add_temple_incense_and_merit(&mut self, incense_value: u64, merit_value: u64) -> (r:
        Result<(), GlobalError>)
        ensures
            (r, *final(self)) == spec_add_incense_and_merit(*old(self), incense_value, merit_value),
    {
        match self.total_incense_value.checked_add(incense_value) {
            Some(n) => {
                self.total_incense_value = n;
            },
            None => {
                return Err(GlobalError::MathOverflow);
            },
        }
        match self.total_merit_value.checked_add(merit_value) {
            Some(n) => {
                self.total_merit_value = n;
            },
            None => {
                return Err(GlobalError::MathOverflow);
            },
        }
        Ok(())
    }

    /// Counts one drawn lot and checks for a level upgrade.
    pub fn add_temple_lottery(&mut self) -> (r: Result<(), GlobalError>)
        ensures
            (r, *final(self)) == spec_add_lottery(*old(self)),
    {
        match self.total_lottery_count.checked_add(1) {
            Some(n) => {
                self.total_lottery_count = n;
            },
            None => {
                return Err(GlobalError::MathOverflow);
            },
        }
        self.check_and_temple_upgrade()
    }

    /// Counts one amulet.
    pub fn amulet_increment(&mut self) -> (r: Result<(), GlobalError>)
        ensures
            (r, *final(self)) == spec_add_amulet(*old(self)),
    {
        match self.total_amulet_count.checked_add(1) {
            Some(n) => {
                self.total_amulet_count = n;
                Ok(())
            },
            None => Err(GlobalError::MathOverflow),
        }
    }

    /// Counts one wish and checks for a level upgrade.
    pub fn add_temple_wish(&mut self) -> (r: Result<(), GlobalError>)
        ensures
            (r, *final(self)) == spec_add_wish(*old(self)),
    {
        match self.total_wish_count.checked_add(1) {
            Some(n) => {
                self.total_wish_count = n;
            },
            None => {
                return Err(GlobalError::MathOverflow);
            },
        }
        self.check_and_temple_upgrade()
    }

    /// Adds a donation of `amount` lamports, counts it and checks for a level
    /// upgrade.
    pub fn add_temple_donate_amount(&mut self, amount: u64) -> (r: Result<(), GlobalError>)
        ensures
            (r, *final(self)) == spec_donate_at_temple(*old(self), amount),
    {
        match self.total_donate_amount.checked_add(amount) {
            Some(n) => {
                self.total_donate_amount = n;
            },
            None => {
                return Err(GlobalError::MathOverflow);
            },
        }
        match self.total_donate_count.checked_add(1) {
            Some(n) => {
                self.total_donate_count = n;
            },
            None => {
                return Err(GlobalError::MathOverflow);
            },
        }
        self.check_and_temple_upgrade()
    }

    /// Raises the level by one when the requirements of the current level are
    /// met; a temple at the highest level stays there.
    pub fn check_and_temple_upgrade(&mut self) -> (r: Result<(), GlobalError>)
        ensures
            r == Ok::<(), GlobalError>(()),
            *final(self) == spec_upgraded(*old(self)),
    {
        if self.level >= MAX_TEMPLE_LEVEL {
            return Ok(());
        }
        let (incense, lottery, wish, donate, amulet) = upgrade_condition(self.level);
        if self.total_incense_value >= incense && self.total_lottery_count >= lottery
            && self.total_wish_count >= wish && self.total_donate_amount >= donate
            && self.total_amulet_count >= amulet {
            self.level = self.level + 1;
        }
        Ok(())
    }

    /// Adds `amount` to the temple's wealth.
    pub fn increment_wealth(&mut self, amount: u64) -> (r: Result<(), GlobalError>)
        ensures
            (r, *final(self)) == spec_add_wealth(*old(self), amount),
    {
        match self.wealth.checked_add(amount) {
            Some(n) => {
                self.wealth = n;
                Ok(())
            },
            None => Err(GlobalError::MathOverflow),
        }
    }

    /// Adds staking merit to the temple's merit total.
    pub fn increment_stake_merit(&mut self, merit: u64) -> (r: Result<(), GlobalError>)
        ensures
            (r, *final(self)) == spec_add_stake_merit(*old(self), merit),
    {
        match self.total_merit_value.checked_add(merit) {
            Some(n) => {
                self.total_merit_value = n;
                Ok(())
            },
            None => Err(GlobalError::MathOverflow),
        }
    }
}

} // verus!
