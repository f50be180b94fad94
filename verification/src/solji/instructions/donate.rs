//! Donating lamports to the temple and the merit medal that donations earn.
use vstd::prelude::*;

use crate::pubkey::Pubkey;
use crate::solji::errors::{DonateError, GlobalError, SolJiError};
use crate::solji::states::donate::{
    calc_incense_rewards,
    spec_donation_sticks,
    spec_donation_tier,
    spec_tier_medal,
    spec_tier_rewards,
    DonateCounter,
    DonateRecord,
    MedalLevel,
};
use crate::solji::states::incense_config::spec_incense_index;
use crate::solji::states::temple::{spec_donate_at_temple, Temple};
use crate::solji::states::user::{
    spec_add_donated_sticks,
    spec_donate_amount,
    spec_donate_info,
    UserInfo,
    UserInfoView,
};

verus! {

/// Lifetime donation (lamports) from which a user holds a medal.
pub const MEDAL_THRESHOLD: u64 = 50_000_000;

/// The donation counter created for `authority`.
pub fn create_donate_count(authority: Pubkey) -> (c: DonateCounter)
    ensures
        c.user == authority,
        c.count == 0,
{
    DonateCounter::new(authority)
}

/// What to do with the user's medal NFT after a donation.
#[derive(Clone, Copy, Debug, PartialEq, Eq, Structural)]
pub enum MedalAction {
    /// Nothing: no medal yet, or the medal is at its level already.
    Unchanged,
    /// Mint the medal NFT of the new level.
    Mint,
    /// Update the medal NFT's metadata to the new level.
    Upgrade,
}

/// What a successful donation produced beyond the account changes.
#[derive(Clone, Copy, Debug)]
pub struct DonateOutcome {
    /// The donation record to store.
    pub record: DonateRecord,
    /// Merit this donation earns.
    pub merit_value: u64,
    /// Incense value this donation earns.
    pub incense_value: u64,
    /// The medal level of the user's lifetime donation.
    pub level: MedalLevel,
    pub medal_action: MedalAction,
}

/// The medal action for a user whose lifetime donation is `total`, whose
/// medal is `current`, and whose donation reached level `level`.
pub open spec fn spec_medal_action(total: u64, current: MedalLevel, level: MedalLevel) -> MedalAction {
    if total < MEDAL_THRESHOLD {
        MedalAction::Unchanged
    } else if current == MedalLevel::NoMedal && total > MEDAL_THRESHOLD {
        MedalAction::Mint
    } else if level != current {
        MedalAction::Upgrade
    } else {
        MedalAction::Unchanged
    }
}

/// Outcome of donating `amount` lamports by `authority`, who holds
/// `authority_lamports`, at `now_ts`: the counter, the user's donation totals,
/// the incense sticks the donation grants and the temple's totals are updated;
/// when the medal is minted or upgraded, the user's medal level is set and the
/// donation's merit and incense rewards are credited and written into the
/// record. On any error no account changes.
pub open spec fn spec_create_donate_record(
    authority: Pubkey,
    now_ts: i64,
    amount: u64,
    authority_lamports: u64,
    c: DonateCounter,
    u: UserInfoView,
    t: Temple,
) -> (Result<DonateOutcome, SolJiError>, DonateCounter, UserInfoView, Temple) {
    let rewards = spec_tier_rewards(spec_donation_tier(amount));
    let (r1, u1) = spec_donate_amount(u, amount);
    let sticks = spec_donation_sticks(amount);
    let (r2, u2) = spec_add_donated_sticks(u1, spec_incense_index(sticks.0), sticks.1);
    let level = spec_tier_medal(spec_donation_tier(u2.donate_amount));
    let (r3, t3) = spec_donate_at_temple(t, amount);
    let action = spec_medal_action(u2.donate_amount, u2.current_medal_level, level);
    let (r4, u4) = spec_donate_info(
        UserInfoView { current_medal_level: level, ..u2 },
        rewards.0,
        rewards.1,
    );
    let c1 = DonateCounter { count: (c.count + 1) as u32, ..c };
    let record = DonateRecord {
        user: authority,
        amount,
        merit_value: 0,
        incense_value: 0,
        create_at: now_ts,
    };
    let outcome = DonateOutcome {
        record,
        merit_value: rewards.0,
        incense_value: rewards.1,
        level,
        medal_action: action,
    };
    if amount == 0 {
        (Err(SolJiError::Donate(DonateError::InvalidDonateAmount)), c, u, t)
    } else if authority_lamports < amount {
        (Err(SolJiError::Donate(DonateError::InsufficientLamports)), c, u, t)
    } else if c.count == u32::MAX {
        (Err(SolJiError::Global(GlobalError::MathOverflow)), c, u, t)
    } else if r1 is Err {
        (Err(SolJiError::Global(r1->Err_0)), c, u, t)
    } else if r2 is Err {
        (Err(SolJiError::Global(r2->Err_0)), c, u, t)
    } else if r3 is Err {
        (Err(SolJiError::Global(r3->Err_0)), c, u, t)
    } else if action == MedalAction::Unchanged {
        (Ok(outcome), c1, u2, t3)
    } else if r4 is Err {
        (Err(SolJiError::Global(r4->Err_0)), c, u, t)
    } else {
        (
            Ok(
                DonateOutcome {
                    record: DonateRecord {
                        merit_value: rewards.0,
                        incense_value: rewards.1,
                        ..record
                    },
                    ..outcome
                },
            ),
            c1,
            u4,
            t3,
        )
    }
}

/// Donates `amount` lamports; `authority_lamports` is the signer's balance.
pub fn create_donate_record(
    authority: Pubkey,
    now_ts: i64,
    amount: u64,
    authority_lamports: u64,
    donate_count: &mut DonateCounter,
    user_info: &mut UserInfo,
    temple: &mut Temple,
) -> (r: Result<DonateOutcome, SolJiError>)
    ensures
        ({
            let (res, c, u, t) = spec_create_donate_record(
                authority,
                now_ts,
                amount,
                authority_lamports,
                *old(donate_count),
                old(user_info)@,
                *old(temple),
            );
            &&& r == res
            &&& *final(donate_count) == c
            &&& final(user_info)@ == u
            &&& *final(temple) == t
        }),
{
    if amount == 0 {
        return Err(SolJiError::Donate(DonateError::InvalidDonateAmount));
    }
    if authority_lamports < amount {
        return Err(SolJiError::Donate(DonateError::InsufficientLamports));
    }
    let (merit_value, incense_value) = DonateRecord::get_donation_rewards(amount);
    let mut record = DonateRecord::new(authority, amount, now_ts);
    let mut c = *donate_count;
    let mut u = *user_info;
    let mut t = *temple;
    match c.increment() {
        Ok(()) => {},
        Err(e) => {
            return Err(SolJiError::Global(e));
        },
    }
    match u.update_user_donate_amount(amount) {
        Ok(()) => {},
        Err(e) => {
            return Err(SolJiError::Global(e));
        },
    }
    match calc_incense_rewards(amount, &mut u) {
        Ok(()) => {},
        Err(e) => {
            return Err(SolJiError::Global(e));
        },
    }
    let level = DonateRecord::get_badge_level(u.donate_amount);
    match t.add_temple_donate_amount(amount) {
        Ok(()) => {},
        Err(e) => {
            return Err(SolJiError::Global(e));
        },
    }
    let total = u.donate_amount;
    let medal_action = if total < MEDAL_THRESHOLD {
        MedalAction::Unchanged
    } else if u.current_medal_level == MedalLevel::NoMedal && total > MEDAL_THRESHOLD {
        MedalAction::Mint
    } else if level != u.current_medal_level {
        MedalAction::Upgrade
    } else {
        MedalAction::Unchanged
    };
    if medal_action != MedalAction::Unchanged {
        u.current_medal_level = level;
        match u.update_user_donate_info(merit_value, incense_value) {
            Ok(()) => {},
            Err(e) => {
                return Err(SolJiError::Global(e));
            },
        }
        record.update_rewards(merit_value, incense_value);
    }
    *donate_count = c;
    *user_info = u;
    *temple = t;
    Ok(DonateOutcome { record, merit_value, incense_value, level, medal_action })
}

} // verus!
