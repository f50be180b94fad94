//! Creating users and staking their merit NFT.
use vstd::prelude::*;

use crate::pubkey::Pubkey;
use crate::solji::errors::{GlobalError, SolJiError};
use crate::solji::states::temple::{spec_add_stake_merit, Temple};
use crate::solji::states::user::{
    div_trunc,
    spec_new_user,
    spec_saturating_sub_i64,
    spec_stake_merit,
    spec_stake_reward,
    spec_unstake_check,
    spec_user_stake,
    UserInfo,
    UserInfoView,
    UserStake,
};

verus! {

/// The user account created for `authority`.
pub fn create_user(authority: Pubkey) -> (u: UserInfo)
    ensures
        u@ == spec_new_user(authority),
{
    UserInfo::new(authority)
}

/// Outcome of staking the merit NFT `mint` at `now_ts`: the signer's token
/// account must hold some (`NoNFTToStake`) and belong to the signer
/// (`NotNFTOwner`); the stake count rises by one. On error the user is
/// unchanged.
pub open spec fn spec_stake(
    authority: Pubkey,
    mint: Pubkey,
    ata_amount: u64,
    ata_owner: Pubkey,
    now_ts: i64,
    u: UserInfoView,
) -> (Result<UserStake, SolJiError>, UserInfoView) {
    let (r, u1) = spec_user_stake(u);
    if ata_amount == 0 {
        (Err(SolJiError::Global(GlobalError::NoNFTToStake)), u)
    } else if ata_owner != authority {
        (Err(SolJiError::Global(GlobalError::NotNFTOwner)), u)
    } else if r is Err {
        (Err(SolJiError::Global(r->Err_0)), u)
    } else {
        (
            Ok(
                UserStake {
                    user: authority,
                    token: mint,
                    merit_value: 0,
                    status: 0,
                    stake_start_time: now_ts,
                    requst_unstake_time: 0,
                    unstake_end_time: 0,
                },
            ),
            u1,
        )
    }
}

/// Stakes the merit NFT `mint`; `ata_amount` and `ata_owner` are the amount
/// and owner of the signer's token account of it. Returns the stake record.
pub fn stake(
    authority: Pubkey,
    mint: Pubkey,
    ata_amount: u64,
    ata_owner: Pubkey,
    now_ts: i64,
    user_info: &mut UserInfo,
) -> (r: Result<UserStake, SolJiError>)
    ensures
        (r, final(user_info)@) == spec_stake(
            authority,
            mint,
            ata_amount,
            ata_owner,
            now_ts,
            old(user_info)@,
        ),
{
    if ata_amount == 0 {
        return Err(SolJiError::Global(GlobalError::NoNFTToStake));
    }
    if !ata_owner.key_eq(&authority) {
        return Err(SolJiError::Global(GlobalError::NotNFTOwner));
    }
    let s = UserStake::new(authority, mint, now_ts);
    let mut u = *user_info;
    match u.stake_increment() {
        Ok(()) => {},
        Err(e) => {
            return Err(SolJiError::Global(e));
        },
    }
    *user_info = u;
    Ok(s)
}

/// Whole days (truncated) from the start of stake `s` to `time`; a time
/// before the start counts as the start, and the difference saturates.
pub open spec fn spec_stake_days(s: UserStake, time: i64) -> int {
    div_trunc(spec_saturating_sub_i64(time, s.stake_start_time) as int, 86400)
}

/// Outcome of asking at `now_ts` to end stake `s`: it must be active
/// (`UnstakeRequestStatusError`) and at least seven days old
/// (`CantUnstakeYet`). The result is the stake's age in days.
pub open spec fn spec_unstake_request(s: UserStake, now_ts: i64) -> (Result<i64, SolJiError>, UserStake) {
    let day = spec_stake_days(s, now_ts);
    if s.status != 0 {
        (Err(SolJiError::Global(GlobalError::UnstakeRequestStatusError)), s)
    } else if day < 7 {
        (Err(SolJiError::Global(GlobalError::CantUnstakeYet)), s)
    } else {
        (Ok(day as i64), UserStake { requst_unstake_time: now_ts, status: 1, ..s })
    }
}

/// Asks to end a stake at `now_ts`; returns the stake's age in days.
pub fn unstake_request(now_ts: i64, user_stake: &mut UserStake) -> (r: Result<i64, SolJiError>)
    ensures
        (r, *final(user_stake)) == spec_unstake_request(*old(user_stake), now_ts),
{
    if user_stake.status != 0 {
        return Err(SolJiError::Global(GlobalError::UnstakeRequestStatusError));
    }
    let day = match user_stake.days_since_start_clamped(now_ts) {
        Ok(d) => d,
        Err(e) => {
            return Err(SolJiError::Global(e));
        },
    };
    if day < 7 {
        return Err(SolJiError::Global(GlobalError::CantUnstakeYet));
    }
    match user_stake.set_request_unstake(now_ts) {
        Ok(()) => {},
        Err(e) => {
            return Err(SolJiError::Global(e));
        },
    }
    Ok(day)
}

/// Outcome of confirming at `now_ts` the end of stake `s`: the unstake must be
/// requested (`UnstackConfirmStatusError`) long enough ago; the reward for the
/// days from the start to the request goes to the user's and the temple's
/// merit. The result is those days and the reward. On error nothing changes.
pub open spec fn spec_unstake_confirm(s: UserStake, u: UserInfoView, t: Temple, now_ts: i64) -> (
    Result<(i64, u64), SolJiError>,
    UserStake,
    UserInfoView,
    Temple,
) {
    let check = spec_unstake_check(s, now_ts);
    let day = spec_stake_days(s, s.requst_unstake_time);
    let reward = spec_stake_reward(u.current_medal_level, day as i64);
    let (ru, u1) = spec_stake_merit(u, reward as u64);
    let (rt, t1) = spec_add_stake_merit(t, reward as u64);
    if s.status != 1 {
        (Err(SolJiError::Global(GlobalError::UnstackConfirmStatusError)), s, u, t)
    } else if check is Err {
        (Err(SolJiError::Global(check->Err_0)), s, u, t)
    } else if ru is Err {
        (Err(SolJiError::Global(ru->Err_0)), s, u, t)
    } else if rt is Err {
        (Err(SolJiError::Global(rt->Err_0)), s, u, t)
    } else {
        (
            Ok((day as i64, reward as u64)),
            UserStake { unstake_end_time: now_ts, status: 2, ..s },
            u1,
            t1,
        )
    }
}

/// Confirms the end of a stake at `now_ts` and pays its merit reward; returns
/// the days staked and the reward.
pub fn unstake_confirm(
    now_ts: i64,
    user_stake: &mut UserStake,
    user_info: &mut UserInfo,
    temple: &mut Temple,
) -> (r: Result<(i64, u64), SolJiError>)
    ensures
        ({
            let (res, s, u, t) = spec_unstake_confirm(
                *old(user_stake),
                old(user_info)@,
                *old(temple),
                now_ts,
            );
            &&& r == res
            &&& *final(user_stake) == s
            &&& final(user_info)@ == u
            &&& *final(temple) == t
        }),
{
    if user_stake.status != 1 {
        return Err(SolJiError::Global(GlobalError::UnstackConfirmStatusError));
    }
    match user_stake.check_request_unstake(now_ts) {
        Ok(()) => {},
        Err(e) => {
            return Err(SolJiError::Global(e));
        },
    }
    let day = match user_stake.days_since_start_clamped(user_stake.requst_unstake_time) {
        Ok(d) => d,
        Err(e) => {
            return Err(SolJiError::Global(e));
        },
    };
    let mut u = *user_info;
    let mut t = *temple;
    let reward = match u.get_calculate_reward(day) {
        Ok(v) => v,
        Err(e) => {
            return Err(SolJiError::Global(e));
        },
    };
    match u.increment_stake_merit(reward) {
        Ok(()) => {},
        Err(e) => {
            return Err(SolJiError::Global(e));
        },
    }
    match t.increment_stake_merit(reward) {
        Ok(()) => {},
        Err(e) => {
            return Err(SolJiError::Global(e));
        },
    }
    match user_stake.set_unstake_confirm(now_ts) {
        Ok(()) => {},
        Err(e) => {
            return Err(SolJiError::Global(e));
        },
    }
    *user_info = u;
    *temple = t;
    Ok((day, reward))
}

} // verus!
