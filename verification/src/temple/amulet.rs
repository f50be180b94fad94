//! Amulet NFTs and medal staking.
use vstd::prelude::*;

use crate::encoding::{append_decimal, spec_decimal};
use crate::solji::states::user::div_trunc;
use crate::pubkey::Pubkey;
use crate::temple::errors::{ErrorCode, TempleProgramError};
use crate::temple::state::{sat_add, AmuletNft, GlobalStats};

verus! {

/// Description of an amulet by how it was obtained: 0 by a fortune draw, 1
/// by a wish, anything else otherwise.
pub open spec fn spec_amulet_description(source: u8) -> Seq<char> {
    if source == 0 {
        "通过抽签获得的幸运御守"@
    } else if source == 1 {
        "通过许愿获得的祝福御守"@
    } else {
        "获得的御守"@
    }
}

/// The amulet NFT to mint.
#[derive(Clone, Debug)]
pub struct AmuletNftPlan {
    pub serial_number: u32,
    pub name: String,
    pub description: String,
    pub symbol: String,
    pub uri: String,
    /// Royalty, in basis points.
    pub seller_fee_basis_points: u16,
    pub source: u8,
}

/// Mints one of the user's pending amulets at `now` (`status_check` is the
/// outcome of the temple's check that minting is open;
/// `InsufficientPendingAmulets` when none is pending): one pending amulet is
/// used up, the NFT is numbered after the temple's amulet count, which then
/// rises by one, the amulet account is filled in for `authority` and the
/// mint `mint`, and the temple statistics count one more amulet. On error
/// nothing changes.
pub fn mint_amulet_nft(
    status_check: Result<(), TempleProgramError>,
    pending_amulets: &mut u32,
    total_amulets: &mut u64,
    amulet: &mut AmuletNft,
    global_stats: &mut GlobalStats,
    authority: Pubkey,
    mint: Pubkey,
    now: i64,
    source: u8,
) -> (r: Result<AmuletNftPlan, TempleProgramError>)
    requires
        status_check is Ok && *old(pending_amulets) > 0 ==> *old(total_amulets) < u64::MAX,
    ensures
        r is Err ==> *final(pending_amulets) == *old(pending_amulets) && *final(total_amulets)
            == *old(total_amulets) && *final(amulet) == *old(amulet) && *final(global_stats)
            == *old(global_stats),
        status_check matches Err(e) ==> r == Err::<AmuletNftPlan, TempleProgramError>(e),
        status_check is Ok && *old(pending_amulets) == 0 ==> r == Err::<
            AmuletNftPlan,
            TempleProgramError,
        >(TempleProgramError::Code(ErrorCode::InsufficientPendingAmulets)),
        status_check is Ok && *old(pending_amulets) > 0 ==> {
            &&& r matches Ok(p)
            &&& *final(pending_amulets) == *old(pending_amulets) - 1
            &&& *final(total_amulets) == *old(total_amulets) + 1
            &&& p.serial_number == *old(total_amulets) as u32
            &&& p.name@ == "御守 #"@ + spec_decimal(*old(total_amulets) as nat)
            &&& p.description@ == spec_amulet_description(source)
            &&& p.symbol@ == "AMULET"@
            &&& p.uri@ == "https://api.foxverse.co/temple/amulet/"@ + spec_decimal(
                *old(total_amulets) as nat,
            ) + "/metadata.json"@
            &&& p.seller_fee_basis_points == 500
            &&& p.source == source
            &&& final(amulet).owner == authority
            &&& final(amulet).mint == mint
            &&& final(amulet).name@ == p.name@
            &&& final(amulet).description@ == p.description@
            &&& final(amulet).minted_at == now
            &&& final(amulet).source == source
            &&& final(amulet).serial_number == *old(total_amulets) as u32
            &&& *final(global_stats) == (GlobalStats {
                total_amulets: sat_add(old(global_stats).total_amulets, 1),
                ..*old(global_stats)
            })
        },
{
    match status_check {
        Ok(()) => {},
        Err(e) => {
            return Err(e);
        },
    }
    if *pending_amulets == 0 {
        return Err(TempleProgramError::Code(ErrorCode::InsufficientPendingAmulets));
    }
    *pending_amulets = *pending_amulets - 1;
    let serial = *total_amulets;
    let mut name = String::from_str("御守 #");
    append_decimal(&mut name, serial);
    let description = if source == 0 {
        "通过抽签获得的幸运御守"
    } else if source == 1 {
        "通过许愿获得的祝福御守"
    } else {
        "获得的御守"
    };
    let mut uri = String::from_str("https://api.foxverse.co/temple/amulet/");
    append_decimal(&mut uri, serial);
    uri.append("/metadata.json");
    *total_amulets = serial + 1;
    *amulet = AmuletNft {
        owner: authority,
        mint,
        name: name.clone(),
        description: String::from_str(description),
        minted_at: now,
        source,
        serial_number: serial as u32,
    };
    global_stats.increment_amulets();
    Ok(
        AmuletNftPlan {
            serial_number: serial as u32,
            name,
            description: String::from_str(description),
            symbol: String::from_str("AMULET"),
            uri,
            seller_fee_basis_points: 500,
            source,
        },
    )
}

/// Seconds in a week.
pub const SECONDS_PER_WEEK: i64 = 604_800;

/// Merit earned by a stake that lasted `duration` seconds: 30 a whole week.
pub open spec fn spec_staking_reward(duration: i64) -> int {
    let weeks = div_trunc(duration as int, SECONDS_PER_WEEK as int);
    if weeks >= 1 {
        30 * weeks
    } else {
        0
    }
}

/// Merit earned by a stake that lasted `duration_seconds`.
pub fn calculate_staking_reward(duration_seconds: i64) -> (r: u64)
    ensures
        r == spec_staking_reward(duration_seconds),
{
    let weeks = duration_seconds / SECONDS_PER_WEEK;
    if weeks >= 1 {
        assert(weeks <= i64::MAX / SECONDS_PER_WEEK);
        30 + (weeks as u64 - 1) * 30
    } else {
        0
    }
}

/// Stakes the user's medal NFT at `now`: the user must hold one
/// (`UserDoesNotHaveMedalNFT`) not staked yet (`MedalAlreadyStaked`).
pub fn stake_medal_nft(has_medal_nft: bool, staked_at: &mut Option<i64>, now: i64) -> (r: Result<
    (),
    TempleProgramError,
>)
    ensures
        !has_medal_nft ==> r == Err::<(), TempleProgramError>(
            TempleProgramError::Code(ErrorCode::UserDoesNotHaveMedalNFT),
        ),
        has_medal_nft && *old(staked_at) is Some ==> r == Err::<(), TempleProgramError>(
            TempleProgramError::Code(ErrorCode::MedalAlreadyStaked),
        ),
        r is Err ==> *final(staked_at) == *old(staked_at),
        has_medal_nft && *old(staked_at) is None ==> r is Ok && *final(staked_at) == Some(now),
{
    if !has_medal_nft {
        return Err(TempleProgramError::Code(ErrorCode::UserDoesNotHaveMedalNFT));
    }
    if staked_at.is_some() {
        return Err(TempleProgramError::Code(ErrorCode::MedalAlreadyStaked));
    }
    *staked_at = Some(now);
    Ok(())
}

/// Shortest stake that earns merit, in seconds.
pub const MIN_STAKING_SECONDS: i64 = 604_800;

/// Unstakes the medal NFT at `now` (`MedalNotStaked` when it is not staked);
/// returns the merit earned, nothing for a stake shorter than a week.
pub fn unstake_medal_nft(staked_at: &mut Option<i64>, now: i64) -> (r: Result<u64, TempleProgramError>)
    requires
        *old(staked_at) matches Some(t) ==> i64::MIN <= now - t <= i64::MAX,
    ensures
        *old(staked_at) is None ==> r == Err::<u64, TempleProgramError>(
            TempleProgramError::Code(ErrorCode::MedalNotStaked),
        ) && *final(staked_at) == *old(staked_at),
        *old(staked_at) matches Some(t) ==> (r matches Ok(reward) && *final(staked_at) is None
            && reward == if now - t >= MIN_STAKING_SECONDS {
            spec_staking_reward((now - t) as i64)
        } else {
            0
        }),
{
    let start = match *staked_at {
        Some(t) => t,
        None => {
            return Err(TempleProgramError::Code(ErrorCode::MedalNotStaked));
        },
    };
    let duration = now - start;
    let reward = if duration >= MIN_STAKING_SECONDS {
        calculate_staking_reward(duration)
    } else {
        0
    };
    *staked_at = None;
    Ok(reward)
}

} // verus!
