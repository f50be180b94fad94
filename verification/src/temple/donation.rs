//! Donations to the temple, the donor badge and medal NFTs, and the Buddha
//! NFT.
use vstd::prelude::*;

use crate::encoding::{append_decimal, spec_decimal};
use crate::pubkey::Pubkey;
use crate::temple::state::{
    sat_add,
    spec_process_donation,
    spec_stats_earn,
    spec_user_earn,
    GlobalStats,
    MedalNft,
    UserDonationState,
    UserIncenseState,
    UserState,
};
use crate::temple::errors::{
    BuddhaNftError,
    DonationError,
    ErrorCode,
    TempleError,
    TempleProgramError,
};

verus! {

/// Smallest donation, in lamports.
pub const MIN_DONATION: u64 = 1000;

/// English name of the medal of `level` (1 bronze to 4 supreme dragon).
pub open spec fn spec_medal_title(level: u8) -> Seq<char> {
    if level == 4 {
        "Supreme Dragon Medal #"@
    } else if level == 3 {
        "Protector Gold Medal #"@
    } else if level == 2 {
        "Diligent Silver Medal #"@
    } else {
        "Entry Merit Bronze Medal #"@
    }
}

/// Chinese name of the medal of `level`, as a donation mints it.
pub open spec fn spec_medal_title_zh(level: u8) -> Seq<char> {
    if level == 4 {
        "至尊龙章 #"@
    } else if level == 3 {
        "护法金章 #"@
    } else if level == 2 {
        "精进银章 #"@
    } else {
        "入门功德铜章 #"@
    }
}

/// Metadata address of the medal of `level`.
pub open spec fn spec_medal_uri(level: u8) -> Seq<char> {
    "https://api.foxverse.co/temple/medal/"@ + spec_decimal(level as nat) + "/metadata.json"@
}

fn medal_uri(level: u8) -> (s: String)
    ensures
        s@ == spec_medal_uri(level),
{
    let mut s = String::from_str("https://api.foxverse.co/temple/medal/");
    append_decimal(&mut s, level as u64);
    s.append("/metadata.json");
    s
}

/// Whether to mint a new medal NFT or update the one the user holds.
#[derive(Clone, Copy, Debug, PartialEq, Eq, Structural)]
pub enum MedalNftAction {
    Mint,
    Upgrade,
}

/// The medal NFT to mint or update.
#[derive(Clone, Debug)]
pub struct MedalNftPlan {
    pub action: MedalNftAction,
    pub level: u8,
    pub serial_number: u64,
    pub name: String,
    pub symbol: String,
    pub uri: String,
    /// Whether the metadata becomes immutable (an upgrade to the top level).
    pub make_immutable: bool,
}

/// Whether `p` is the medal plan for `action` at `level` numbered `serial`,
/// named with `title`.
pub open spec fn is_medal_plan(
    p: MedalNftPlan,
    action: MedalNftAction,
    level: u8,
    serial: u64,
    title: Seq<char>,
) -> bool {
    &&& p.action == action
    &&& p.level == level
    &&& p.serial_number == serial
    &&& p.name@ == title + spec_decimal(serial as nat)
    &&& p.symbol@ == "TMM"@
    &&& p.uri@ == spec_medal_uri(level)
    &&& p.make_immutable == (action == MedalNftAction::Upgrade && level == 4)
}

fn medal_plan(action: MedalNftAction, level: u8, serial: u64, chinese: bool) -> (p: MedalNftPlan)
    ensures
        is_medal_plan(
            p,
            action,
            level,
            serial,
            if chinese {
                spec_medal_title_zh(level)
            } else {
                spec_medal_title(level)
            },
        ),
{
    let title = if chinese {
        if level == 4 {
            "至尊龙章 #"
        } else if level == 3 {
            "护法金章 #"
        } else if level == 2 {
            "精进银章 #"
        } else {
            "入门功德铜章 #"
        }
    } else {
        if level == 4 {
            "Supreme Dragon Medal #"
        } else if level == 3 {
            "Protector Gold Medal #"
        } else if level == 2 {
            "Diligent Silver Medal #"
        } else {
            "Entry Merit Bronze Medal #"
        }
    };
    let mut name = String::from_str(title);
    append_decimal(&mut name, serial);
    MedalNftPlan {
        action,
        level,
        serial_number: serial,
        name,
        symbol: String::from_str("TMM"),
        uri: medal_uri(level),
        make_immutable: action == MedalNftAction::Upgrade && level == 4,
    }
}

/// The medal account of a medal minted at `level` for `owner` with mint
/// `mint` at `now`, numbered `serial`, after a donation total of `total`
/// while the owner held `merit` merit.
pub open spec fn spec_minted_medal(
    owner: Pubkey,
    mint: Pubkey,
    level: u8,
    total: u64,
    now: i64,
    merit: u64,
    serial: u64,
) -> MedalNft {
    MedalNft {
        owner,
        mint,
        level,
        total_donation: total,
        minted_at: now,
        last_upgrade: now,
        merit,
        serial_number: serial,
    }
}

/// Mints or upgrades the user's medal NFT at `now`. A holder
/// (`has_medal_nft`) gets the upgrade to `next_upgrade_level` when the
/// donation reached one (`InsufficientDonationForUpgrade` otherwise): the
/// medal account takes the new level, the donation total and the time.
/// Others get the medal of `donation_level`, the level their donation reached
/// (`InsufficientDonationForMedal` when none), numbered after their donation
/// count: the medal account is filled in, the user holds a medal and the
/// temple counts one more medal. On error nothing changes.
pub fn mint_medal_nft(
    status_check: Result<(), TempleProgramError>,
    user_state: &mut UserState,
    medal: &mut MedalNft,
    global_stats: &mut GlobalStats,
    donation: &UserDonationState,
    incense: &UserIncenseState,
    next_upgrade_level: Option<u8>,
    donation_level: Option<u8>,
    authority: Pubkey,
    mint: Pubkey,
    now: i64,
) -> (r: Result<MedalNftPlan, TempleProgramError>)
    ensures
        status_check matches Err(e) ==> r == Err::<MedalNftPlan, TempleProgramError>(e),
        r is Err ==> *final(user_state) == *old(user_state) && *final(medal) == *old(medal)
            && *final(global_stats) == *old(global_stats),
        status_check is Ok && old(user_state).has_medal_nft && next_upgrade_level is None ==> r is Err && r->Err_0
            == TempleProgramError::Code(ErrorCode::InsufficientDonationForUpgrade),
        status_check is Ok && old(user_state).has_medal_nft ==> (next_upgrade_level matches Some(l) ==> {
            &&& r matches Ok(p) && is_medal_plan(
                p,
                MedalNftAction::Upgrade,
                l,
                old(medal).serial_number,
                spec_medal_title(l),
            )
            &&& *final(medal) == (MedalNft {
                level: l,
                total_donation: donation.donation_amount,
                last_upgrade: now,
                ..*old(medal)
            })
            &&& *final(user_state) == *old(user_state)
            &&& *final(global_stats) == *old(global_stats)
        }),
        status_check is Ok && !old(user_state).has_medal_nft && donation_level is None ==> r is Err && r->Err_0
            == TempleProgramError::Code(ErrorCode::InsufficientDonationForMedal),
        status_check is Ok && !old(user_state).has_medal_nft ==> (donation_level matches Some(l) ==> {
            &&& r matches Ok(p) && is_medal_plan(
                p,
                MedalNftAction::Mint,
                l,
                donation.total_donation_count,
                spec_medal_title(l),
            )
            &&& *final(medal) == spec_minted_medal(
                authority,
                mint,
                l,
                donation.donation_amount,
                now,
                incense.merit,
                donation.total_donation_count,
            )
            &&& *final(user_state) == (UserState { has_medal_nft: true, ..*old(user_state) })
            &&& *final(global_stats) == (GlobalStats {
                total_fortune_nfts: sat_add(old(global_stats).total_fortune_nfts, 1),
                ..*old(global_stats)
            })
        }),
{
    match status_check {
        Ok(()) => {},
        Err(e) => {
            return Err(e);
        },
    }
    if user_state.has_medal_nft {
        match next_upgrade_level {
            Some(l) => {
                let plan = medal_plan(MedalNftAction::Upgrade, l, medal.serial_number, false);
                medal.level = l;
                medal.total_donation = donation.donation_amount;
                medal.last_upgrade = now;
                Ok(plan)
            },
            None => Err(TempleProgramError::Code(ErrorCode::InsufficientDonationForUpgrade)),
        }
    } else {
        match donation_level {
            Some(l) => {
                let serial = donation.total_donation_count;
                let plan = medal_plan(MedalNftAction::Mint, l, serial, false);
                *medal = MedalNft {
                    owner: authority,
                    mint,
                    level: l,
                    total_donation: donation.donation_amount,
                    minted_at: now,
                    last_upgrade: now,
                    merit: incense.merit,
                    serial_number: serial,
                };
                user_state.has_medal_nft = true;
                global_stats.increment_fortune_nfts();
                Ok(plan)
            },
            None => Err(TempleProgramError::Code(ErrorCode::InsufficientDonationForMedal)),
        }
    }
}

/// The accounts after a donation of `amount` lamports credited with
/// `merit_reward` merit and `incense_points_reward` incense points: the
/// donation is recorded, the user and the temple statistics earn the
/// rewards, and the temple counts the donation.
pub open spec fn spec_donate_accounts(
    donation: UserDonationState,
    incense: UserIncenseState,
    stats: GlobalStats,
    amount: u64,
    merit_reward: u64,
    incense_points_reward: u64,
) -> (UserDonationState, UserIncenseState, GlobalStats) {
    (
        spec_process_donation(donation, amount),
        if merit_reward > 0 || incense_points_reward > 0 {
            spec_user_earn(incense, incense_points_reward, merit_reward)
        } else {
            incense
        },
        spec_stats_earn(
            GlobalStats {
                total_donations_lamports: sat_add(stats.total_donations_lamports, amount),
                ..stats
            },
            incense_points_reward,
            merit_reward,
        ),
    )
}

/// Donates `amount` lamports (at least 1000, `InvalidAmount` otherwise) at
/// `now`. The donation is recorded, the rewards it earns
/// (`merit_reward`, `incense_points_reward`) go to the user and the temple
/// statistics, and the temple counts the donation. A donor without a medal
/// whose donation reached `donation_level` gets the medal, with its Chinese
/// name, numbered after their donation count: the medal account is filled in
/// and the user holds a medal. On error nothing changes.
pub fn donate(
    status_check: Result<(), TempleProgramError>,
    amount: u64,
    user_state: &mut UserState,
    donation: &mut UserDonationState,
    incense: &mut UserIncenseState,
    global_stats: &mut GlobalStats,
    medal: &mut MedalNft,
    merit_reward: u64,
    incense_points_reward: u64,
    donation_level: Option<u8>,
    authority: Pubkey,
    mint: Pubkey,
    now: i64,
) -> (r: Result<Option<MedalNftPlan>, TempleProgramError>)
    ensures
        status_check matches Err(e) ==> r == Err::<Option<MedalNftPlan>, TempleProgramError>(e)
            && *final(user_state) == *old(user_state) && *final(donation) == *old(donation)
            && *final(incense) == *old(incense) && *final(global_stats) == *old(global_stats)
            && *final(medal) == *old(medal),
        status_check is Ok && amount < MIN_DONATION ==> r is Err && r->Err_0 == TempleProgramError::Code(
            ErrorCode::InvalidAmount,
        ),
        status_check is Ok && amount < MIN_DONATION ==> *final(user_state) == *old(user_state) && *final(donation)
            == *old(donation) && *final(incense) == *old(incense) && *final(global_stats) == *old(
            global_stats,
        ) && *final(medal) == *old(medal),
        status_check is Ok && amount >= MIN_DONATION ==> ({
            let (d, i, g) = spec_donate_accounts(
                *old(donation),
                *old(incense),
                *old(global_stats),
                amount,
                merit_reward,
                incense_points_reward,
            );
            &&& r is Ok
            &&& *final(donation) == d
            &&& *final(incense) == i
            &&& *final(global_stats) == g
        }),
        status_check is Ok && amount >= MIN_DONATION && (old(user_state).has_medal_nft || donation_level is None) ==> (r matches Ok(p)
            && p is None && *final(user_state) == *old(user_state) && *final(medal) == *old(medal)),
        status_check is Ok && amount >= MIN_DONATION && !old(user_state).has_medal_nft ==> (donation_level matches Some(l) ==> {
            let (d, i, g) = spec_donate_accounts(
                *old(donation),
                *old(incense),
                *old(global_stats),
                amount,
                merit_reward,
                incense_points_reward,
            );
            &&& r matches Ok(p) && p matches Some(q) && is_medal_plan(
                q,
                MedalNftAction::Mint,
                l,
                d.total_donation_count,
                spec_medal_title_zh(l),
            )
            &&& *final(medal) == spec_minted_medal(
                authority,
                mint,
                l,
                d.donation_amount,
                now,
                i.merit,
                d.total_donation_count,
            )
            &&& *final(user_state) == (UserState { has_medal_nft: true, ..*old(user_state) })
        }),
{
    match status_check {
        Ok(()) => {},
        Err(e) => {
            return Err(e);
        },
    }
    if amount == 0 {
        return Err(TempleProgramError::Code(ErrorCode::InvalidAmount));
    }
    if amount < MIN_DONATION {
        return Err(TempleProgramError::Code(ErrorCode::InvalidAmount));
    }
    donation.process_donation(amount);
    if merit_reward > 0 || incense_points_reward > 0 {
        incense.add_incense_value_and_merit(incense_points_reward, merit_reward);
    }
    global_stats.add_donation(amount);
    global_stats.add_incense_value_and_merit(incense_points_reward, merit_reward);
    if !user_state.has_medal_nft {
        match donation_level {
            Some(l) => {
                let serial = donation.total_donation_count;
                let plan = medal_plan(MedalNftAction::Mint, l, serial, true);
                *medal = MedalNft {
                    owner: authority,
                    mint,
                    level: l,
                    total_donation: donation.donation_amount,
                    minted_at: now,
                    last_upgrade: now,
                    merit: incense.merit,
                    serial_number: serial,
                };
                user_state.has_medal_nft = true;
                return Ok(Some(plan));
            },
            None => {},
        }
    }
    Ok(None)
}

/// What to do with the donor badge NFT.
#[derive(Clone, Copy, Debug, PartialEq, Eq, Structural)]
pub enum BadgeAction {
    /// Mint the badge: the donor has none yet.
    Mint,
    /// Update its metadata to the higher level; at level 4 it becomes
    /// immutable.
    Update { make_immutable: bool },
    /// Nothing: the level did not rise.
    Unchanged,
}

/// What a fund donation returns.
#[derive(Clone, Copy, Debug, PartialEq, Eq, Structural)]
pub struct DonateFundResult {
    pub reward_incense_value: u64,
    pub reward_karma_points: u64,
    pub donation_amount: u64,
    pub current_timestamp: i64,
}

/// A checked fund donation.
#[derive(Clone, Debug)]
pub struct DonateFundPlan {
    pub badge_action: BadgeAction,
    /// Metadata address of the badge at the new level.
    pub badge_uri: String,
    /// Whether the donation (5 SOL or more) earns an incense airdrop.
    pub airdrop_incense: bool,
    pub result: DonateFundResult,
}

/// Lamports from which a fund donation earns an incense airdrop.
pub const AIRDROP_DONATION: u64 = 5_000_000_000;

/// Metadata address of the badge of `level`.
pub open spec fn spec_badge_uri(level: u8) -> Seq<char> {
    "https://api.foxverse.co/temple/badge/"@ + spec_decimal(level as nat) + "/metadata.json"@
}

/// What happens to the donation badge when a donor whose badge was minted or
/// not (`minted`) moves from donation level `old_level` to `new_level`: the
/// first donation mints it; later ones update it when the level rose (made
/// immutable at level 4) and leave it unchanged otherwise.
pub open spec fn spec_badge_action(minted: bool, old_level: u8, new_level: u8) -> BadgeAction {
    if !minted {
        BadgeAction::Mint
    } else if new_level > old_level {
        BadgeAction::Update { make_immutable: new_level == 4 }
    } else {
        BadgeAction::Unchanged
    }
}

/// The user's state after a fund donation of `amount` lamports: the badge is
/// recorded as minted and the donation total grows.
pub open spec fn spec_funded_user(u: UserState, amount: u64) -> UserState {
    UserState {
        has_minted_badge_nft: true,
        total_donation_amount: (u.total_donation_amount + amount) as u64,
        ..u
    }
}

/// Checks a fund donation of `amount` lamports by a donor holding `balance`:
/// the badge is minted on the first donation, after which the user is marked
/// as holding it, and updated when the donation level rises from `old_level`
/// to `new_level`; the donation is added to the user's total. The rewards
/// `reward_karma_points` and `reward_incense_value` are returned with the
/// amount and time. On error nothing changes.
pub fn donate_fund(
    amount: u64,
    balance: u64,
    user_state: &mut UserState,
    old_level: u8,
    new_level: u8,
    reward_karma_points: u64,
    reward_incense_value: u64,
    now: i64,
) -> (r: Result<DonateFundPlan, TempleProgramError>)
    requires
        amount > 0 && balance >= amount ==> old(user_state).total_donation_amount + amount
            <= u64::MAX,
    ensures
        r is Err ==> *final(user_state) == *old(user_state),
        r is Ok ==> *final(user_state) == spec_funded_user(*old(user_state), amount),
        amount == 0 ==> r is Err && r->Err_0 == TempleProgramError::Donation(
            DonationError::InvalidDonationAmount,
        ),
        amount > 0 && balance < amount ==> r is Err && r->Err_0 == TempleProgramError::Donation(
            DonationError::InsufficientPayment,
        ),
        amount > 0 && balance >= amount ==> r is Ok,
        r matches Ok(p) ==> {
            &&& p.badge_action == spec_badge_action(
                old(user_state).has_minted_badge_nft,
                old_level,
                new_level,
            )
            &&& p.badge_uri@ == spec_badge_uri(new_level)
            &&& p.airdrop_incense == (amount >= AIRDROP_DONATION)
            &&& p.result == (DonateFundResult {
                reward_incense_value,
                reward_karma_points,
                donation_amount: amount,
                current_timestamp: now,
            })
        },
{
    if amount == 0 {
        return Err(TempleProgramError::Donation(DonationError::InvalidDonationAmount));
    }
    if balance < amount {
        return Err(TempleProgramError::Donation(DonationError::InsufficientPayment));
    }
    let mut badge_uri = String::from_str("https://api.foxverse.co/temple/badge/");
    append_decimal(&mut badge_uri, new_level as u64);
    badge_uri.append("/metadata.json");
    let badge_action = if !user_state.has_minted_badge_nft {
        BadgeAction::Mint
    } else if new_level > old_level {
        BadgeAction::Update { make_immutable: new_level == 4 }
    } else {
        BadgeAction::Unchanged
    };
    user_state.has_minted_badge_nft = true;
    user_state.total_donation_amount = user_state.total_donation_amount + amount;
    Ok(
        DonateFundPlan {
            badge_action,
            badge_uri,
            airdrop_incense: amount >= AIRDROP_DONATION,
            result: DonateFundResult {
                reward_incense_value,
                reward_karma_points,
                donation_amount: amount,
                current_timestamp: now,
            },
        },
    )
}

/// Most Buddha NFTs the temple mints.
pub const BUDDHA_NFT_SUPPLY: u64 = 10_000;

/// The Buddha NFT to mint.
#[derive(Clone, Debug)]
pub struct BuddhaNftPlan {
    pub serial_number: u64,
    pub name: String,
}

/// Checks a Buddha NFT mint when the temple has minted `total_buddha_nft`:
/// the supply must not be used up (`BuddhaNftCountOverflow`), the user must
/// be allowed (`UserCannotMintBuddhaNft`), and `has_minted_buddha_nft` must
/// hold (`UserAlreadyMintedBuddhaNft` otherwise). The NFT is numbered after
/// the count so far.
pub fn mint_buddha_nft(total_buddha_nft: u64, can_mint_buddha_nft: bool, has_minted_buddha_nft: bool) -> (r:
    Result<BuddhaNftPlan, TempleProgramError>)
    ensures
        total_buddha_nft >= BUDDHA_NFT_SUPPLY ==> r is Err && r->Err_0 == TempleProgramError::Temple(
            TempleError::BuddhaNftCountOverflow,
        ),
        total_buddha_nft < BUDDHA_NFT_SUPPLY && !can_mint_buddha_nft ==> r is Err && r->Err_0
            == TempleProgramError::BuddhaNft(BuddhaNftError::UserCannotMintBuddhaNft),
        total_buddha_nft < BUDDHA_NFT_SUPPLY && can_mint_buddha_nft && !has_minted_buddha_nft ==> r is Err
            && r->Err_0 == TempleProgramError::BuddhaNft(BuddhaNftError::UserAlreadyMintedBuddhaNft),
        total_buddha_nft < BUDDHA_NFT_SUPPLY && can_mint_buddha_nft && has_minted_buddha_nft ==> (r matches Ok(
            p,
        ) && p.serial_number == total_buddha_nft && p.name@ == "Buddha NFT #"@ + spec_decimal(
            total_buddha_nft as nat,
        )),
{
    if total_buddha_nft >= BUDDHA_NFT_SUPPLY {
        return Err(TempleProgramError::Temple(TempleError::BuddhaNftCountOverflow));
    }
    if !can_mint_buddha_nft {
        return Err(TempleProgramError::BuddhaNft(BuddhaNftError::UserCannotMintBuddhaNft));
    }
    if !has_minted_buddha_nft {
        return Err(TempleProgramError::BuddhaNft(BuddhaNftError::UserAlreadyMintedBuddhaNft));
    }
    let mut name = String::from_str("Buddha NFT #");
    append_decimal(&mut name, total_buddha_nft);
    Ok(BuddhaNftPlan { serial_number: total_buddha_nft, name })
}

/// Claims the Buddha NFT: the distribution must be completed
/// (`NotApproved`), the user must not hold one (`UserHasBuddhaNFT`) and must
/// be a top donor (`InsufficientDonation`); the user then holds it.
pub fn claim_buddha_nft(
    distribution_completed: bool,
    is_top_donor: bool,
    has_buddha_nft: &mut bool,
) -> (r: Result<(), TempleProgramError>)
    ensures
        !distribution_completed ==> r == Err::<(), TempleProgramError>(
            TempleProgramError::Code(ErrorCode::NotApproved),
        ),
        distribution_completed && *old(has_buddha_nft) ==> r == Err::<(), TempleProgramError>(
            TempleProgramError::Code(ErrorCode::UserHasBuddhaNFT),
        ),
        distribution_completed && !*old(has_buddha_nft) && !is_top_donor ==> r == Err::<
            (),
            TempleProgramError,
        >(TempleProgramError::Code(ErrorCode::InsufficientDonation)),
        r is Err ==> *final(has_buddha_nft) == *old(has_buddha_nft),
        distribution_completed && !*old(has_buddha_nft) && is_top_donor ==> r is Ok
            && *final(has_buddha_nft),
{
    if !distribution_completed {
        return Err(TempleProgramError::Code(ErrorCode::NotApproved));
    }
    if *has_buddha_nft {
        return Err(TempleProgramError::Code(ErrorCode::UserHasBuddhaNFT));
    }
    if !is_top_donor {
        return Err(TempleProgramError::Code(ErrorCode::InsufficientDonation));
    }
    *has_buddha_nft = true;
    Ok(())
}

/// Checks the deadline of a new donation leaderboard: it must lie after
/// `now` (`InvalidAmount` otherwise).
pub fn init_donation_leaderboard(donation_deadline: u64, now: u64) -> (r: Result<u64, TempleProgramError>)
    ensures
        donation_deadline > now ==> r == Ok::<u64, TempleProgramError>(donation_deadline),
        donation_deadline <= now ==> r == Err::<u64, TempleProgramError>(
            TempleProgramError::Code(ErrorCode::InvalidAmount),
        ),
{
    if donation_deadline <= now {
        return Err(TempleProgramError::Code(ErrorCode::InvalidAmount));
    }
    Ok(donation_deadline)
}

/// Starts the Buddha NFT distribution when the leaderboard allows it
/// (`can_start_distribution`, `NotApproved` otherwise): with no eligible
/// donor nothing happens (`None`), else the number of qualified donors, cut
/// to 32 bits, is recorded.
pub fn distribute_buddha_nfts(can_start_distribution: bool, top_donors_count: usize) -> (r: Result<
    Option<u32>,
    TempleProgramError,
>)
    ensures
        !can_start_distribution ==> r == Err::<Option<u32>, TempleProgramError>(
            TempleProgramError::Code(ErrorCode::NotApproved),
        ),
        can_start_distribution && top_donors_count == 0 ==> r == Ok::<Option<u32>, TempleProgramError>(
            None,
        ),
        can_start_distribution && top_donors_count > 0 ==> r == Ok::<Option<u32>, TempleProgramError>(
            Some(top_donors_count as u32),
        ),
{
    if !can_start_distribution {
        return Err(TempleProgramError::Code(ErrorCode::NotApproved));
    }
    if top_donors_count == 0 {
        return Ok(None);
    }
    Ok(Some(top_donors_count as u32))
}

} // verus!
