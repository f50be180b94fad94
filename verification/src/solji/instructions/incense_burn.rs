//! Buying and burning incense.
use vstd::prelude::*;

use crate::encoding::{spec_le_bytes, u64_le_bytes};
use crate::pubkey::Pubkey;
use crate::solji::errors::{BurnCode, GlobalError, SolJiError};
use crate::solji::states::incense_config::{
    spec_incense_from_code,
    spec_incense_index,
    IncenseRule,
    IncenseRulesConfig,
    IncenseType,
};
use crate::solji::states::nft_mint::{hit, spec_hit};
use crate::solji::states::temple::{spec_add_amulet, spec_burn_at_temple, Temple};
use crate::solji::states::user::{
    div_trunc,
    spec_add_bought_sticks,
    spec_burn,
    spec_user_amulet,
    UserInfo,
    UserInfoView,
};

verus! {

/// A purchase of incense: what the buyer pays the temple.
#[derive(Clone, Copy, Debug, PartialEq, Eq, Structural)]
pub struct IncensePurchase {
    pub incense_type: IncenseType,
    pub number: u64,
    pub unit_price: u64,
    /// Lamports to transfer from the buyer to the temple.
    pub total_amount: u64,
}

/// Outcome of a purchase of `number` sticks of the kind coded `incense`:
/// secret and celestial incense cannot be bought, at least one stick must be
/// bought at a price above zero, and the total must fit.
pub open spec fn spec_incense_buy(
    rules: Seq<IncenseRule>,
    u: UserInfoView,
    incense: u8,
    number: u64,
) -> (Result<IncensePurchase, SolJiError>, UserInfoView) {
    match spec_incense_from_code(incense) {
        None => (Err(SolJiError::Global(GlobalError::InvalidIncenseType)), u),
        Some(t) => {
            let price = rules[spec_incense_index(t)].incense_price;
            if t == IncenseType::SecretBrewIncense || t == IncenseType::CelestialIncense {
                (Err(SolJiError::Burn(BurnCode::InvalidIncenseType)), u)
            } else if number == 0 {
                (Err(SolJiError::Burn(BurnCode::InvalidNumber)), u)
            } else if price == 0 {
                (Err(SolJiError::Burn(BurnCode::InvalidAmount)), u)
            } else if number * price > u64::MAX {
                (Err(SolJiError::Burn(BurnCode::InvalidAmount)), u)
            } else {
                let (r, u1) = spec_add_bought_sticks(u, spec_incense_index(t), number);
                match r {
                    Err(e) => (Err(SolJiError::Global(e)), u),
                    Ok(_) => (
                        Ok(
                            IncensePurchase {
                                incense_type: t,
                                number,
                                unit_price: price,
                                total_amount: (number * price) as u64,
                            },
                        ),
                        u1,
                    ),
                }
            }
        },
    }
}

/// Buys `number` sticks of the kind coded `incense` into the user's stock.
pub fn incense_buy(
    incense_rules_config: &IncenseRulesConfig,
    user_info: &mut UserInfo,
    incense: u8,
    number: u64,
) -> (r: Result<IncensePurchase, SolJiError>)
    ensures
        r == spec_incense_buy(incense_rules_config.rules@, old(user_info)@, incense, number).0,
        final(user_info)@ == spec_incense_buy(
            incense_rules_config.rules@,
            old(user_info)@,
            incense,
            number,
        ).1,
{
    let incense_type = match IncenseType::get_incense_type(incense) {
        Some(t) => t,
        None => {
            return Err(SolJiError::Global(GlobalError::InvalidIncenseType));
        },
    };
    if incense_type == IncenseType::SecretBrewIncense || incense_type
        == IncenseType::CelestialIncense {
        return Err(SolJiError::Burn(BurnCode::InvalidIncenseType));
    }
    if number == 0 {
        return Err(SolJiError::Burn(BurnCode::InvalidNumber));
    }
    let amount = incense_rules_config.get_rule(incense_type).incense_price;
    if amount == 0 {
        return Err(SolJiError::Burn(BurnCode::InvalidAmount));
    }
    let total_amount = match number.checked_mul(amount) {
        Some(t) => t,
        None => {
            return Err(SolJiError::Burn(BurnCode::InvalidAmount));
        },
    };
    match user_info.update_incense_buy_count(incense_type, number) {
        Ok(()) => {},
        Err(e) => {
            return Err(SolJiError::Global(e));
        },
    }
    Ok(IncensePurchase { incense_type, number, unit_price: amount, total_amount })
}

/// Whether `now_ts` falls on a later day (UTC) than the last burn.
pub open spec fn spec_new_burn_day(u: UserInfoView, now_ts: i64) -> bool {
    div_trunc(now_ts as int, 86_400) > div_trunc(u.incense_time as int, 86_400)
}

/// The account after the daily burn tables are reset on a new day: burns and
/// donated sticks go back to zero.
pub open spec fn spec_daily_reset(u: UserInfoView, now_ts: i64) -> UserInfoView {
    if spec_new_burn_day(u, now_ts) {
        UserInfoView {
            burn_count: Seq::new(6, |j: int| 0u32),
            incense_donate_count: Seq::new(6, |j: int| 0u32),
            incense_time: now_ts,
            ..u
        }
    } else {
        u
    }
}

/// Whether a burn of kind `i` is allowed: the kind must have been bought, and
/// from the tenth burn of the day on a donated stick must be left.
pub open spec fn spec_burn_limit(u: UserInfoView, i: int) -> Result<(), SolJiError> {
    if u.incense_buy_count[i] < 1 {
        Err(SolJiError::Burn(BurnCode::BurnNotBuy))
    } else if u.burn_count[i] >= 10 && u.incense_donate_count[i] < 1 {
        Err(SolJiError::Burn(BurnCode::TooManyBurns))
    } else {
        Ok(())
    }
}

/// Resets the daily burn tables on a new day, then checks that a burn of
/// `incense_type` is allowed.
pub fn check_daily_reset_and_limit(
    user_info: &mut UserInfo,
    incense_type: IncenseType,
    now_ts: i64,
) -> (r: Result<(), SolJiError>)
    ensures
        final(user_info)@ == spec_daily_reset(old(user_info)@, now_ts),
        r == spec_burn_limit(final(user_info)@, spec_incense_index(incense_type)),
{
    let current_day = now_ts / 86_400;
    let last_day = user_info.incense_time / 86_400;
    if current_day > last_day {
        user_info.burn_count = [0; 6];
        user_info.incense_donate_count = [0; 6];
        user_info.incense_time = now_ts;
        proof {
            assert(user_info.burn_count@ =~= Seq::new(6, |j: int| 0u32));
            assert(user_info.incense_donate_count@ =~= Seq::new(6, |j: int| 0u32));
            assert(user_info@ =~= spec_daily_reset(old(user_info)@, now_ts));
        }
    }
    let i = incense_type.index();
    if user_info.incense_buy_count[i] < 1 {
        return Err(SolJiError::Burn(BurnCode::BurnNotBuy));
    }
    if user_info.get_burn_count(incense_type) >= 10 && user_info.incense_donate_count[i] < 1 {
        return Err(SolJiError::Burn(BurnCode::TooManyBurns));
    }
    Ok(())
}

/// The signer, addresses and clock readings an incense burn uses.
#[derive(Clone, Copy, Debug)]
pub struct BurnEnv {
    pub authority: Pubkey,
    /// Address of the temple account.
    pub temple_key: Pubkey,
    pub slot: u64,
    pub now_ts: i64,
}

/// What a successful burn asks for beyond the account changes.
#[derive(Clone, Copy, Debug, PartialEq, Eq, Structural)]
pub struct IncenseBurnOutcome {
    pub incense_type: IncenseType,
    pub incense_value: u64,
    pub merit_value: u64,
    /// Mint the commemorative NFT of this kind (the user's first burn of it).
    pub mint_burn_nft: bool,
    /// Mint an amulet NFT (the amulet chance hit).
    pub amulet_dropped: bool,
}

/// Amulet chance of a burn, in basis points: 5% for clear incense, 10% for
/// supreme spirit incense, none for the other kinds.
pub open spec fn spec_amulet_chance(t: IncenseType) -> u32 {
    if t == IncenseType::ClearIncense {
        500
    } else if t == IncenseType::SupremeSpiritIncense {
        1000
    } else {
        0
    }
}

/// Seeds of the amulet chance of a burn: signer, temple address, the
/// temple's burn count after the burn, and the slot.
pub open spec fn spec_burn_seeds(env: BurnEnv, burn_count: u64) -> Seq<Seq<u8>> {
    seq![env.authority.bytes@, env.temple_key.bytes@, spec_le_bytes(burn_count), spec_le_bytes(env.slot)]
}

/// Outcome of a burn of the kind coded `incense` with the amulet coded
/// `amulet` (supreme spirit incense needs amulet 3): the daily reset and
/// limit check, the user's and the temple's burn bookkeeping, the first-burn
/// NFT, and the amulet chance. On any error no account changes.
pub open spec fn spec_incense_burn(
    env: BurnEnv,
    rules: Seq<IncenseRule>,
    u0: UserInfoView,
    t0: Temple,
    incense: u8,
    amulet: u8,
) -> (Result<IncenseBurnOutcome, SolJiError>, UserInfoView, Temple) {
    match spec_incense_from_code(incense) {
        None => (Err(SolJiError::Global(GlobalError::InvalidIncenseType)), u0, t0),
        Some(ty) => {
            let i = spec_incense_index(ty);
            let u1 = spec_daily_reset(u0, env.now_ts);
            let rule = rules[i];
            let (r2, u2) = spec_burn(u1, env.authority, i, rule, env.now_ts);
            let (r3, t3) = spec_burn_at_temple(t0, rule.incense_value, rule.merit_value);
            let mint = !u2.has_burn_token[i];
            let u4 = if mint {
                UserInfoView { has_burn_token: u2.has_burn_token.update(i, true), ..u2 }
            } else {
                u2
            };
            let chance = spec_amulet_chance(ty);
            let dropped = chance > 0 && spec_hit(
                chance,
                spec_burn_seeds(env, t3.total_burn_count),
            );
            let (r5, u5) = spec_user_amulet(u4);
            let (r6, t6) = spec_add_amulet(t3);
            let outcome = IncenseBurnOutcome {
                incense_type: ty,
                incense_value: rule.incense_value,
                merit_value: rule.merit_value,
                mint_burn_nft: mint,
                amulet_dropped: dropped,
            };
            if ty == IncenseType::SupremeSpiritIncense && amulet != 3 {
                (Err(SolJiError::Global(GlobalError::InvalidArgs)), u0, t0)
            } else if spec_burn_limit(u1, i) is Err {
                (Err(spec_burn_limit(u1, i)->Err_0), u0, t0)
            } else if r2 is Err {
                (Err(SolJiError::Global(r2->Err_0)), u0, t0)
            } else if r3 is Err {
                (Err(SolJiError::Global(r3->Err_0)), u0, t0)
            } else if dropped && r5 is Err {
                (Err(SolJiError::Global(r5->Err_0)), u0, t0)
            } else if dropped && r6 is Err {
                (Err(SolJiError::Global(r6->Err_0)), u0, t0)
            } else if dropped {
                (Ok(outcome), u5, t6)
            } else {
                (Ok(outcome), u4, t3)
            }
        },
    }
}

/// Burns one stick of the kind coded `incense`.
pub fn incense_burn(
    env: &BurnEnv,
    incense_rules_config: &IncenseRulesConfig,
    user_info: &mut UserInfo,
    temple: &mut Temple,
    incense: u8,
    amulet: u8,
) -> (r: Result<IncenseBurnOutcome, SolJiError>)
    ensures
        ({
            let (res, u, t) = spec_incense_burn(
                *env,
                incense_rules_config.rules@,
                old(user_info)@,
                *old(temple),
                incense,
                amulet,
            );
            &&& r == res
            &&& final(user_info)@ == u
            &&& *final(temple) == t
        }),
{
    let incense_type = match IncenseType::get_incense_type(incense) {
        Some(t) => t,
        None => {
            return Err(SolJiError::Global(GlobalError::InvalidIncenseType));
        },
    };
    if incense_type == IncenseType::SupremeSpiritIncense && amulet != 3 {
        return Err(SolJiError::Global(GlobalError::InvalidArgs));
    }
    let mut user = *user_info;
    let mut t = *temple;
    match check_daily_reset_and_limit(&mut user, incense_type, env.now_ts) {
        Ok(()) => {},
        Err(e) => {
            return Err(e);
        },
    }
    let incense_rule = incense_rules_config.get_rule(incense_type);
    match user.update_user_info(env.authority, incense_type, incense_rule, env.now_ts) {
        Ok(()) => {},
        Err(e) => {
            return Err(SolJiError::Global(e));
        },
    }
    match t.add_temple_incense_and_merit_attribute_upgrade(
        incense_rule.incense_value,
        incense_rule.merit_value,
    ) {
        Ok(()) => {},
        Err(e) => {
            return Err(SolJiError::Global(e));
        },
    }
    let index = incense_type.index();
    let mint_burn_nft = !user.has_burn_token[index];
    if mint_burn_nft {
        user.has_burn_token[index] = true;
    }
    let chance: u32 = if incense_type == IncenseType::ClearIncense {
        500
    } else if incense_type == IncenseType::SupremeSpiritIncense {
        1000
    } else {
        0
    };
    let count_le = u64_le_bytes(t.total_burn_count);
    let slot_le = u64_le_bytes(env.slot);
    let seeds: [&[u8]; 4] = [
        env.authority.bytes.as_slice(),
        env.temple_key.bytes.as_slice(),
        count_le.as_slice(),
        slot_le.as_slice(),
    ];
    let seed_slice = seeds.as_slice();
    proof {
        let sv = seed_slice.deep_view();
        assert(sv.len() == 4);
        assert(sv[0] =~= env.authority.bytes@);
        assert(sv[1] =~= env.temple_key.bytes@);
        assert(sv[2] =~= spec_le_bytes(t.total_burn_count));
        assert(sv[3] =~= spec_le_bytes(env.slot));
        assert(sv =~= spec_burn_seeds(*env, t.total_burn_count));
    }
    let amulet_dropped = chance > 0 && hit(chance, seed_slice);
    if amulet_dropped {
        match user.amulet_increment() {
            Ok(()) => {},
            Err(e) => {
                return Err(SolJiError::Global(e));
            },
        }
        match t.amulet_increment() {
            Ok(()) => {},
            Err(e) => {
                return Err(SolJiError::Global(e));
            },
        }
    }
    *user_info = user;
    *temple = t;
    Ok(
        IncenseBurnOutcome {
            incense_type,
            incense_value: incense_rule.incense_value,
            merit_value: incense_rule.merit_value,
            mint_burn_nft,
            amulet_dropped,
        },
    )
}

} // verus!
