//! Drawing fortune lots: the lot table, the randomness commitment and the
//! draw itself.
use vstd::prelude::*;

use crate::encoding::pow256;
use crate::pubkey::Pubkey;
use crate::solji::errors::{DrawLotsCode, SolJiError};
use crate::solji::randomness::{
    is_randomness_layout,
    parse_randomness_account,
    randomness_value,
    RandomnessReading,
};
use crate::solji::states::draw_lots::{
    spec_lottery_poetry,
    LotteryConfig,
    LotteryRecord,
    LotteryType,
    PlayerState,
    LOTTERY_FEE_MERIT,
};
use crate::solji::states::nft_mint::le_value;
use crate::solji::states::temple::{spec_add_lottery, Temple};
use crate::solji::states::user::{div_trunc, spec_lottery, UserInfo, UserInfoView};

verus! {

/// The lot table and a settled draw state for `authority`.
pub fn initialize_lottery_poetry(authority: Pubkey, bump: u8) -> (r: (LotteryConfig, PlayerState))
    ensures
        forall|i: int|
            0 <= i < 7 ==> r.0.lottery_array@[i]
                == crate::solji::states::draw_lots::spec_lottery_at(i),
        r.1.allowed_user == authority,
        !r.1.latest_flip_result,
        r.1.randomness_account.bytes@ == Seq::new(32, |i: int| 0u8),
        r.1.commit_slot == 0,
        r.1.settled,
        r.1.bump == bump,
{
    let config = LotteryConfig::new();
    let player_state = PlayerState {
        allowed_user: authority,
        latest_flip_result: false,
        randomness_account: Pubkey::default_key(),
        commit_slot: 0,
        settled: true,
        bump,
    };
    proof {
        assert(player_state.randomness_account.bytes@ =~= Seq::new(32, |i: int| 0u8));
    }
    (config, player_state)
}

/// The draw state after committing to `randomness_key` and `seed_slot`.
pub open spec fn spec_committed(p: PlayerState, randomness_key: Pubkey, seed_slot: u64) -> PlayerState {
    PlayerState { randomness_account: randomness_key, commit_slot: seed_slot, settled: false, ..p }
}

/// Outcome of committing to a randomness account whose seed slot is
/// `seed_slot` at clock slot `clock_slot`: the seed must be at most 3 slots
/// old, and the previous draw must be settled.
pub open spec fn spec_commit(p: PlayerState, seed_slot: u64, clock_slot: u64) -> Result<
    (),
    SolJiError,
> {
    let age = if clock_slot >= seed_slot {
        clock_slot - seed_slot
    } else {
        0
    };
    if age > 3 {
        Err(SolJiError::DrawLots(DrawLotsCode::RandomnessExpired))
    } else if !p.settled {
        Err(SolJiError::DrawLots(DrawLotsCode::AlreadySettled))
    } else {
        Ok(())
    }
}

/// Commits the draw state to a randomness account read at `clock_slot`.
pub fn commit_randomness(
    player_state: &mut PlayerState,
    randomness_key: Pubkey,
    reading: &RandomnessReading,
    clock_slot: u64,
) -> (r: Result<u64, SolJiError>)
    ensures
        spec_commit(*old(player_state), reading.seed_slot, clock_slot) is Err ==> r
            == Err::<u64, SolJiError>(
            spec_commit(*old(player_state), reading.seed_slot, clock_slot)->Err_0,
        ) && *final(player_state) == *old(player_state),
        spec_commit(*old(player_state), reading.seed_slot, clock_slot) is Ok ==> r == Ok::<
            u64,
            SolJiError,
        >(reading.seed_slot) && *final(player_state) == spec_committed(
            *old(player_state),
            randomness_key,
            reading.seed_slot,
        ),
{
    let d = clock_slot.saturating_sub(reading.seed_slot);
    if d > 3 {
        return Err(SolJiError::DrawLots(DrawLotsCode::RandomnessExpired));
    }
    if !player_state.settled {
        return Err(SolJiError::DrawLots(DrawLotsCode::AlreadySettled));
    }
    player_state.randomness_account = randomness_key;
    player_state.commit_slot = reading.seed_slot;
    player_state.settled = false;
    Ok(reading.seed_slot)
}

/// Commits the draw state to the randomness account `randomness_key` whose
/// data is `randomness_data`, at clock slot `clock_slot`; returns the
/// committed seed slot.
pub fn coin_flip(
    player_state: &mut PlayerState,
    randomness_key: Pubkey,
    randomness_data: &[u8],
    clock_slot: u64,
) -> (r: Result<u64, SolJiError>)
    ensures
        !is_randomness_layout(randomness_data@) ==> r == Err::<u64, SolJiError>(
            SolJiError::DrawLots(DrawLotsCode::InvalidRandomnessAccount),
        ) && *final(player_state) == *old(player_state),
        is_randomness_layout(randomness_data@) ==> ({
            let seed = le_value(randomness_data@.subrange(104, 112)) as u64;
            &&& spec_commit(*old(player_state), seed, clock_slot) is Err ==> r == Err::<
                u64,
                SolJiError,
            >(spec_commit(*old(player_state), seed, clock_slot)->Err_0) && *final(player_state)
                == *old(player_state)
            &&& spec_commit(*old(player_state), seed, clock_slot) is Ok ==> r == Ok::<
                u64,
                SolJiError,
            >(seed) && *final(player_state) == spec_committed(
                *old(player_state),
                randomness_key,
                seed,
            )
        }),
{
    let reading = match parse_randomness_account(randomness_data) {
        Some(x) => x,
        None => {
            return Err(SolJiError::DrawLots(DrawLotsCode::InvalidRandomnessAccount));
        },
    };
    commit_randomness(player_state, randomness_key, &reading, clock_slot)
}

/// Whether `now_ts` falls on a later day than `last` in UTC+8.
pub open spec fn spec_new_lot_day(last: i64, now_ts: i64) -> bool {
    div_trunc(now_ts + 28_800, 86_400) > div_trunc(last + 28_800, 86_400)
}

/// Makes the first draw of each day (UTC+8) free.
pub fn check_is_free(user_info: &mut UserInfo, now_ts: i64)
    requires
        old(user_info).lottery_time <= i64::MAX - 28_800,
        now_ts <= i64::MAX - 28_800,
    ensures
        final(user_info)@ == (if spec_new_lot_day(old(user_info).lottery_time, now_ts) {
            UserInfoView { lottery_is_free: true, ..old(user_info)@ }
        } else {
            old(user_info)@
        }),
{
    let last_day = (user_info.lottery_time + 8 * 3600) / 86400;
    let current_day = (now_ts + 8 * 3600) / 86400;
    if current_day > last_day {
        user_info.lottery_is_free = true;
    }
}

/// Position in the lot table drawn from a 64-bit random number: `x * n / 2^64`.
pub fn unbiased_u64(x: u64, n: u64) -> (r: u64)
    requires
        n > 0,
    ensures
        r as int == (x as int * n as int) / 0x1_0000_0000_0000_0000,
        r < n,
{
    assert((x as int) * (n as int) < 0x1_0000_0000_0000_0000_0000_0000_0000_0000) by (nonlinear_arith)
        requires
            x < 0x1_0000_0000_0000_0000,
            n < 0x1_0000_0000_0000_0000,
    ;
    let p: u128 = (x as u128) * (n as u128);
    assert(p >> 64u32 == p / 0x1_0000_0000_0000_0000u128) by (bit_vector);
    assert((x as int * n as int) / 0x1_0000_0000_0000_0000 < n) by (nonlinear_arith)
        requires
            x < 0x1_0000_0000_0000_0000,
            n > 0,
    ;
    (p >> 64u32) as u64
}

/// Signer and clock reading of a draw.
#[derive(Clone, Copy, Debug)]
pub struct DrawEnv {
    pub authority: Pubkey,
    pub now_ts: i64,
}

/// Lot kind drawn without an oracle: the day time mixed with the signer's
/// first address byte, modulo 7.
pub open spec fn spec_local_lot_index(env: DrawEnv) -> int {
    ((env.now_ts as u64) ^ (env.authority.bytes@[0] as u64)) as int % 7
}

/// Outcome of a draw at table position `index`: the free draw of the day or
/// a fee of 5 merit, a reward of 2 merit (3 for excellent luck), the lot and
/// temple counters, and the draw state settled. On any error no account
/// changes.
pub open spec fn spec_draw_lots(
    env: DrawEnv,
    table: Seq<LotteryType>,
    u0: UserInfoView,
    t0: Temple,
    p0: PlayerState,
    index: int,
) -> (Result<LotteryType, SolJiError>, UserInfoView, Temple, PlayerState) {
    let u1 = if spec_new_lot_day(u0.lottery_time, env.now_ts) {
        UserInfoView { lottery_is_free: true, ..u0 }
    } else {
        u0
    };
    let charged = !u1.lottery_is_free;
    let u2 = if charged {
        UserInfoView { merit_value: (u1.merit_value - LOTTERY_FEE_MERIT) as u64, ..u1 }
    } else {
        u1
    };
    let kind = table[index];
    let reward: u64 = if kind == LotteryType::ExcellentLuck {
        3
    } else {
        2
    };
    let (r3, u3) = spec_lottery(u2, env.now_ts, reward);
    let (r4, t4) = spec_add_lottery(t0);
    if charged && u1.merit_value < LOTTERY_FEE_MERIT {
        (Err(SolJiError::DrawLots(DrawLotsCode::Insufficient)), u0, t0, p0)
    } else if r3 is Err {
        (Err(SolJiError::Global(r3->Err_0)), u0, t0, p0)
    } else if r4 is Err {
        (Err(SolJiError::Global(r4->Err_0)), u0, t0, p0)
    } else {
        (Ok(kind), u3, t4, PlayerState { settled: true, ..p0 })
    }
}

/// Merit a drawn lot earns: 3 for excellent luck, 2 for the others.
pub fn lottery_reward(t: LotteryType) -> (r: u64)
    ensures
        r == (if t == LotteryType::ExcellentLuck {
            3u64
        } else {
            2u64
        }),
{
    if t == LotteryType::ExcellentLuck {
        3
    } else {
        2
    }
}

/// The draw after the lot position is known.
fn draw_at(
    env: &DrawEnv,
    lottery_array: &LotteryConfig,
    user_info: &mut UserInfo,
    temple: &mut Temple,
    player_state: &mut PlayerState,
    index: u64,
) -> (r: Result<LotteryRecord, SolJiError>)
    requires
        index < 7,
        old(user_info).lottery_time <= i64::MAX - 28_800,
        env.now_ts <= i64::MAX - 28_800,
    ensures
        ({
            let (res, u, t, p) = spec_draw_lots(
                *env,
                lottery_array.lottery_array@,
                old(user_info)@,
                *old(temple),
                *old(player_state),
                index as int,
            );
            &&& final(user_info)@ == u
            &&& *final(temple) == t
            &&& *final(player_state) == p
            &&& match r {
                Ok(rec) => {
                    &&& res == Ok::<LotteryType, SolJiError>(rec.lottery_type)
                    &&& rec.user == env.authority
                    &&& rec.lottery_poetry@ == spec_lottery_poetry(rec.lottery_type)
                    &&& rec.create_at == env.now_ts
                    &&& rec.merit_value == LOTTERY_FEE_MERIT
                },
                Err(e) => res == Err::<LotteryType, SolJiError>(e),
            }
        }),
{
    let mut user = *user_info;
    let mut t = *temple;
    check_is_free(&mut user, env.now_ts);
    if !user.lottery_is_free {
        if user.merit_value < LOTTERY_FEE_MERIT {
            return Err(SolJiError::DrawLots(DrawLotsCode::Insufficient));
        }
        user.merit_value = user.merit_value - LOTTERY_FEE_MERIT;
    }
    let lottery_type = lottery_array.get_lottery_type(index);
    let reward = lottery_reward(lottery_type);
    match user.update_lottery_count(env.now_ts, reward) {
        Ok(()) => {},
        Err(e) => {
            return Err(SolJiError::Global(e));
        },
    }
    let merit_value = if user.lottery_is_free {
        0
    } else {
        LOTTERY_FEE_MERIT
    };
    let record = LotteryRecord::new(
        env.authority,
        lottery_type,
        String::from_str(lottery_type.get_lottery_poety()),
        env.now_ts,
        merit_value,
    );
    match t.add_temple_lottery() {
        Ok(()) => {},
        Err(e) => {
            return Err(SolJiError::Global(e));
        },
    }
    *user_info = user;
    *temple = t;
    player_state.settled = true;
    Ok(record)
}

/// Draws a lot without an oracle: the table position is the day time mixed
/// with the signer's first address byte, modulo 7.
pub fn draw_lots(
    env: &DrawEnv,
    lottery_array: &LotteryConfig,
    user_info: &mut UserInfo,
    temple: &mut Temple,
    player_state: &mut PlayerState,
) -> (r: Result<LotteryRecord, SolJiError>)
    requires
        old(user_info).lottery_time <= i64::MAX - 28_800,
        env.now_ts <= i64::MAX - 28_800,
    ensures
        ({
            let (res, u, t, p) = spec_draw_lots(
                *env,
                lottery_array.lottery_array@,
                old(user_info)@,
                *old(temple),
                *old(player_state),
                spec_local_lot_index(*env),
            );
            &&& final(user_info)@ == u
            &&& *final(temple) == t
            &&& *final(player_state) == p
            &&& match r {
                Ok(rec) => {
                    &&& res == Ok::<LotteryType, SolJiError>(rec.lottery_type)
                    &&& rec.user == env.authority
                    &&& rec.lottery_poetry@ == spec_lottery_poetry(rec.lottery_type)
                    &&& rec.create_at == env.now_ts
                    &&& rec.merit_value == LOTTERY_FEE_MERIT
                },
                Err(e) => res == Err::<LotteryType, SolJiError>(e),
            }
        }),
{
    let seed = (env.now_ts as u64) ^ (env.authority.bytes[0] as u64);
    let idx = seed % 7;
    draw_at(env, lottery_array, user_info, temple, player_state, idx)
}

/// Table position drawn from a revealed randomness value: its first eight
/// bytes, little-endian, scaled to 7 positions.
pub open spec fn spec_revealed_lot_index(value: Seq<u8>) -> int {
    (le_value(value.subrange(0, 8)) as int * 7) / 0x1_0000_0000_0000_0000
}

/// Draws a lot from the committed randomness account, whose data is
/// `randomness_data`, at clock slot `clock_slot`: the account must still
/// carry the committed seed slot and be revealed at this slot.
pub fn draw_lots_revealed(
    env: &DrawEnv,
    lottery_array: &LotteryConfig,
    user_info: &mut UserInfo,
    temple: &mut Temple,
    player_state: &mut PlayerState,
    randomness_data: &[u8],
    clock_slot: u64,
) -> (r: Result<LotteryRecord, SolJiError>)
    requires
        old(user_info).lottery_time <= i64::MAX - 28_800,
        env.now_ts <= i64::MAX - 28_800,
    ensures
        !is_randomness_layout(randomness_data@) ==> r == Err::<LotteryRecord, SolJiError>(
            SolJiError::DrawLots(DrawLotsCode::InvalidRandomnessAccount),
        ),
        is_randomness_layout(randomness_data@) && le_value(randomness_data@.subrange(104, 112))
            != old(player_state).commit_slot ==> r == Err::<LotteryRecord, SolJiError>(
            SolJiError::DrawLots(DrawLotsCode::RandomnessExpired),
        ),
        is_randomness_layout(randomness_data@) && le_value(randomness_data@.subrange(104, 112))
            == old(player_state).commit_slot && le_value(randomness_data@.subrange(144, 152))
            != clock_slot ==> r == Err::<LotteryRecord, SolJiError>(
            SolJiError::DrawLots(DrawLotsCode::RandomnessNotResolved),
        ),
        !(is_randomness_layout(randomness_data@) && le_value(randomness_data@.subrange(104, 112))
            == old(player_state).commit_slot && le_value(randomness_data@.subrange(144, 152))
            == clock_slot) ==> final(user_info)@ == old(user_info)@ && *final(temple) == *old(
            temple,
        ) && *final(player_state) == *old(player_state),
        is_randomness_layout(randomness_data@) && le_value(randomness_data@.subrange(104, 112))
            == old(player_state).commit_slot && le_value(randomness_data@.subrange(144, 152))
            == clock_slot ==> ({
            let (res, u, t, p) = spec_draw_lots(
                *env,
                lottery_array.lottery_array@,
                old(user_info)@,
                *old(temple),
                *old(player_state),
                spec_revealed_lot_index(randomness_data@.subrange(152, 184)),
            );
            &&& final(user_info)@ == u
            &&& *final(temple) == t
            &&& *final(player_state) == p
            &&& match r {
                Ok(rec) => {
                    &&& res == Ok::<LotteryType, SolJiError>(rec.lottery_type)
                    &&& rec.user == env.authority
                    &&& rec.lottery_poetry@ == spec_lottery_poetry(rec.lottery_type)
                    &&& rec.create_at == env.now_ts
                    &&& rec.merit_value == LOTTERY_FEE_MERIT
                },
                Err(e) => res == Err::<LotteryType, SolJiError>(e),
            }
        }),
{
    let reading = match parse_randomness_account(randomness_data) {
        Some(x) => x,
        None => {
            return Err(SolJiError::DrawLots(DrawLotsCode::InvalidRandomnessAccount));
        },
    };
    proof {
        assert(reading.value@ =~= randomness_data@.subrange(152, 184));
    }
    draw_lots_from_reading(env, lottery_array, user_info, temple, player_state, &reading, clock_slot)
}

/// Draws a lot from a parsed randomness account read at clock slot
/// `clock_slot`: it must still carry the committed seed slot
/// (`RandomnessExpired`) and be revealed at this slot
/// (`RandomnessNotResolved`); the table position comes from its value.
pub fn draw_lots_from_reading(
    env: &DrawEnv,
    lottery_array: &LotteryConfig,
    user_info: &mut UserInfo,
    temple: &mut Temple,
    player_state: &mut PlayerState,
    reading: &RandomnessReading,
    clock_slot: u64,
) -> (r: Result<LotteryRecord, SolJiError>)
    requires
        old(user_info).lottery_time <= i64::MAX - 28_800,
        env.now_ts <= i64::MAX - 28_800,
    ensures
        reading.seed_slot != old(player_state).commit_slot ==> r == Err::<LotteryRecord, SolJiError>(
            SolJiError::DrawLots(DrawLotsCode::RandomnessExpired),
        ),
        reading.seed_slot == old(player_state).commit_slot && reading.reveal_slot != clock_slot
            ==> r == Err::<LotteryRecord, SolJiError>(
            SolJiError::DrawLots(DrawLotsCode::RandomnessNotResolved),
        ),
        (reading.seed_slot != old(player_state).commit_slot || reading.reveal_slot != clock_slot)
            ==> final(user_info)@ == old(user_info)@ && *final(temple) == *old(temple)
            && *final(player_state) == *old(player_state),
        reading.seed_slot == old(player_state).commit_slot && reading.reveal_slot == clock_slot
            ==> ({
            let (res, u, t, p) = spec_draw_lots(
                *env,
                lottery_array.lottery_array@,
                old(user_info)@,
                *old(temple),
                *old(player_state),
                spec_revealed_lot_index(reading.value@),
            );
            &&& final(user_info)@ == u
            &&& *final(temple) == t
            &&& *final(player_state) == p
            &&& match r {
                Ok(rec) => {
                    &&& res == Ok::<LotteryType, SolJiError>(rec.lottery_type)
                    &&& rec.user == env.authority
                    &&& rec.lottery_poetry@ == spec_lottery_poetry(rec.lottery_type)
                    &&& rec.create_at == env.now_ts
                    &&& rec.merit_value == LOTTERY_FEE_MERIT
                },
                Err(e) => res == Err::<LotteryType, SolJiError>(e),
            }
        }),
{
    if reading.seed_slot != player_state.commit_slot {
        return Err(SolJiError::DrawLots(DrawLotsCode::RandomnessExpired));
    }
    let value = match randomness_value(reading, clock_slot) {
        Some(v) => v,
        None => {
            return Err(SolJiError::DrawLots(DrawLotsCode::RandomnessNotResolved));
        },
    };
    let r = le_u64(value.as_slice());
    let idx = unbiased_u64(r, 7);
    draw_at(env, lottery_array, user_info, temple, player_state, idx)
}

/// The first eight bytes of `bytes`, read little-endian.
pub fn le_u64(bytes: &[u8]) -> (r: u64)
    requires
        bytes@.len() >= 8,
    ensures
        r as nat == le_value(bytes@.subrange(0, 8)),
{
    let mut r: u64 = 0;
    let mut i: usize = 8;
    proof {
        assert(bytes@.subrange(8, 8) =~= Seq::<u8>::empty());
    }
    while i > 0
        invariant
            0 <= i <= 8,
            bytes@.len() >= 8,
            r as nat == le_value(bytes@.subrange(i as int, 8)),
            (r as nat) < pow256((8 - i) as nat),
        decreases i,
    {
        i = i - 1;
        let ghost tail = bytes@.subrange(i as int, 8);
        proof {
            assert(tail.drop_first() =~= bytes@.subrange(i + 1, 8));
            assert(tail[0] == bytes@[i as int]);
            assert(pow256((8 - i) as nat) == 256 * pow256(
                (8 - (i + 1)) as nat,
            ));
            lemma_pow256_le_8((8 - i) as nat);
        }
        r = r * 256 + (bytes[i] as u64);
    }
    proof {
        assert(bytes@.subrange(0, 8) =~= bytes@.subrange(0 as int, 8));
    }
    r
}

/// 256 to the `n` is at most 2 to the 64th for `n` up to 8.
proof fn lemma_pow256_le_8(n: nat)
    requires
        n <= 8,
    ensures
        pow256(n) <= 0x1_0000_0000_0000_0000,
{
    reveal_with_fuel(pow256, 9);
}

} // verus!
