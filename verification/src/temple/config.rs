//! The temple's configuration: incense kinds, fortune odds, temple levels,
//! shop items and the switches that close operations.
use vstd::prelude::*;

use crate::temple::errors::{ErrorCode, TempleProgramError};

verus! {

/// An incense kind on sale at the temple.
#[derive(Clone, Debug)]
pub struct IncenseType {
    pub id: u8,
    pub name: String,
    /// Price of one stick, in lamports.
    pub price_lamports: u64,
    /// Merit a burned stick earns.
    pub merit: u32,
    /// Incense points a burned stick earns.
    pub incense_points: u32,
    /// Whether the kind is only given for donations.
    pub is_donation: bool,
}

/// Whether an incense kind may be configured: a non-zero id, a name and a
/// price.
pub open spec fn valid_incense_type(t: IncenseType) -> bool {
    t.id > 0 && t.name@.len() > 0 && t.price_lamports > 0
}

/// Finds the first incense kind with id `id`.
pub fn find_incense_type(types: &Vec<IncenseType>, id: u8) -> (r: Option<usize>)
    ensures
        r matches Some(i) ==> i < types@.len() && types@[i as int].id == id && forall|j: int|
            0 <= j < i ==> types@[j].id != id,
        r is None ==> forall|j: int| 0 <= j < types@.len() ==> types@[j].id != id,
{
    let mut i: usize = 0;
    while i < types.len()
        invariant
            0 <= i <= types@.len(),
            forall|j: int| 0 <= j < i ==> types@[j].id != id,
        decreases types@.len() - i,
    {
        if types[i].id == id {
            return Some(i);
        }
        i = i + 1;
    }
    None
}

/// Checks a list of incense kinds: each must be valid, else
/// `InvalidIncenseType`.
pub fn validate_incense_types(types: &Vec<IncenseType>) -> (r: Result<(), TempleProgramError>)
    ensures
        r is Ok <==> forall|j: int| 0 <= j < types@.len() ==> valid_incense_type(#[trigger] types@[j]),
        r is Err ==> r == Err::<(), TempleProgramError>(
            TempleProgramError::Code(ErrorCode::InvalidIncenseType),
        ),
{
    let mut i: usize = 0;
    while i < types.len()
        invariant
            0 <= i <= types@.len(),
            forall|j: int| 0 <= j < i ==> valid_incense_type(#[trigger] types@[j]),
        decreases types@.len() - i,
    {
        let t = &types[i];
        if t.id == 0 || t.name.unicode_len() == 0 || t.price_lamports == 0 {
            return Err(TempleProgramError::Code(ErrorCode::InvalidIncenseType));
        }
        i = i + 1;
    }
    Ok(())
}

/// Odds of the five fortune grades, in percent.
#[derive(Clone, Copy, Debug, PartialEq, Eq, Structural)]
pub struct FortuneConfig {
    pub great_luck_prob: u8,
    pub good_luck_prob: u8,
    pub neutral_prob: u8,
    pub bad_luck_prob: u8,
    pub great_bad_luck_prob: u8,
}

/// Sum of the five odds of a fortune table.
pub open spec fn fortune_total(c: FortuneConfig) -> int {
    c.great_luck_prob + c.good_luck_prob + c.neutral_prob + c.bad_luck_prob
        + c.great_bad_luck_prob
}

/// Checks the regular and the Buddha fortune tables: each must add up to
/// 100%, else `InvalidFortuneConfig`.
pub fn validate_fortune_configs(regular: &FortuneConfig, buddha: &FortuneConfig) -> (r: Result<
    (),
    TempleProgramError,
>)
    ensures
        r is Ok <==> fortune_total(*regular) == 100 && fortune_total(*buddha) == 100,
        r is Err ==> r == Err::<(), TempleProgramError>(
            TempleProgramError::Code(ErrorCode::InvalidFortuneConfig),
        ),
{
    let regular_total: u16 = regular.great_luck_prob as u16 + regular.good_luck_prob as u16
        + regular.neutral_prob as u16 + regular.bad_luck_prob as u16
        + regular.great_bad_luck_prob as u16;
    let buddha_total: u16 = buddha.great_luck_prob as u16 + buddha.good_luck_prob as u16
        + buddha.neutral_prob as u16 + buddha.bad_luck_prob as u16
        + buddha.great_bad_luck_prob as u16;
    if regular_total != 100 || buddha_total != 100 {
        return Err(TempleProgramError::Code(ErrorCode::InvalidFortuneConfig));
    }
    Ok(())
}

/// What the temple must reach for a level.
#[derive(Clone, Copy, Debug, PartialEq, Eq, Structural)]
pub struct TempleLevelConfig {
    pub level: u8,
    pub required_incense_points: u64,
    pub required_draw_fortune: u64,
    pub required_wishes: u64,
    pub required_donations_sol: u64,
    pub required_fortune_nfts: u64,
}

/// Checks temple level rows: each level must lie in 1..=`max_level`, else
/// `InvalidTempleLevel`.
pub fn validate_temple_levels(levels: &Vec<TempleLevelConfig>, max_level: u8) -> (r: Result<
    (),
    TempleProgramError,
>)
    ensures
        r is Ok <==> forall|j: int|
            0 <= j < levels@.len() ==> 0 < (#[trigger] levels@[j]).level <= max_level,
        r is Err ==> r == Err::<(), TempleProgramError>(
            TempleProgramError::Code(ErrorCode::InvalidTempleLevel),
        ),
{
    let mut i: usize = 0;
    while i < levels.len()
        invariant
            0 <= i <= levels@.len(),
            forall|j: int| 0 <= j < i ==> 0 < (#[trigger] levels@[j]).level <= max_level,
        decreases levels@.len() - i,
    {
        let l = levels[i].level;
        if !(l > 0 && l <= max_level) {
            return Err(TempleProgramError::Code(ErrorCode::InvalidTempleLevel));
        }
        i = i + 1;
    }
    Ok(())
}

/// The row of `levels` for level `target`, if any.
pub fn find_temple_level(levels: &Vec<TempleLevelConfig>, target: u8) -> (r: Option<
    TempleLevelConfig,
>)
    ensures
        r matches Some(c) ==> c.level == target && exists|j: int|
            0 <= j < levels@.len() && levels@[j] == c && forall|k: int|
                0 <= k < j ==> levels@[k].level != target,
        r is None ==> forall|j: int| 0 <= j < levels@.len() ==> levels@[j].level != target,
{
    let mut i: usize = 0;
    while i < levels.len()
        invariant
            0 <= i <= levels@.len(),
            forall|j: int| 0 <= j < i ==> levels@[j].level != target,
        decreases levels@.len() - i,
    {
        if levels[i].level == target {
            return Some(levels[i]);
        }
        i = i + 1;
    }
    None
}

/// What the temple must reach for its next level.
#[derive(Clone, Copy, Debug, PartialEq, Eq, Structural)]
pub struct NextLevelRequirements {
    pub target_level: u8,
    pub required_incense_points: u64,
    pub required_draw_fortune: u64,
    pub required_wishes: u64,
    pub required_donations_sol: u64,
    pub required_fortune_nfts: u64,
}

/// The requirements of the level above `current_level`, from the first row
/// for that level, if any.
pub fn next_level_requirements(levels: &Vec<TempleLevelConfig>, current_level: u8) -> (r: Option<
    NextLevelRequirements,
>)
    requires
        current_level < u8::MAX,
    ensures
        r matches Some(n) ==> n.target_level == current_level + 1 && exists|j: int|
            0 <= j < levels@.len() && levels@[j].level == current_level + 1 && (forall|k: int|
                0 <= k < j ==> levels@[k].level != current_level + 1) && n == (NextLevelRequirements {
                target_level: levels@[j].level,
                required_incense_points: levels@[j].required_incense_points,
                required_draw_fortune: levels@[j].required_draw_fortune,
                required_wishes: levels@[j].required_wishes,
                required_donations_sol: levels@[j].required_donations_sol,
                required_fortune_nfts: levels@[j].required_fortune_nfts,
            }),
        r is None ==> forall|j: int| 0 <= j < levels@.len() ==> levels@[j].level != current_level + 1,
{
    match find_temple_level(levels, current_level + 1) {
        Some(c) => Some(
            NextLevelRequirements {
                target_level: c.level,
                required_incense_points: c.required_incense_points,
                required_draw_fortune: c.required_draw_fortune,
                required_wishes: c.required_wishes,
                required_donations_sol: c.required_donations_sol,
                required_fortune_nfts: c.required_fortune_nfts,
            },
        ),
        None => None,
    }
}

/// The operations the temple can close, by their bit in the status byte.
#[derive(Clone, Copy, Debug, PartialEq, Eq, Structural)]
pub enum TempleStatusBitIndex {
    BuyIncense,
    BurnIncense,
    DrawFortune,
    CreateWish,
    Donate,
    MintNFT,
}

/// Bit position of each operation in the status byte.
pub open spec fn spec_bit_position(b: TempleStatusBitIndex) -> u8 {
    match b {
        TempleStatusBitIndex::BuyIncense => 0,
        TempleStatusBitIndex::BurnIncense => 1,
        TempleStatusBitIndex::DrawFortune => 2,
        TempleStatusBitIndex::CreateWish => 3,
        TempleStatusBitIndex::Donate => 4,
        TempleStatusBitIndex::MintNFT => 5,
    }
}

/// The operation at bit `bit` of the status byte; bits above 5 name none
/// (`InvalidAmount`).
pub fn status_bit_index(bit: u8) -> (r: Result<TempleStatusBitIndex, TempleProgramError>)
    ensures
        bit <= 5 ==> (r matches Ok(b) && spec_bit_position(b) == bit),
        bit > 5 ==> r == Err::<TempleStatusBitIndex, TempleProgramError>(
            TempleProgramError::Code(ErrorCode::InvalidAmount),
        ),
{
    match bit {
        0 => Ok(TempleStatusBitIndex::BuyIncense),
        1 => Ok(TempleStatusBitIndex::BurnIncense),
        2 => Ok(TempleStatusBitIndex::DrawFortune),
        3 => Ok(TempleStatusBitIndex::CreateWish),
        4 => Ok(TempleStatusBitIndex::Donate),
        5 => Ok(TempleStatusBitIndex::MintNFT),
        _ => Err(TempleProgramError::Code(ErrorCode::InvalidAmount)),
    }
}

/// Whether bit `pos` of `status` is set.
pub open spec fn status_bit(status: u8, pos: u8) -> bool {
    (status >> pos) & 1u8 == 1u8
}

/// Sets (`disabled`) or clears the bit of operation `b` in the status byte;
/// the other bits stay.
pub fn set_status_by_bit(status: u8, b: TempleStatusBitIndex, disabled: bool) -> (r: u8)
    ensures
        status_bit(r, spec_bit_position(b)) == disabled,
        forall|p: u8| p < 8 && p != spec_bit_position(b) ==> status_bit(r, p) == status_bit(status, p),
{
    let pos: u8 = match b {
        TempleStatusBitIndex::BuyIncense => 0,
        TempleStatusBitIndex::BurnIncense => 1,
        TempleStatusBitIndex::DrawFortune => 2,
        TempleStatusBitIndex::CreateWish => 3,
        TempleStatusBitIndex::Donate => 4,
        TempleStatusBitIndex::MintNFT => 5,
    };
    let mask: u8 = 1u8 << pos;
    let r = if disabled {
        status | mask
    } else {
        status & !mask
    };
    proof {
        lemma_bits_or_and_not();
    }
    r
}

/// Bits of a single-bit mask, of an or, and of an and with a complement.
proof fn lemma_bits_or_and_not()
    ensures
        forall|q: u8, p: u8|
            #![trigger status_bit(1u8 << q, p)]
            q < 8 && p < 8 ==> (status_bit(1u8 << q, p) == (p == q)),
        forall|s: u8, m: u8, p: u8|
            #![trigger status_bit(s | m, p)]
            p < 8 ==> (status_bit(s | m, p) == (status_bit(s, p) || status_bit(m, p))),
        forall|s: u8, m: u8, p: u8|
            #![trigger status_bit(s & !m, p)]
            p < 8 ==> (status_bit(s & !m, p) == (status_bit(s, p) && !status_bit(m, p))),
{
    assert(forall|q: u8, p: u8|
        q < 8 && p < 8 ==> ((((1u8 << q) >> p) & 1u8 == 1u8) == (p == q))) by (bit_vector);
    assert(forall|s: u8, m: u8, p: u8|
        p < 8 ==> ((((s | m) >> p) & 1u8 == 1u8) == (((s >> p) & 1u8 == 1u8) || ((m >> p) & 1u8
            == 1u8)))) by (bit_vector);
    assert(forall|s: u8, m: u8, p: u8|
        p < 8 ==> ((((s & !m) >> p) & 1u8 == 1u8) == (((s >> p) & 1u8 == 1u8) && !((m >> p) & 1u8
            == 1u8)))) by (bit_vector);
}

} // verus!
