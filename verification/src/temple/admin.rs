//! The temple configuration account and its administration.
use vstd::prelude::*;

use crate::pubkey::Pubkey;
use crate::temple::config::{
    fortune_total,
    set_status_by_bit,
    status_bit,
    status_bit_index,
    valid_incense_type,
    validate_fortune_configs,
    validate_incense_types,
    validate_temple_levels,
    FortuneConfig,
    IncenseType,
    TempleLevelConfig,
};
use crate::temple::errors::{ErrorCode, TempleProgramError};
use crate::temple::incense::{default_incense_types, is_incense, spec_default_incense};
use crate::temple::state::{spec_new_global_stats, GlobalStats};

verus! {

/// The integer part of the temple's dynamic configuration: incense kinds,
/// fortune odds and temple levels.
#[derive(Clone, Debug)]
pub struct TempleDynamicConfig {
    pub incense_types: Vec<IncenseType>,
    pub regular_fortune: FortuneConfig,
    pub buddha_fortune: FortuneConfig,
    pub temple_levels: Vec<TempleLevelConfig>,
}

/// The temple configuration account.
#[derive(Clone, Debug)]
pub struct TempleConfig {
    pub owner: Pubkey,
    pub treasury: Pubkey,
    pub level: u8,
    pub created_at: i64,
    pub total_buddha_nft: u64,
    pub total_amulets: u64,
    /// One bit per operation; a set bit closes it.
    pub status: u8,
    pub open_time: u64,
    pub dynamic_config: TempleDynamicConfig,
}

/// Creates the temple configuration of `owner` at `now`: level 1, nothing
/// minted, every operation open, the six default incense kinds, and the
/// given fortune odds and temple levels; beside it, the global statistics
/// of the configuration account `temple_config_key`, every total zero.
pub fn create_temple_config(
    owner: Pubkey,
    temple_config_key: Pubkey,
    treasury: Pubkey,
    now: i64,
    regular_fortune: FortuneConfig,
    buddha_fortune: FortuneConfig,
    temple_levels: Vec<TempleLevelConfig>,
) -> (r: (TempleConfig, GlobalStats))
    ensures
        r.0.owner == owner,
        r.0.treasury == treasury,
        r.0.level == 1,
        r.0.created_at == now,
        r.0.total_buddha_nft == 0,
        r.0.total_amulets == 0,
        r.0.status == 0,
        r.0.open_time == now as u64,
        r.0.dynamic_config.incense_types@.len() == 6,
        forall|i: int|
            0 <= i < 6 ==> is_incense(
                #[trigger] r.0.dynamic_config.incense_types@[i],
                spec_default_incense(i),
            ),
        r.0.dynamic_config.regular_fortune == regular_fortune,
        r.0.dynamic_config.buddha_fortune == buddha_fortune,
        r.0.dynamic_config.temple_levels@ == temple_levels@,
        r.1 == spec_new_global_stats(temple_config_key, now),
{
    let config = TempleConfig {
        owner,
        treasury,
        level: 1,
        created_at: now,
        total_buddha_nft: 0,
        total_amulets: 0,
        status: 0,
        open_time: now as u64,
        dynamic_config: TempleDynamicConfig {
            incense_types: default_incense_types(),
            regular_fortune,
            buddha_fortune,
            temple_levels,
        },
    };
    (config, GlobalStats::new(temple_config_key, now))
}

/// Replaces the incense kinds when every new kind is valid
/// (`InvalidIncenseType` otherwise, and nothing changes).
pub fn update_incense_types(config: &mut TempleDynamicConfig, incense_types: Vec<IncenseType>) -> (r:
    Result<(), TempleProgramError>)
    ensures
        r is Ok <==> forall|j: int|
            0 <= j < incense_types@.len() ==> valid_incense_type(#[trigger] incense_types@[j]),
        r is Ok ==> final(config).incense_types@ == incense_types@,
        r is Err ==> final(config).incense_types@ == old(config).incense_types@,
        final(config).regular_fortune == old(config).regular_fortune,
        final(config).buddha_fortune == old(config).buddha_fortune,
        final(config).temple_levels@ == old(config).temple_levels@,
{
    match validate_incense_types(&incense_types) {
        Ok(()) => {},
        Err(e) => {
            return Err(e);
        },
    }
    config.incense_types = incense_types;
    Ok(())
}

/// Replaces both fortune tables when each adds up to 100%
/// (`InvalidFortuneConfig` otherwise, and nothing changes).
pub fn update_fortune_config(
    config: &mut TempleDynamicConfig,
    regular_fortune: FortuneConfig,
    buddha_fortune: FortuneConfig,
) -> (r: Result<(), TempleProgramError>)
    ensures
        r is Ok <==> fortune_total(regular_fortune) == 100 && fortune_total(buddha_fortune) == 100,
        r is Err ==> r == Err::<(), TempleProgramError>(
            TempleProgramError::Code(ErrorCode::InvalidFortuneConfig),
        ),
        r is Ok ==> final(config).regular_fortune == regular_fortune,
        r is Ok ==> final(config).buddha_fortune == buddha_fortune,
        r is Err ==> final(config).regular_fortune == old(config).regular_fortune,
        r is Err ==> final(config).buddha_fortune == old(config).buddha_fortune,
        final(config).incense_types@ == old(config).incense_types@,
        final(config).temple_levels@ == old(config).temple_levels@,
{
    match validate_fortune_configs(&regular_fortune, &buddha_fortune) {
        Ok(()) => {},
        Err(e) => {
            return Err(e);
        },
    }
    config.regular_fortune = regular_fortune;
    config.buddha_fortune = buddha_fortune;
    Ok(())
}

/// Checks the two fortune tables of a new fortune configuration.
pub fn init_fortune_config(fortune_config: FortuneConfig, buddha_fortune_config: FortuneConfig) -> (r:
    Result<(FortuneConfig, FortuneConfig), TempleProgramError>)
    ensures
        r is Ok <==> fortune_total(fortune_config) == 100 && fortune_total(buddha_fortune_config)
            == 100,
        r is Err ==> r == Err::<(FortuneConfig, FortuneConfig), TempleProgramError>(
            TempleProgramError::Code(ErrorCode::InvalidFortuneConfig),
        ),
        r matches Ok(p) ==> p == (fortune_config, buddha_fortune_config),
{
    match validate_fortune_configs(&fortune_config, &buddha_fortune_config) {
        Ok(()) => Ok((fortune_config, buddha_fortune_config)),
        Err(e) => Err(e),
    }
}

/// Replaces the temple levels when each lies in 1..=4 (`InvalidTempleLevel`
/// otherwise, and nothing changes).
pub fn update_temple_levels(config: &mut TempleDynamicConfig, temple_levels: Vec<TempleLevelConfig>) -> (r:
    Result<(), TempleProgramError>)
    ensures
        r is Ok <==> forall|j: int|
            0 <= j < temple_levels@.len() ==> 0 < (#[trigger] temple_levels@[j]).level <= 4,
        r is Ok ==> final(config).temple_levels@ == temple_levels@,
        r is Err ==> final(config).temple_levels@ == old(config).temple_levels@,
        final(config).incense_types@ == old(config).incense_types@,
        final(config).regular_fortune == old(config).regular_fortune,
        final(config).buddha_fortune == old(config).buddha_fortune,
{
    match validate_temple_levels(&temple_levels, 4) {
        Ok(()) => {},
        Err(e) => {
            return Err(e);
        },
    }
    config.temple_levels = temple_levels;
    Ok(())
}

/// Sets the whole status byte.
pub fn update_temple_status(config: &mut TempleConfig, status: u8)
    ensures
        final(config).status == status,
        final(config).owner == old(config).owner,
        final(config).level == old(config).level,
{
    config.status = status;
}

/// Closes (`disabled`) or opens the operation at bit `bit` (0 to 5, else
/// `InvalidAmount` and nothing changes); the other bits stay.
pub fn update_temple_status_by_bit(config: &mut TempleConfig, bit: u8, disabled: bool) -> (r:
    Result<(), TempleProgramError>)
    ensures
        bit > 5 ==> r == Err::<(), TempleProgramError>(
            TempleProgramError::Code(ErrorCode::InvalidAmount),
        ) && final(config).status == old(config).status,
        bit <= 5 ==> r is Ok && status_bit(final(config).status, bit) == disabled,
        bit <= 5 ==> forall|p: u8|
            p < 8 && p != bit ==> status_bit(final(config).status, p) == status_bit(
                old(config).status,
                p,
            ),
        final(config).owner == old(config).owner,
        final(config).level == old(config).level,
{
    let b = match status_bit_index(bit) {
        Ok(b) => b,
        Err(e) => {
            return Err(e);
        },
    };
    config.status = set_status_by_bit(config.status, b, disabled);
    Ok(())
}

} // verus!
