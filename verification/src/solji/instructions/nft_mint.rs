//! Metadata of the program's NFT collections, and the soulbound Buddha
//! statue NFT.
use vstd::prelude::*;

use crate::encoding::{append_decimal, spec_decimal};
use crate::solji::errors::{GlobalError, NftErrorCode, SolJiError};
use crate::solji::states::draw_lots::{LOTTERY_NFT_NAME, LOTTERY_NFT_SYMBOL, LOTTERY_NFT_URL};
use crate::solji::states::incense_config::{
    spec_incense_from_code,
    spec_incense_nft_name,
    spec_incense_nft_uri,
    spec_incense_symbol,
    IncenseType,
};
use crate::solji::states::nft_mint::{
    spec_amulet_name,
    spec_amulet_symbol,
    AmuletLevel,
    CreateNftArgs,
    SbtNftCount,
    SBT_NFT_NAME,
    SBT_NFT_SYMBOL,
    SBT_NFT_URL,
};
use crate::solji::states::user::{UserInfo, UserInfoView};
use crate::solji::states::wish::{WISH_NFT_NAME, WISH_NFT_SYMBOL, WISH_NFT_URL};

verus! {

/// Most Buddha statue NFTs minted before minting stops.
pub const SBT_MAX_COUNT: u64 = 10_000;

/// Lifetime donation (lamports) a user needs for the Buddha statue NFT.
pub const SBT_MIN_DONATION: u64 = 500_000_000;

/// Metadata of the commemorative NFT of the incense kind with code `incense`.
pub fn burn_incense_nft_mint(incense: u8) -> (r: Result<CreateNftArgs, SolJiError>)
    ensures
        spec_incense_from_code(incense) is None ==> r == Err::<CreateNftArgs, SolJiError>(
            SolJiError::Global(GlobalError::InvalidIncenseType),
        ),
        spec_incense_from_code(incense) matches Some(t) ==> (r matches Ok(a) && a.name@
            == spec_incense_nft_name(t) && a.symbol@ == spec_incense_symbol(t) && a.url@
            == spec_incense_nft_uri(t) && !a.is_mutable && a.collection_details),
{
    let incense_type = match IncenseType::get_incense_type(incense) {
        Some(t) => t,
        None => {
            return Err(SolJiError::Global(GlobalError::InvalidIncenseType));
        },
    };
    Ok(
        CreateNftArgs {
            name: incense_type.get_nft_name(),
            symbol: incense_type.get_symbol(),
            url: incense_type.get_nft_uri(),
            is_mutable: false,
            collection_details: true,
        },
    )
}

/// Mints the soulbound Buddha statue NFT: at most 10 001 are minted
/// (`NftCountOver` once the count passes 10 000), one per user
/// (`HasSbtToken`), to users who donated at least 0.5 SOL
/// (`DonateAmountNotEnough`). The NFT is numbered after the count; the count
/// rises and the user is marked as holding it. On error nothing changes.
pub fn mint_sbt_nft(sbt_nft_count: &mut SbtNftCount, user_info: &mut UserInfo) -> (r: Result<
    CreateNftArgs,
    SolJiError,
>)
    ensures
        old(sbt_nft_count).count > SBT_MAX_COUNT ==> r == Err::<CreateNftArgs, SolJiError>(
            SolJiError::Nft(NftErrorCode::NftCountOver),
        ),
        old(sbt_nft_count).count <= SBT_MAX_COUNT && old(user_info).has_sbt_token ==> r == Err::<
            CreateNftArgs,
            SolJiError,
        >(SolJiError::Nft(NftErrorCode::HasSbtToken)),
        old(sbt_nft_count).count <= SBT_MAX_COUNT && !old(user_info).has_sbt_token && old(
            user_info,
        ).donate_amount < SBT_MIN_DONATION ==> r == Err::<CreateNftArgs, SolJiError>(
            SolJiError::Nft(NftErrorCode::DonateAmountNotEnough),
        ),
        r is Err ==> *final(sbt_nft_count) == *old(sbt_nft_count) && final(user_info)@ == old(
            user_info,
        )@,
        r matches Ok(a) ==> {
            &&& a.name@ == SBT_NFT_NAME@ + "#"@ + spec_decimal((old(sbt_nft_count).count + 1) as nat)
            &&& a.symbol@ == SBT_NFT_SYMBOL@
            &&& a.url@ == SBT_NFT_URL@
            &&& !a.is_mutable
            &&& a.collection_details
            &&& final(sbt_nft_count).count == old(sbt_nft_count).count + 1
            &&& final(user_info)@ == (UserInfoView { has_sbt_token: true, ..old(user_info)@ })
        },
        old(sbt_nft_count).count <= SBT_MAX_COUNT && !old(user_info).has_sbt_token && old(
            user_info,
        ).donate_amount >= SBT_MIN_DONATION ==> r is Ok,
{
    if sbt_nft_count.count > SBT_MAX_COUNT {
        return Err(SolJiError::Nft(NftErrorCode::NftCountOver));
    }
    if user_info.has_sbt_token {
        return Err(SolJiError::Nft(NftErrorCode::HasSbtToken));
    }
    if user_info.donate_amount < SBT_MIN_DONATION {
        return Err(SolJiError::Nft(NftErrorCode::DonateAmountNotEnough));
    }
    let mut name = String::from_str(SBT_NFT_NAME);
    name.append("#");
    append_decimal(&mut name, sbt_nft_count.count + 1);
    sbt_nft_count.count = sbt_nft_count.count + 1;
    user_info.has_sbt_token = true;
    Ok(
        CreateNftArgs {
            name,
            symbol: String::from_str(SBT_NFT_SYMBOL),
            url: String::from_str(SBT_NFT_URL),
            is_mutable: false,
            collection_details: true,
        },
    )
}

/// Metadata of the collection of drawn lots.
pub fn draw_mint_nft() -> (a: CreateNftArgs)
    ensures
        a.name@ == LOTTERY_NFT_NAME@,
        a.symbol@ == LOTTERY_NFT_SYMBOL@,
        a.url@ == LOTTERY_NFT_URL@,
        !a.is_mutable,
        a.collection_details,
{
    CreateNftArgs {
        name: String::from_str(LOTTERY_NFT_NAME),
        symbol: String::from_str(LOTTERY_NFT_SYMBOL),
        url: String::from_str(LOTTERY_NFT_URL),
        is_mutable: false,
        collection_details: true,
    }
}

/// Metadata of the collection of wishes.
pub fn wish_mint_nft() -> (a: CreateNftArgs)
    ensures
        a.name@ == WISH_NFT_NAME@,
        a.symbol@ == WISH_NFT_SYMBOL@,
        a.url@ == WISH_NFT_URL@,
        !a.is_mutable,
        a.collection_details,
{
    CreateNftArgs {
        name: String::from_str(WISH_NFT_NAME),
        symbol: String::from_str(WISH_NFT_SYMBOL),
        url: String::from_str(WISH_NFT_URL),
        is_mutable: false,
        collection_details: true,
    }
}

/// Metadata of the collection of the amulet with code `amulet` (1 to 3,
/// else `InvalidLevel`).
pub fn amulet_mint_nft(amulet: u8) -> (r: Result<CreateNftArgs, SolJiError>)
    ensures
        (amulet < 1 || amulet > 3) ==> r == Err::<CreateNftArgs, SolJiError>(
            SolJiError::Global(GlobalError::InvalidLevel),
        ),
        1 <= amulet <= 3 ==> (r matches Ok(a) && {
            let l = if amulet == 1 {
                AmuletLevel::L1
            } else if amulet == 2 {
                AmuletLevel::L2
            } else {
                AmuletLevel::L3
            };
            &&& a.name@ == spec_amulet_name(l)
            &&& a.symbol@ == spec_amulet_symbol(l)
            &&& a.url@ == "https://solji.io/"@
            &&& !a.is_mutable
            &&& a.collection_details
        }),
{
    let level = match AmuletLevel::try_from(amulet) {
        Ok(l) => l,
        Err(e) => {
            return Err(SolJiError::Global(e));
        },
    };
    let meta = level.meta();
    Ok(
        CreateNftArgs {
            name: String::from_str(meta.name),
            symbol: String::from_str(meta.symbol),
            url: String::from_str(meta.uri),
            is_mutable: false,
            collection_details: true,
        },
    )
}

} // verus!
