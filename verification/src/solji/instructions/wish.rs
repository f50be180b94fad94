//! Making wishes, liking them and the wish tower NFT.
use vstd::prelude::*;

use crate::encoding::{spec_le_bytes, u64_le_bytes};
use crate::pubkey::Pubkey;
use crate::solji::errors::{GlobalError, SolJiError};
use crate::solji::states::nft_mint::{hit, spec_hit};
use crate::solji::states::temple::{spec_add_amulet, spec_add_wish, Temple};
use crate::solji::states::user::{
    spec_user_amulet,
    spec_wish,
    spec_wish_day_reset,
    spec_wish_fee,
    UserInfo,
    UserInfoView,
};
use crate::solji::states::wish::{
    spec_tower_for,
    spec_tower_level,
    PublishWish,
    Tower,
    WishLike,
    WISH_FEE,
};

verus! {

/// Signer, addresses and clock readings a wish uses.
#[derive(Clone, Copy, Debug)]
pub struct WishEnv {
    pub authority: Pubkey,
    /// Address of the temple account.
    pub temple_key: Pubkey,
    pub slot: u64,
    pub now_ts: i64,
}

/// What a successful wish produced beyond the account changes.
#[derive(Clone, Debug)]
pub struct WishOutcome {
    /// The wish to publish.
    pub publish_wish: PublishWish,
    /// Mint an amulet NFT (the amulet chance hit).
    pub amulet_dropped: bool,
}

/// Seeds of the amulet chance of a wish: signer, temple address, the
/// temple's wish count after the wish, and the slot.
pub open spec fn spec_wish_seeds(env: WishEnv, wish_count: u64) -> Seq<Seq<u8>> {
    seq![env.authority.bytes@, env.temple_key.bytes@, spec_le_bytes(wish_count), spec_le_bytes(env.slot)]
}

/// Outcome of a wish made with amulet `amulet` (it must be the protection
/// amulet, 2): the daily reset, the fee beyond three wishes a day, the user's
/// and the temple's wish counters, and a 0.1% amulet chance. The result is
/// whether the amulet dropped. On any error no account changes.
pub open spec fn spec_create_wish(env: WishEnv, u0: UserInfoView, t0: Temple, amulet: u8) -> (
    Result<bool, SolJiError>,
    UserInfoView,
    Temple,
) {
    let u1 = spec_wish_day_reset(u0, env.now_ts);
    let (r2, u2) = spec_wish_fee(u1, WISH_FEE as u64);
    let (r3, u3) = spec_wish(u2, env.now_ts);
    let (r4, t4) = spec_add_wish(t0);
    let dropped = spec_hit(10, spec_wish_seeds(env, t4.total_wish_count));
    let (r5, u5) = spec_user_amulet(u3);
    let (r6, t6) = spec_add_amulet(t4);
    if amulet != 2 {
        (Err(SolJiError::Global(GlobalError::InvalidAmulet)), u0, t0)
    } else if r2 is Err {
        (Err(r2->Err_0), u0, t0)
    } else if r3 is Err {
        (Err(SolJiError::Global(r3->Err_0)), u0, t0)
    } else if r4 is Err {
        (Err(SolJiError::Global(r4->Err_0)), u0, t0)
    } else if dropped && r5 is Err {
        (Err(SolJiError::Global(r5->Err_0)), u0, t0)
    } else if dropped && r6 is Err {
        (Err(SolJiError::Global(r6->Err_0)), u0, t0)
    } else if dropped {
        (Ok(true), u5, t6)
    } else {
        (Ok(false), u3, t4)
    }
}

/// Makes a wish with text `content`, anonymous or signed.
pub fn create_wish(
    env: &WishEnv,
    user_info: &mut UserInfo,
    temple: &mut Temple,
    content: String,
    is_anonymous: bool,
    amulet: u8,
) -> (r: Result<WishOutcome, SolJiError>)
    ensures
        ({
            let (res, u, t) = spec_create_wish(*env, old(user_info)@, *old(temple), amulet);
            &&& final(user_info)@ == u
            &&& *final(temple) == t
            &&& match r {
                Ok(o) => {
                    &&& res == Ok::<bool, SolJiError>(o.amulet_dropped)
                    &&& o.publish_wish.content@ == content@
                    &&& o.publish_wish.create_time == env.now_ts
                    &&& o.publish_wish.like_count == 0
                    &&& is_anonymous ==> o.publish_wish.author.bytes@ == Seq::new(32, |i: int| 0u8)
                    &&& !is_anonymous ==> o.publish_wish.author == env.authority
                },
                Err(e) => res == Err::<bool, SolJiError>(e),
            }
        }),
{
    if amulet != 2 {
        return Err(SolJiError::Global(GlobalError::InvalidAmulet));
    }
    let mut user = *user_info;
    let mut t = *temple;
    match user.check_is_free(env.now_ts) {
        Ok(()) => {},
        Err(e) => {
            return Err(SolJiError::Global(e));
        },
    }
    match user.check_wish_daily_count(WISH_FEE as u64) {
        Ok(()) => {},
        Err(e) => {
            return Err(e);
        },
    }
    match user.update_user_wish_count(env.now_ts) {
        Ok(()) => {},
        Err(e) => {
            return Err(SolJiError::Global(e));
        },
    }
    let author = if is_anonymous {
        Pubkey::default_key()
    } else {
        env.authority
    };
    let publish_wish = PublishWish::new(author, content, env.now_ts);
    proof {
        if is_anonymous {
            assert(publish_wish.author.bytes@ =~= Seq::new(32, |i: int| 0u8));
        }
    }
    match t.add_temple_wish() {
        Ok(()) => {},
        Err(e) => {
            return Err(SolJiError::Global(e));
        },
    }
    let count_le = u64_le_bytes(t.total_wish_count);
    let slot_le = u64_le_bytes(env.slot);
    let seeds: [&[u8]; 4] = [
        env.authority.bytes.as_slice(),
        env.temple_key.bytes.as_slice(),
        count_le.as_slice(),
        slot_le.as_slice(),
    ];
    let seed_slice = seeds.as_slice();
    proof {
        let sv = seed_slice.deep_view();
        assert(sv[0] =~= env.authority.bytes@);
        assert(sv[1] =~= env.temple_key.bytes@);
        assert(sv[2] =~= spec_le_bytes(t.total_wish_count));
        assert(sv[3] =~= spec_le_bytes(env.slot));
        assert(sv =~= spec_wish_seeds(*env, t.total_wish_count));
    }
    let amulet_dropped = hit(10, seed_slice);
    if amulet_dropped {
        match user.amulet_increment() {
            Ok(()) => {},
            Err(e) => {
                return Err(SolJiError::Global(e));
            },
        }
        match t.amulet_increment() {
            Ok(()) => {},
            Err(e) => {
                return Err(SolJiError::Global(e));
            },
        }
    }
    *user_info = user;
    *temple = t;
    Ok(WishOutcome { publish_wish, amulet_dropped })
}

/// What to do with the user's wish tower NFT.
#[derive(Clone, Copy, Debug, PartialEq, Eq, Structural)]
pub enum TowerAction {
    /// Nothing: the tower is at its stage already.
    Unchanged,
    /// Create the NFT: the user has none yet.
    Create,
    /// Update its metadata to the higher stage.
    Upgrade,
}

/// Result of checking the wish tower.
#[derive(Clone, Copy, Debug, PartialEq, Eq, Structural)]
pub struct TowerNftOutcome {
    pub action: TowerAction,
    /// The stage reached; its NFT metadata is `tower.get_nft_args()`.
    pub tower: Tower,
    pub previous_level: i8,
    pub new_level: i8,
}

/// The tower check on a user: the stage their wish count reached, and the
/// user afterwards (the tower level is set on creation and on a rise).
pub open spec fn spec_mint_tower(u: UserInfoView) -> (TowerNftOutcome, UserInfoView) {
    let tower = spec_tower_for(u.wish_count);
    let new_level = spec_tower_level(tower);
    let prev = u.tower_level;
    let raised = UserInfoView { tower_level: new_level, ..u };
    if prev == -1 {
        (TowerNftOutcome { action: TowerAction::Create, tower, previous_level: prev, new_level }, raised)
    } else if prev < new_level {
        (TowerNftOutcome { action: TowerAction::Upgrade, tower, previous_level: prev, new_level }, raised)
    } else {
        (TowerNftOutcome { action: TowerAction::Unchanged, tower, previous_level: prev, new_level }, u)
    }
}

/// Brings the wish tower to the stage the user's wish count reached: creates
/// it on the first call, upgrades it when the stage rose.
pub fn mint_tower_nft(user_info: &mut UserInfo) -> (o: TowerNftOutcome)
    ensures
        (o, final(user_info)@) == spec_mint_tower(old(user_info)@),
{
    let previous_level = user_info.tower_level;
    let wish_count = user_info.wish_count;
    let tower = Tower::get_tower(&wish_count);
    let new_level = tower.get_level();
    let action = if previous_level == -1 {
        user_info.tower_level = new_level;
        TowerAction::Create
    } else if previous_level < new_level {
        user_info.tower_level = new_level;
        TowerAction::Upgrade
    } else {
        TowerAction::Unchanged
    };
    TowerNftOutcome { action, tower, previous_level, new_level }
}

/// Likes the wish at `wish_key` on behalf of `authority`.
pub fn create_like(authority: Pubkey, wish_key: Pubkey, publish_wish: &mut PublishWish) -> (l:
    WishLike)
    requires
        old(publish_wish).like_count < u64::MAX,
    ensures
        final(publish_wish).like_count == old(publish_wish).like_count + 1,
        final(publish_wish).content@ == old(publish_wish).content@,
        final(publish_wish).author == old(publish_wish).author,
        final(publish_wish).create_time == old(publish_wish).create_time,
        l.like_pubkey == authority,
        l.with_pubkey == wish_key,
{
    publish_wish.like_count = publish_wish.like_count + 1;
    WishLike::new(authority, wish_key)
}

} // verus!
