//! Wishes: the per-user wish counter, published wishes, likes and the wish
//! tower levels.
use vstd::prelude::*;

use crate::pubkey::Pubkey;
use crate::solji::errors::GlobalError;
use crate::solji::states::nft_mint::CreateNftArgs;

verus! {

/// Per-user wish counter.
#[derive(Clone, Copy, Debug)]
pub struct WishUser {
    pub user: Pubkey,
    pub total_count: u8,
    pub update_time: i64,
    pub daily_count: u8,
}

/// Merit a wish costs beyond the free wishes of the day.
pub const WISH_FEE: u8 = 5;

pub const WISH_NFT_NAME: &'static str = "Ema NFT";

pub const WISH_NFT_SYMBOL: &'static str = "Ema";

pub const WISH_NFT_URL: &'static str = "https://solji.io/";

/// Outcome of counting a wish made at `now_ts`.
pub open spec fn spec_count_wish(w: WishUser, now_ts: i64) -> (Result<(), GlobalError>, WishUser) {
    if w.total_count == u8::MAX {
        (Err(GlobalError::MathOverflow), w)
    } else if w.daily_count == u8::MAX {
        (Err(GlobalError::MathOverflow), WishUser { total_count: (w.total_count + 1) as u8, ..w })
    } else {
        (
            Ok(()),
            WishUser {
                total_count: (w.total_count + 1) as u8,
                daily_count: (w.daily_count + 1) as u8,
                update_time: now_ts,
                ..w
            },
        )
    }
}

impl WishUser {
    /// A counter for `user` created at `now_ts`.
    pub fn new(user: Pubkey, now_ts: i64) -> (w: WishUser)
        ensures
            w == (WishUser { user, total_count: 0, update_time: now_ts, daily_count: 0 }),
    {
        WishUser { total_count: 0, update_time: now_ts, daily_count: 0, user }
    }

    /// Counts a wish made at `now_ts`.
    pub fn update_user_wish_count(&mut self, now_ts: i64) -> (r: Result<(), GlobalError>)
        ensures
            (r, *final(self)) == spec_count_wish(*old(self), now_ts),
    {
        match self.total_count.checked_add(1) {
            Some(n) => {
                self.total_count = n;
            },
            None => {
                return Err(GlobalError::MathOverflow);
            },
        }
        match self.daily_count.checked_add(1) {
            Some(n) => {
                self.daily_count = n;
            },
            None => {
                return Err(GlobalError::MathOverflow);
            },
        }
        self.update_time = now_ts;
        Ok(())
    }
}

/// A published wish.
#[derive(Clone, Debug)]
pub struct PublishWish {
    pub content: String,
    /// The author; the all-zero address for anonymous wishes.
    pub author: Pubkey,
    pub create_time: i64,
    pub like_count: u64,
}

impl PublishWish {
    /// A wish by `author` published at `now_ts`, with no likes.
    pub fn new(author: Pubkey, content: String, now_ts: i64) -> (w: PublishWish)
        ensures
            w.content@ == content@,
            w.author == author,
            w.create_time == now_ts,
            w.like_count == 0,
    {
        PublishWish { content, author, create_time: now_ts, like_count: 0 }
    }
}

/// One like of a wish.
#[derive(Clone, Copy, Debug)]
pub struct WishLike {
    pub like_pubkey: Pubkey,
    pub with_pubkey: Pubkey,
}

impl WishLike {
    pub fn new(like_pubkey: Pubkey, with_pubkey: Pubkey) -> (l: WishLike)
        ensures
            l.like_pubkey == like_pubkey,
            l.with_pubkey == with_pubkey,
    {
        WishLike { like_pubkey, with_pubkey }
    }
}

/// The five wish tower stages.
#[derive(Clone, Copy, Debug, PartialEq, Eq, Structural)]
pub enum Tower {
    SeedTower,
    BasicTower,
    AdvancedTower,
    GrandWishTower,
    PerfectionTower,
}

/// Tower stage reached with `wish_count` wishes.
pub open spec fn spec_tower_for(wish_count: u32) -> Tower {
    if wish_count <= 9 {
        Tower::SeedTower
    } else if wish_count <= 49 {
        Tower::BasicTower
    } else if wish_count <= 199 {
        Tower::AdvancedTower
    } else if wish_count <= 499 {
        Tower::GrandWishTower
    } else {
        Tower::PerfectionTower
    }
}

/// Level number of each tower stage, 0 to 4.
pub open spec fn spec_tower_level(t: Tower) -> i8 {
    match t {
        Tower::SeedTower => 0,
        Tower::BasicTower => 1,
        Tower::AdvancedTower => 2,
        Tower::GrandWishTower => 3,
        Tower::PerfectionTower => 4,
    }
}

pub open spec fn spec_tower_name(t: Tower) -> Seq<char> {
    match t {
        Tower::SeedTower => "Seed Tower"@,
        Tower::BasicTower => "Basic Tower"@,
        Tower::AdvancedTower => "Advanced Tower"@,
        Tower::GrandWishTower => "Grand Wish Tower"@,
        Tower::PerfectionTower => "Perfection Tower"@,
    }
}

pub open spec fn spec_tower_symbol(t: Tower) -> Seq<char> {
    match t {
        Tower::SeedTower => "Seed"@,
        Tower::BasicTower => "Basic"@,
        Tower::AdvancedTower => "Advanced"@,
        Tower::GrandWishTower => "Grand"@,
        Tower::PerfectionTower => "Perfection"@,
    }
}

impl Tower {
    /// Tower stage reached with `wish_count` wishes.
    pub fn get_tower(wish_count: &u32) -> (t: Tower)
        ensures
            t == spec_tower_for(*wish_count),
    {
        if *wish_count <= 9 {
            Tower::SeedTower
        } else if *wish_count <= 49 {
            Tower::BasicTower
        } else if *wish_count <= 199 {
            Tower::AdvancedTower
        } else if *wish_count <= 499 {
            Tower::GrandWishTower
        } else {
            Tower::PerfectionTower
        }
    }

    /// Level number of the stage.
    pub fn get_level(&self) -> (l: i8)
        ensures
            l == spec_tower_level(*self),
    {
        match self {
            Tower::SeedTower => 0,
            Tower::BasicTower => 1,
            Tower::AdvancedTower => 2,
            Tower::GrandWishTower => 3,
            _ => 4,
        }
    }

    /// Metadata of the tower NFT at this stage.
    pub fn get_nft_args(&self) -> (a: CreateNftArgs)
        ensures
            a.name@ == spec_tower_name(*self),
            a.symbol@ == spec_tower_symbol(*self),
            a.url@ == "https://solji.io/"@,
            a.is_mutable,
            a.collection_details,
    {
        let (name, symbol) = match self {
            Tower::SeedTower => ("Seed Tower", "Seed"),
            Tower::BasicTower => ("Basic Tower", "Basic"),
            Tower::AdvancedTower => ("Advanced Tower", "Advanced"),
            Tower::GrandWishTower => ("Grand Wish Tower", "Grand"),
            Tower::PerfectionTower => ("Perfection Tower", "Perfection"),
        };
        CreateNftArgs {
            name: String::from_str(name),
            symbol: String::from_str(symbol),
            url: String::from_str("https://solji.io/"),
            is_mutable: true,
            collection_details: true,
        }
    }
}

} // verus!
