//! Incense kinds and the price/reward rule of each kind.
use vstd::prelude::*;

use crate::pubkey::Pubkey;

verus! {

/// Number of incense kinds.
pub const INCENSE_KINDS: usize = 6;

/// The six incense kinds; `index` gives the slot of each in per-kind tables.
#[derive(Clone, Copy, Debug, PartialEq, Eq, Structural)]
pub enum IncenseType {
    ClearIncense,
    Sandalwood,
    AmbergrisIncense,
    SupremeSpiritIncense,
    SecretBrewIncense,
    CelestialIncense,
}

/// Slot of each incense kind in per-kind tables.
pub open spec fn spec_incense_index(t: IncenseType) -> int {
    match t {
        IncenseType::ClearIncense => 0,
        IncenseType::Sandalwood => 1,
        IncenseType::AmbergrisIncense => 2,
        IncenseType::SupremeSpiritIncense => 3,
        IncenseType::SecretBrewIncense => 4,
        IncenseType::CelestialIncense => 5,
    }
}

/// The incense kind with code `code`, if any.
pub open spec fn spec_incense_from_code(code: u8) -> Option<IncenseType> {
    if code == 0 {
        Some(IncenseType::ClearIncense)
    } else if code == 1 {
        Some(IncenseType::Sandalwood)
    } else if code == 2 {
        Some(IncenseType::AmbergrisIncense)
    } else if code == 3 {
        Some(IncenseType::SupremeSpiritIncense)
    } else if code == 4 {
        Some(IncenseType::SecretBrewIncense)
    } else if code == 5 {
        Some(IncenseType::CelestialIncense)
    } else {
        None
    }
}

impl IncenseType {
    /// Slot of this kind in per-kind tables (its code).
    pub fn index(&self) -> (i: usize)
        ensures
            i == spec_incense_index(*self),
            i < INCENSE_KINDS,
    {
        match self {
            IncenseType::ClearIncense => 0,
            IncenseType::Sandalwood => 1,
            IncenseType::AmbergrisIncense => 2,
            IncenseType::SupremeSpiritIncense => 3,
            IncenseType::SecretBrewIncense => 4,
            IncenseType::CelestialIncense => 5,
        }
    }

    /// The kind with code `incense_type` (0 to 5), `None` for any other code.
    pub fn get_incense_type(incense_type: u8) -> (r: Option<IncenseType>)
        ensures
            r == spec_incense_from_code(incense_type),
            r is Some <==> incense_type < 6,
            r matches Some(t) ==> spec_incense_index(t) == incense_type,
    {
        match incense_type {
            0 => Some(IncenseType::ClearIncense),
            1 => Some(IncenseType::Sandalwood),
            2 => Some(IncenseType::AmbergrisIncense),
            3 => Some(IncenseType::SupremeSpiritIncense),
            4 => Some(IncenseType::SecretBrewIncense),
            5 => Some(IncenseType::CelestialIncense),
            _ => None,
        }
    }

    /// Name of the commemorative NFT of this kind.
    pub fn get_nft_name(&self) -> (s: String)
        ensures
            s@ == spec_incense_nft_name(*self),
    {
        match self {
            IncenseType::ClearIncense => String::from_str("Merit Incense NFT: Pure"),
            IncenseType::Sandalwood => String::from_str("Merit Incense NFT: Orange"),
            IncenseType::SupremeSpiritIncense => String::from_str("Merit Incense NFT: Lingxiang"),
            IncenseType::AmbergrisIncense => String::from_str("Merit Incense NFT: Ambergris"),
            IncenseType::SecretBrewIncense => String::from_str("Merit Incense NFT: Secret Blend"),
            IncenseType::CelestialIncense => String::from_str("Merit Incense NFT: Celestial"),
        }
    }

    /// Symbol of the commemorative NFT of this kind.
    pub fn get_symbol(&self) -> (s: String)
        ensures
            s@ == spec_incense_symbol(*self),
    {
        match self {
            IncenseType::ClearIncense => String::from_str("PURE"),
            IncenseType::Sandalwood => String::from_str("ORANGE"),
            IncenseType::SupremeSpiritIncense => String::from_str("LINGXIANG"),
            IncenseType::AmbergrisIncense => String::from_str("AMBERGRIS"),
            IncenseType::SecretBrewIncense => String::from_str("SECRET"),
            IncenseType::CelestialIncense => String::from_str("CELESTIAL"),
        }
    }

    /// Metadata URI of the commemorative NFT of this kind.
    pub fn get_nft_uri(&self) -> (s: String)
        ensures
            s@ == spec_incense_nft_uri(*self),
    {
        match self {
            IncenseType::ClearIncense => String::from_str("https://example/faintscent.json"),
            IncenseType::Sandalwood => String::from_str("https://example/orangeincense.json"),
            IncenseType::SupremeSpiritIncense => String::from_str("https://example/lingxiang.json"),
            IncenseType::AmbergrisIncense => String::from_str("https://example/ambergris.json"),
            IncenseType::SecretBrewIncense => String::from_str(
                "https://example/secretincense.json",
            ),
            IncenseType::CelestialIncense => String::from_str(
                "https://example/celestialincense.json",
            ),
        }
    }
}

pub open spec fn spec_incense_nft_name(t: IncenseType) -> Seq<char> {
    match t {
        IncenseType::ClearIncense => "Merit Incense NFT: Pure"@,
        IncenseType::Sandalwood => "Merit Incense NFT: Orange"@,
        IncenseType::SupremeSpiritIncense => "Merit Incense NFT: Lingxiang"@,
        IncenseType::AmbergrisIncense => "Merit Incense NFT: Ambergris"@,
        IncenseType::SecretBrewIncense => "Merit Incense NFT: Secret Blend"@,
        IncenseType::CelestialIncense => "Merit Incense NFT: Celestial"@,
    }
}

pub open spec fn spec_incense_symbol(t: IncenseType) -> Seq<char> {
    match t {
        IncenseType::ClearIncense => "PURE"@,
        IncenseType::Sandalwood => "ORANGE"@,
        IncenseType::SupremeSpiritIncense => "LINGXIANG"@,
        IncenseType::AmbergrisIncense => "AMBERGRIS"@,
        IncenseType::SecretBrewIncense => "SECRET"@,
        IncenseType::CelestialIncense => "CELESTIAL"@,
    }
}

pub open spec fn spec_incense_nft_uri(t: IncenseType) -> Seq<char> {
    match t {
        IncenseType::ClearIncense => "https://example/faintscent.json"@,
        IncenseType::Sandalwood => "https://example/orangeincense.json"@,
        IncenseType::SupremeSpiritIncense => "https://example/lingxiang.json"@,
        IncenseType::AmbergrisIncense => "https://example/ambergris.json"@,
        IncenseType::SecretBrewIncense => "https://example/secretincense.json"@,
        IncenseType::CelestialIncense => "https://example/celestialincense.json"@,
    }
}

/// Price and rewards of one incense kind.
#[derive(Clone, Copy, Debug, PartialEq, Eq, Structural)]
pub struct IncenseRule {
    /// Price of one stick, in lamports.
    pub incense_price: u64,
    /// Merit a burn of one stick earns.
    pub merit_value: u64,
    /// Incense value a burn of one stick adds.
    pub incense_value: u64,
}

impl IncenseRule {
    pub fn new(incense_price: u64, merit_value: u64, incense_value: u64) -> (r: IncenseRule)
        ensures
            r == (IncenseRule { incense_price, merit_value, incense_value }),
    {
        IncenseRule { incense_price, merit_value, incense_value }
    }
}

/// The rule table: one rule per incense kind, and the admin who may change it.
#[derive(Clone, Copy, Debug)]
pub struct IncenseRulesConfig {
    pub admin: Pubkey,
    pub rules: [IncenseRule; 6],
}

impl IncenseRulesConfig {
    pub fn new(admin: Pubkey, rules: [IncenseRule; 6]) -> (c: IncenseRulesConfig)
        ensures
            c.admin == admin,
            c.rules@ == rules@,
    {
        IncenseRulesConfig { admin, rules }
    }

    /// Replaces the rule of one kind; the other rules and the admin stay.
    pub fn update_rule(&mut self, incense_type: IncenseType, rule: IncenseRule)
        ensures
            final(self).admin == old(self).admin,
            final(self).rules@ == old(self).rules@.update(spec_incense_index(incense_type), rule),
    {
        let i = incense_type.index();
        self.rules[i] = rule;
    }

    /// The rule of one kind.
    pub fn get_rule(&self, incense_type: IncenseType) -> (r: IncenseRule)
        ensures
            r == self.rules@[spec_incense_index(incense_type)],
    {
        self.rules[incense_type.index()]
    }
}

/// Arguments naming an incense kind by code.
#[derive(Clone, Copy, Debug)]
pub struct IncenseBurnArgs {
    pub incense_type: u8,
}

} // verus!
