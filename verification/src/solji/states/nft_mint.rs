//! NFT metadata arguments, amulet kinds and the seeded chance draws.
use vstd::prelude::*;
use vstd::arithmetic::power::pow;

use crate::solji::errors::GlobalError;

verus! {

/// Metadata of an NFT to create.
#[derive(Clone, Debug)]
pub struct CreateNftArgs {
    pub name: String,
    pub symbol: String,
    pub url: String,
    pub is_mutable: bool,
    pub collection_details: bool,
}

pub const SBT_NFT_NAME: &'static str = "Buddha Statue NFT";

pub const SBT_NFT_SYMBOL: &'static str = "SBT";

pub const SBT_NFT_URL: &'static str = "https://solji.io/";

/// Number of soul-bound Buddha statue NFTs minted so far.
#[derive(Clone, Copy, Debug)]
pub struct SbtNftCount {
    pub count: u64,
}

impl SbtNftCount {
    /// Counts one minted NFT.
    pub fn increment(&mut self) -> (r: Result<(), GlobalError>)
        ensures
            old(self).count == u64::MAX ==> r == Err::<(), GlobalError>(GlobalError::MathOverflow)
                && final(self).count == old(self).count,
            old(self).count < u64::MAX ==> r is Ok && final(self).count == old(self).count + 1,
    {
        match self.count.checked_add(1) {
            Some(n) => {
                self.count = n;
                Ok(())
            },
            None => Err(GlobalError::MathOverflow),
        }
    }
}

/// The three amulet kinds, coded 1 to 3.
#[derive(Clone, Copy, Debug, PartialEq, Eq, Structural)]
pub enum AmuletLevel {
    L1,
    L2,
    L3,
}

/// Static metadata of an amulet NFT.
#[derive(Clone, Copy, Debug)]
pub struct Meta {
    pub name: &'static str,
    pub symbol: &'static str,
    pub uri: &'static str,
}

pub open spec fn spec_amulet_name(a: AmuletLevel) -> Seq<char> {
    match a {
        AmuletLevel::L1 => "FortuneOmikuji "@,
        AmuletLevel::L2 => "ProtectionOmikuji  "@,
        AmuletLevel::L3 => "MeritOmikuji  "@,
    }
}

pub open spec fn spec_amulet_symbol(a: AmuletLevel) -> Seq<char> {
    match a {
        AmuletLevel::L1 => "Fortune"@,
        AmuletLevel::L2 => "Protec "@,
        AmuletLevel::L3 => "Merit"@,
    }
}

impl AmuletLevel {
    /// The amulet kind with code `v` (1 to 3); any other code is an invalid
    /// level.
    pub fn try_from(v: u8) -> (r: Result<AmuletLevel, GlobalError>)
        ensures
            v == 1 ==> r == Ok::<AmuletLevel, GlobalError>(AmuletLevel::L1),
            v == 2 ==> r == Ok::<AmuletLevel, GlobalError>(AmuletLevel::L2),
            v == 3 ==> r == Ok::<AmuletLevel, GlobalError>(AmuletLevel::L3),
            (v < 1 || v > 3) ==> r == Err::<AmuletLevel, GlobalError>(GlobalError::InvalidLevel),
    {
        match v {
            1 => Ok(AmuletLevel::L1),
            2 => Ok(AmuletLevel::L2),
            3 => Ok(AmuletLevel::L3),
            _ => Err(GlobalError::InvalidLevel),
        }
    }

    /// Metadata of the amulet NFT of this kind.
    pub fn meta(self) -> (m: Meta)
        ensures
            m.name@ == spec_amulet_name(self),
            m.symbol@ == spec_amulet_symbol(self),
            m.uri@ == "https://solji.io/"@,
    {
        match self {
            AmuletLevel::L1 => Meta {
                name: "FortuneOmikuji ",
                symbol: "Fortune",
                uri: "https://solji.io/",
            },
            AmuletLevel::L2 => Meta {
                name: "ProtectionOmikuji  ",
                symbol: "Protec ",
                uri: "https://solji.io/",
            },
            AmuletLevel::L3 => Meta {
                name: "MeritOmikuji  ",
                symbol: "Merit",
                uri: "https://solji.io/",
            },
        }
    }
}

/// Basis-point denominator of chance draws.
pub const DENOM_BP: u32 = 10_000;

/// Keccak-256 digest of a byte string.
pub uninterp spec fn keccak256(data: Seq<u8>) -> Seq<u8>;

/// The seed parts joined into one byte string.
pub open spec fn concat_seeds(seeds: Seq<Seq<u8>>) -> Seq<u8>
    decreases seeds.len(),
{
    if seeds.len() == 0 {
        Seq::empty()
    } else {
        concat_seeds(seeds.drop_last()) + seeds.last()
    }
}

/// `anchor_lang::solana_program::keccak::hashv` (from `solana-keccak-hasher`),
/// believed to return the 32-byte Keccak-256 digest of the seed parts fed to
/// the hasher in order, that is, of their concatenation. The digest itself
/// is named, not computed: `keccak256`.
#[verifier::external_body]
fn keccak_hashv(seeds: &[&[u8]]) -> (h: [u8; 32])
    ensures
        h@ == keccak256(concat_seeds(seeds.deep_view())),
{
    #[allow(deprecated)]
    anchor_lang::solana_program::keccak::hashv(seeds).to_bytes()
}

/// Little-endian value of a byte string.
pub open spec fn le_value(bytes: Seq<u8>) -> nat
    decreases bytes.len(),
{
    if bytes.len() == 0 {
        0
    } else {
        bytes[0] as nat + 256 * le_value(bytes.drop_first())
    }
}

/// A little-endian value of `n` bytes is below 256 to the `n`.
pub proof fn lemma_le_value_bound(bytes: Seq<u8>)
    ensures
        le_value(bytes) < pow(256, bytes.len()),
    decreases bytes.len(),
{
    reveal(pow);
    if bytes.len() > 0 {
        lemma_le_value_bound(bytes.drop_first());
        let rest = le_value(bytes.drop_first());
        let p = pow(256, (bytes.len() - 1) as nat);
        assert(bytes[0] as nat + 256 * rest < 256 * p) by (nonlinear_arith)
            requires
                rest < p,
                bytes[0] < 256,
        ;
    }
}

/// 256 to the 16th is 2 to the 128th.
proof fn lemma_pow_256_16()
    ensures
        pow(256, 16) == 0x1_0000_0000_0000_0000_0000_0000_0000_0000,
{
    reveal(pow);
    assert(pow(256, 0) == 1);
    assert(pow(256, 1) == 256);
    assert(pow(256, 2) == 65536);
    assert(pow(256, 3) == 16777216);
    assert(pow(256, 4) == 4294967296);
    assert(pow(256, 5) == 1099511627776);
    assert(pow(256, 6) == 281474976710656);
    assert(pow(256, 7) == 72057594037927936);
    assert(pow(256, 8) == 18446744073709551616);
    assert(pow(256, 9) == 4722366482869645213696);
    assert(pow(256, 10) == 1208925819614629174706176);
    assert(pow(256, 11) == 309485009821345068724781056);
    assert(pow(256, 12) == 79228162514264337593543950336);
    assert(pow(256, 13) == 20282409603651670423947251286016);
    assert(pow(256, 14) == 5192296858534827628530496329220096);
    assert(pow(256, 15) == 1329227995784915872903807060280344576);
    assert(pow(256, 16) == 340282366920938463463374607431768211456);
}

/// A 128-bit number drawn from seeds: the first 16 bytes of their Keccak-256
/// digest, little-endian.
pub open spec fn spec_rng_u128(seeds: Seq<Seq<u8>>) -> nat {
    le_value(keccak256(concat_seeds(seeds)).subrange(0, 16))
}

/// Draws a 128-bit number from `seeds`.
pub fn rng_u128(seeds: &[&[u8]]) -> (r: u128)
    ensures
        r == spec_rng_u128(seeds.deep_view()),
{
    let h = keccak_hashv(seeds);
    let ghost bytes = h@.subrange(0, 16);
    let mut r: u128 = 0;
    let mut i: usize = 16;
    proof {
        assert(h@.subrange(16, 16) =~= Seq::<u8>::empty());
        lemma_pow_256_16();
    }
    while i > 0
        invariant
            0 <= i <= 16,
            h@.len() == 32,
            r == le_value(h@.subrange(i as int, 16)),
            pow(256, 16) == 0x1_0000_0000_0000_0000_0000_0000_0000_0000,
        decreases i,
    {
        i = i - 1;
        let ghost tail = h@.subrange(i as int, 16);
        proof {
            assert(tail.drop_first() =~= h@.subrange(i + 1, 16));
            assert(tail[0] == h@[i as int]);
            lemma_le_value_bound(tail);
            vstd::arithmetic::power::lemma_pow_increases(256, tail.len(), 16);
        }
        r = r * 256 + (h[i] as u128);
    }
    proof {
        assert(h@.subrange(0, 16) =~= bytes);
    }
    r
}

/// A basis-point draw, below 10 000, from `seeds`.
pub open spec fn spec_rand_bp(seeds: Seq<Seq<u8>>) -> nat {
    spec_rng_u128(seeds) % 10_000
}

/// Draws a number of basis points (below 10 000) from `seeds`.
pub fn rand_bp(seeds: &[&[u8]]) -> (r: u32)
    ensures
        r == spec_rand_bp(seeds.deep_view()),
        r < DENOM_BP,
{
    (rng_u128(seeds) % (DENOM_BP as u128)) as u32
}

/// Whether a chance of `prob_bp` basis points hits for `seeds`.
pub open spec fn spec_hit(prob_bp: u32, seeds: Seq<Seq<u8>>) -> bool {
    spec_rand_bp(seeds) < prob_bp
}

/// Whether a chance of `prob_bp` basis points (out of 10 000) hits for `seeds`.
pub fn hit(prob_bp: u32, seeds: &[&[u8]]) -> (r: bool)
    ensures
        r == spec_hit(prob_bp, seeds.deep_view()),
{
    rand_bp(seeds) < prob_bp
}

} // verus!
