//! Switchboard on-demand randomness accounts, read as plain values.
use vstd::prelude::*;

use crate::solji::states::nft_mint::le_value;

verus! {

/// What the lot logic reads from a randomness account.
#[derive(Clone, Copy, Debug)]
pub struct RandomnessReading {
    /// Slot whose hash seeds the randomness.
    pub seed_slot: u64,
    /// Slot at which the value was revealed.
    pub reveal_slot: u64,
    /// The revealed random value.
    pub value: [u8; 32],
}

/// Whether `data` starts with the account discriminator of randomness
/// accounts and is long enough to hold one.
pub open spec fn is_randomness_layout(data: Seq<u8>) -> bool {
    &&& data.len() >= 408
    &&& data.subrange(0, 8) == seq![10u8, 66u8, 229u8, 135u8, 220u8, 239u8, 217u8, 114u8]
}

/// `RandomnessAccountData::parse` of switchboard-on-demand, on a copy of the
/// account data. The source checks the 8-byte discriminator and the length
/// (8 + 400 bytes), then the alignment of the 400 bytes after the
/// discriminator (8, for the `u64` fields), and reinterprets them in
/// `repr(C)` layout: the seed slot, reveal slot and value are read
/// little-endian at offsets 104, 144 and 152. The copy is made into a
/// buffer of `u64` words, so it is 8-aligned and the alignment check always
/// passes: the account parses exactly when it is well-formed.
#[verifier::external_body]
pub(crate) fn parse_randomness_account(data: &[u8]) -> (r: Option<RandomnessReading>)
    ensures
        is_randomness_layout(data@) <==> r is Some,
        r matches Some(x) ==> {
            &&& x.seed_slot as nat == le_value(data@.subrange(104, 112))
            &&& x.reveal_slot as nat == le_value(data@.subrange(144, 152))
            &&& x.value@ == data@.subrange(152, 184)
        },
{
    let mut words = vec![0u64; data.len()];
    let bytes: &mut [u8] = anchor_lang::__private::bytemuck::cast_slice_mut(&mut words);
    let copy = &mut bytes[..data.len()];
    copy.copy_from_slice(data);
    let cell = std::cell::RefCell::new(copy);
    let parsed = switchboard_on_demand::RandomnessAccountData::parse(cell.borrow());
    match parsed {
        Ok(d) => Some(RandomnessReading { seed_slot: d.seed_slot, reveal_slot: d.reveal_slot, value: d.value }),
        Err(_) => None,
    }
}

/// `get_value` of a randomness account: the value, when `clock_slot` is the
/// reveal slot.
pub fn randomness_value(reading: &RandomnessReading, clock_slot: u64) -> (r: Option<[u8; 32]>)
    ensures
        clock_slot == reading.reveal_slot ==> r == Some(reading.value),
        clock_slot != reading.reveal_slot ==> r is None,
{
    if clock_slot != reading.reveal_slot {
        None
    } else {
        Some(reading.value)
    }
}

} // verus!
