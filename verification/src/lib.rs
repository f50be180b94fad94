//! Verified core of the SolJi temple programs: account state, reward
//! tables and the decision logic of every instruction.
use vstd::prelude::*;

pub mod encoding;
pub mod pubkey;
pub mod solji;
pub mod temple;

pub use pubkey::Pubkey;

verus! {

} // verus!
