//! Creating the temple and withdrawing from its balance.
use vstd::prelude::*;

use crate::pubkey::Pubkey;
use crate::solji::errors::{SolJiError, WithdrawCode};
use crate::solji::states::temple::{spec_new_temple, Temple};

verus! {

/// The temple created by `authority`, who becomes its admin.
pub fn create_temple(authority: Pubkey) -> (t: Temple)
    ensures
        t == spec_new_temple(authority),
{
    Temple::new(authority)
}

/// Outcome of withdrawing `lamports` from a temple account holding
/// `temple_lamports`, of which `min_rent` must stay for rent exemption: the
/// balance left after the transfer.
pub open spec fn spec_withdraw(lamports: u64, temple_lamports: u64, min_rent: u64) -> Result<
    u64,
    SolJiError,
> {
    if lamports == 0 {
        Err(SolJiError::Withdraw(WithdrawCode::AmountMustBeGreaterThanZero))
    } else if temple_lamports <= min_rent {
        Err(SolJiError::Withdraw(WithdrawCode::AmountMustBeLessThanTempleBalance))
    } else if lamports > temple_lamports - min_rent {
        Err(SolJiError::Withdraw(WithdrawCode::AmountMustBeLessThanTempleBalance))
    } else {
        Ok((temple_lamports - lamports) as u64)
    }
}

/// Checks a withdrawal of `lamports` from the temple's balance
/// `temple_lamports`, keeping the rent-exempt minimum `min_rent`; returns the
/// balance left after the transfer.
pub fn withdraw(lamports: u64, temple_lamports: u64, min_rent: u64) -> (r: Result<u64, SolJiError>)
    ensures
        r == spec_withdraw(lamports, temple_lamports, min_rent),
        r matches Ok(left) ==> left >= min_rent && left + lamports == temple_lamports,
{
    if lamports == 0 {
        return Err(SolJiError::Withdraw(WithdrawCode::AmountMustBeGreaterThanZero));
    }
    if temple_lamports <= min_rent {
        return Err(SolJiError::Withdraw(WithdrawCode::AmountMustBeLessThanTempleBalance));
    }
    let available = temple_lamports - min_rent;
    if lamports > available {
        return Err(SolJiError::Withdraw(WithdrawCode::AmountMustBeLessThanTempleBalance));
    }
    Ok(temple_lamports - lamports)
}

} // verus!
