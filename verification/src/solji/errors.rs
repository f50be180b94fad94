//! Error codes of the `sol_ji` program.
use vstd::prelude::*;

verus! {

/// Errors shared by all instructions.
#[derive(Clone, Copy, Debug, PartialEq, Eq, Structural)]
pub enum GlobalError {
    MathOverflow,
    MathUnderflow,
    InvalidAccount,
    InvalidIncenseType,
    NonAdministrator,
    InvalidLevel,
    InvalidArgs,
    InvalidAmulet,
    NoNFTToStake,
    NotNFTOwner,
    CantUnstakeYet,
    UnstakeNotRequest,
    UnstakeTooSoon,
    UnstakeRequestStatusError,
    UnstackConfirmStatusError,
}

/// The message attached to each code.
pub open spec fn spec_global_error_message(e: GlobalError) -> Seq<char> {
    match e {
        GlobalError::MathOverflow => "Arithmetic overflow"@,
        GlobalError::MathUnderflow => "Arithmetic underflow"@,
        GlobalError::InvalidAccount => "Invalid account"@,
        GlobalError::InvalidIncenseType => "Invalid incense type"@,
        GlobalError::NonAdministrator => "Not an administrator"@,
        GlobalError::InvalidLevel => "Invalid level"@,
        GlobalError::InvalidArgs => "Invalid args"@,
        GlobalError::InvalidAmulet => "Invalid Amulet"@,
        GlobalError::NoNFTToStake => "No NFT Stake"@,
        GlobalError::NotNFTOwner => "Not NFT Owner"@,
        GlobalError::CantUnstakeYet => "Cant Unstake Yet"@,
        GlobalError::UnstakeNotRequest => "Unstake Not Request"@,
        GlobalError::UnstakeTooSoon => "Unstake Too Soon"@,
        GlobalError::UnstakeRequestStatusError => "Unstake Requse Status Error"@,
        GlobalError::UnstackConfirmStatusError => "Unstake Confirm Status Error"@,
    }
}

impl GlobalError {
    /// The message attached to each code.
    pub fn msg(&self) -> (s: &'static str)
        ensures
            s@ == spec_global_error_message(*self),
    {
        match self {
            GlobalError::MathOverflow => "Arithmetic overflow",
            GlobalError::MathUnderflow => "Arithmetic underflow",
            GlobalError::InvalidAccount => "Invalid account",
            GlobalError::InvalidIncenseType => "Invalid incense type",
            GlobalError::NonAdministrator => "Not an administrator",
            GlobalError::InvalidLevel => "Invalid level",
            GlobalError::InvalidArgs => "Invalid args",
            GlobalError::InvalidAmulet => "Invalid Amulet",
            GlobalError::NoNFTToStake => "No NFT Stake",
            GlobalError::NotNFTOwner => "Not NFT Owner",
            GlobalError::CantUnstakeYet => "Cant Unstake Yet",
            GlobalError::UnstakeNotRequest => "Unstake Not Request",
            GlobalError::UnstakeTooSoon => "Unstake Too Soon",
            GlobalError::UnstakeRequestStatusError => "Unstake Requse Status Error",
            GlobalError::UnstackConfirmStatusError => "Unstake Confirm Status Error",
        }
    }
}

/// Errors of the donation instructions.
#[derive(Clone, Copy, Debug, PartialEq, Eq, Structural)]
pub enum DonateError {
    InvalidDonateAmount,
    InsufficientLamports,
}

/// Errors of the lot-drawing instructions.
#[derive(Clone, Copy, Debug, PartialEq, Eq, Structural)]
pub enum DrawLotsCode {
    Insufficient,
    AlreadySettled,
    RandomnessExpired,
    InvalidRandomnessAccount,
    RandomnessAlreadyRevealed,
    RandomnessNotResolved,
    Unauthorized,
}

/// Errors of the incense instructions.
#[derive(Clone, Copy, Debug, PartialEq, Eq, Structural)]
pub enum BurnCode {
    BurningIncenseFailed,
    TooManyBurns,
    InvalidIncenseType,
    InvalidAmount,
    InvalidNumber,
    BurnNotBuy,
}

/// Errors of the incense-rule administration.
#[derive(Clone, Copy, Debug, PartialEq, Eq, Structural)]
pub enum ErrorCode {
    NonAdministrator,
}

/// Errors of the temple withdrawal.
#[derive(Clone, Copy, Debug, PartialEq, Eq, Structural)]
pub enum WithdrawCode {
    AmountMustBeGreaterThanZero,
    AmountMustBeLessThanTempleBalance,
}

/// Errors of the wish instructions.
#[derive(Clone, Copy, Debug, PartialEq, Eq, Structural)]
pub enum WishCode {
    Insufficient,
    InvalidValue,
}

/// Errors of the NFT minting instructions.
#[derive(Clone, Copy, Debug, PartialEq, Eq, Structural)]
pub enum NftErrorCode {
    NftCountOver,
    HasSbtToken,
    DonateAmountNotEnough,
}

/// Any error an instruction of the program can end with.
#[derive(Clone, Copy, Debug, PartialEq, Eq, Structural)]
pub enum SolJiError {
    Global(GlobalError),
    Donate(DonateError),
    DrawLots(DrawLotsCode),
    Burn(BurnCode),
    Admin(ErrorCode),
    Withdraw(WithdrawCode),
    Wish(WishCode),
    Nft(NftErrorCode),
}

} // verus!
