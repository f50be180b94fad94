//! Errors of the `temple` program.
use vstd::prelude::*;

verus! {

/// Errors of the temple program's own error table.
#[derive(Clone, Copy, Debug, PartialEq, Eq, Structural)]
pub enum ErrorCode {
    InvalidOwner,
    MathOverflow,
    InvalidIncenseId,
    InsufficientSolBalance,
    InvalidTempleTreasury,
    DailyIncenseLimitExceeded,
    InvalidAmount,
    ExceedDailyIncenseLimit,
    InsufficientIncenseBalance,
    DonationOnlyIncense,
    SpecialEffectFailed,
    InsufficientMerit,
    DailyWishLimitExceeded,
    WishAlreadyExists,
    InvalidWishAccount,
    InvalidUserState,
    CannotLikeOwnWish,
    UserHasBuddhaNFT,
    BuddhaNFTSupplyExceeded,
    InsufficientDonation,
    RandomnessNotReady,
    RandomnessNotResolved,
    RandomnessAlreadyUsed,
    RandomnessExpired,
    InvalidRandomness,
    RandomnessRequestRequired,
    Unauthorized,
    InvalidIncenseType,
    InvalidFortuneConfig,
    InvalidDonationLevel,
    InvalidTempleLevel,
    UserAlreadyHasMedalNFT,
    InvalidMedalLevel,
    MedalLevelNotIncreasing,
    InsufficientDonationForUpgrade,
    InvalidMedalOwner,
    InsufficientDonationForMedal,
    UserDoesNotHaveMedalNFT,
    MedalAlreadyStaked,
    MedalNotStaked,
    ShareTooLate,
    NotApproved,
    InsufficientPendingAmulets,
    InsufficientStock,
    InvalidShopItemId,
    ShopItemNotAvailable,
    InvalidMaxLevel,
    WishTowerCompleted,
    WishTowerLevelFull,
    WishNotOwnedByUser,
}

/// The message shown for each error.
pub open spec fn spec_error_code_message(e: ErrorCode) -> Seq<char> {
    match e {
        ErrorCode::InvalidOwner => "Input account owner is not the program address"@,
        ErrorCode::MathOverflow => "Math overflow"@,
        ErrorCode::InvalidIncenseId => "Invalid incense ID"@,
        ErrorCode::InsufficientSolBalance => "Insufficient SOL balance to pay for incense"@,
        ErrorCode::InvalidTempleTreasury => "Temple treasury account mismatch"@,
        ErrorCode::DailyIncenseLimitExceeded => "Daily incense limit exceeded"@,
        ErrorCode::InvalidAmount => "Invalid Amount"@,
        ErrorCode::ExceedDailyIncenseLimit => "Exceed daily incense limit"@,
        ErrorCode::InsufficientIncenseBalance => "Insufficient incense balance"@,
        ErrorCode::DonationOnlyIncense => "This incense type is only available through donations"@,
        ErrorCode::SpecialEffectFailed => "Failed to trigger special effect"@,
        ErrorCode::InsufficientMerit => "Insufficient merit points"@,
        ErrorCode::DailyWishLimitExceeded => "Daily wish limit exceeded"@,
        ErrorCode::WishAlreadyExists => "Wish already exists"@,
        ErrorCode::InvalidWishAccount => "Invalid wish account"@,
        ErrorCode::InvalidUserState => "Invalid user state"@,
        ErrorCode::CannotLikeOwnWish => "Cannot like own wish"@,
        ErrorCode::UserHasBuddhaNFT => "User has Buddha NFT"@,
        ErrorCode::BuddhaNFTSupplyExceeded => "Buddha NFT supply exceeded"@,
        ErrorCode::InsufficientDonation => "Insufficient donation"@,
        ErrorCode::RandomnessNotReady => "Randomness not ready"@,
        ErrorCode::RandomnessNotResolved => "Randomness not resolved"@,
        ErrorCode::RandomnessAlreadyUsed => "Randomness already used"@,
        ErrorCode::RandomnessExpired => "Randomness expired"@,
        ErrorCode::InvalidRandomness => "Invalid randomness"@,
        ErrorCode::RandomnessRequestRequired => "Randomness request required"@,
        ErrorCode::Unauthorized => "Unauthorized access"@,
        ErrorCode::InvalidIncenseType => "Invalid incense type"@,
        ErrorCode::InvalidFortuneConfig => "Invalid fortune config"@,
        ErrorCode::InvalidDonationLevel => "Invalid donation level"@,
        ErrorCode::InvalidTempleLevel => "Invalid temple level"@,
        ErrorCode::UserAlreadyHasMedalNFT => "User already has medal NFT"@,
        ErrorCode::InvalidMedalLevel => "Invalid medal level"@,
        ErrorCode::MedalLevelNotIncreasing => "Medal level not increasing"@,
        ErrorCode::InsufficientDonationForUpgrade => "Insufficient donation for medal upgrade"@,
        ErrorCode::InvalidMedalOwner => "Invalid medal owner"@,
        ErrorCode::InsufficientDonationForMedal => "Insufficient donation for medal"@,
        ErrorCode::UserDoesNotHaveMedalNFT => "User does not have medal NFT"@,
        ErrorCode::MedalAlreadyStaked => "Medal already staked"@,
        ErrorCode::MedalNotStaked => "Medal not staked"@,
        ErrorCode::ShareTooLate => "Share too late after fortune draw"@,
        ErrorCode::NotApproved => "Not approved"@,
        ErrorCode::InsufficientPendingAmulets => "Insufficient pending amulets balance"@,
        ErrorCode::InsufficientStock => "Insufficient stock for the item"@,
        ErrorCode::InvalidShopItemId => "Invalid shop item ID"@,
        ErrorCode::ShopItemNotAvailable => "Shop item not available"@,
        ErrorCode::InvalidMaxLevel => "Invalid max level for wish tower"@,
        ErrorCode::WishTowerCompleted => "Wish tower is completed"@,
        ErrorCode::WishTowerLevelFull => "Wish tower level is full"@,
        ErrorCode::WishNotOwnedByUser => "Wish not owned by user"@,
    }
}

impl ErrorCode {
    /// The message shown for the error.
    pub fn msg(&self) -> (s: &'static str)
        ensures
            s@ == spec_error_code_message(*self),
    {
        match self {
            ErrorCode::InvalidOwner => "Input account owner is not the program address",
            ErrorCode::MathOverflow => "Math overflow",
            ErrorCode::InvalidIncenseId => "Invalid incense ID",
            ErrorCode::InsufficientSolBalance => "Insufficient SOL balance to pay for incense",
            ErrorCode::InvalidTempleTreasury => "Temple treasury account mismatch",
            ErrorCode::DailyIncenseLimitExceeded => "Daily incense limit exceeded",
            ErrorCode::InvalidAmount => "Invalid Amount",
            ErrorCode::ExceedDailyIncenseLimit => "Exceed daily incense limit",
            ErrorCode::InsufficientIncenseBalance => "Insufficient incense balance",
            ErrorCode::DonationOnlyIncense => "This incense type is only available through donations",
            ErrorCode::SpecialEffectFailed => "Failed to trigger special effect",
            ErrorCode::InsufficientMerit => "Insufficient merit points",
            ErrorCode::DailyWishLimitExceeded => "Daily wish limit exceeded",
            ErrorCode::WishAlreadyExists => "Wish already exists",
            ErrorCode::InvalidWishAccount => "Invalid wish account",
            ErrorCode::InvalidUserState => "Invalid user state",
            ErrorCode::CannotLikeOwnWish => "Cannot like own wish",
            ErrorCode::UserHasBuddhaNFT => "User has Buddha NFT",
            ErrorCode::BuddhaNFTSupplyExceeded => "Buddha NFT supply exceeded",
            ErrorCode::InsufficientDonation => "Insufficient donation",
            ErrorCode::RandomnessNotReady => "Randomness not ready",
            ErrorCode::RandomnessNotResolved => "Randomness not resolved",
            ErrorCode::RandomnessAlreadyUsed => "Randomness already used",
            ErrorCode::RandomnessExpired => "Randomness expired",
            ErrorCode::InvalidRandomness => "Invalid randomness",
            ErrorCode::RandomnessRequestRequired => "Randomness request required",
            ErrorCode::Unauthorized => "Unauthorized access",
            ErrorCode::InvalidIncenseType => "Invalid incense type",
            ErrorCode::InvalidFortuneConfig => "Invalid fortune config",
            ErrorCode::InvalidDonationLevel => "Invalid donation level",
            ErrorCode::InvalidTempleLevel => "Invalid temple level",
            ErrorCode::UserAlreadyHasMedalNFT => "User already has medal NFT",
            ErrorCode::InvalidMedalLevel => "Invalid medal level",
            ErrorCode::MedalLevelNotIncreasing => "Medal level not increasing",
            ErrorCode::InsufficientDonationForUpgrade => "Insufficient donation for medal upgrade",
            ErrorCode::InvalidMedalOwner => "Invalid medal owner",
            ErrorCode::InsufficientDonationForMedal => "Insufficient donation for medal",
            ErrorCode::UserDoesNotHaveMedalNFT => "User does not have medal NFT",
            ErrorCode::MedalAlreadyStaked => "Medal already staked",
            ErrorCode::MedalNotStaked => "Medal not staked",
            ErrorCode::ShareTooLate => "Share too late after fortune draw",
            ErrorCode::NotApproved => "Not approved",
            ErrorCode::InsufficientPendingAmulets => "Insufficient pending amulets balance",
            ErrorCode::InsufficientStock => "Insufficient stock for the item",
            ErrorCode::InvalidShopItemId => "Invalid shop item ID",
            ErrorCode::ShopItemNotAvailable => "Shop item not available",
            ErrorCode::InvalidMaxLevel => "Invalid max level for wish tower",
            ErrorCode::WishTowerCompleted => "Wish tower is completed",
            ErrorCode::WishTowerLevelFull => "Wish tower level is full",
            ErrorCode::WishNotOwnedByUser => "Wish not owned by user",
        }
    }
}

/// Errors of buying incense.
#[derive(Clone, Copy, Debug, PartialEq, Eq, Structural)]
pub enum BuyIncenseError {
    EmptyBuyIncenseList,
    TooManyBuyIncenseItems,
    IncenseTypeNotAvailable,
    InvalidIncenseType,
    InvalidQuantity,
    InvalidPrice,
    InvalidSubtotal,
    InsufficientPayment,
}

/// Errors of burning incense by type configuration.
#[derive(Clone, Copy, Debug, PartialEq, Eq, Structural)]
pub enum BurnIncenseError {
    InvalidAmount,
    InactiveIncenseType,
    InvalidPaymentAmount,
    NotEnoughSol,
    DailyBurnLimitExceeded,
}

/// Errors of donating to the fund.
#[derive(Clone, Copy, Debug, PartialEq, Eq, Structural)]
pub enum DonationError {
    InvalidDonationAmount,
    InsufficientPayment,
}

/// Errors of drawing a fortune.
#[derive(Clone, Copy, Debug, PartialEq, Eq, Structural)]
pub enum UserError {
    NotEnoughKarmaPoints,
    InvalidRandomnessAccount,
}

/// Errors of the temple's Buddha NFT supply.
#[derive(Clone, Copy, Debug, PartialEq, Eq, Structural)]
pub enum TempleError {
    BuddhaNftCountOverflow,
}

/// Errors of a user's Buddha NFT eligibility.
#[derive(Clone, Copy, Debug, PartialEq, Eq, Structural)]
pub enum BuddhaNftError {
    UserCannotMintBuddhaNft,
    UserAlreadyMintedBuddhaNft,
}

/// Any error an instruction of the temple program can end with.
#[derive(Clone, Copy, Debug, PartialEq, Eq, Structural)]
pub enum TempleProgramError {
    Code(ErrorCode),
    BuyIncense(BuyIncenseError),
    BurnIncense(BurnIncenseError),
    Donation(DonationError),
    User(UserError),
    Temple(TempleError),
    BuddhaNft(BuddhaNftError),
}

} // verus!
