use vstd::prelude::*;

verus! {

/// The program's own error codes, in the order in which the program declares them.
#[derive(Clone, Copy, Debug, PartialEq, Eq, Structural)]
pub enum CustomErrors {
    InsufficientFunds,
    TooSmallMinBet,
    TooSmallMinBetToken,
    TooSmallMinBallsCount,
    DaoAlreadyVerified,
    DaoNotVerified,
    DaoAreSame,
    DaoAlreadyRemoved,
    ReferralAlreadyVerified,
    ReferralNotVerified,
    InviteOwnerAndRegistererAreSame,
    ProfileHasInvite,
    ProfileHasNotInvite,
    GameIsPaused,
    InvalidRows,
    InvalidRisk,
    InvalidBetAmount,
    InvalidBallsCount,
    InsufficientFundsInHouse,
    InvalidInitPlinkoSettings,
    GameIsRevealed,
    GameIsNotRevealed,
    GameIsClaimed,
    ReferralAmountIsZero,
    InvalidPercentage,
}

/// The first number of the program's own error codes.
pub const ERROR_CODE_OFFSET: u32 = 6000;

/// Position of an error in the declaration of `CustomErrors`.
pub open spec fn error_index(e: CustomErrors) -> u32 {
    match e {
        CustomErrors::InsufficientFunds => 0,
        CustomErrors::TooSmallMinBet => 1,
        CustomErrors::TooSmallMinBetToken => 2,
        CustomErrors::TooSmallMinBallsCount => 3,
        CustomErrors::DaoAlreadyVerified => 4,
        CustomErrors::DaoNotVerified => 5,
        CustomErrors::DaoAreSame => 6,
        CustomErrors::DaoAlreadyRemoved => 7,
        CustomErrors::ReferralAlreadyVerified => 8,
        CustomErrors::ReferralNotVerified => 9,
        CustomErrors::InviteOwnerAndRegistererAreSame => 10,
        CustomErrors::ProfileHasInvite => 11,
        CustomErrors::ProfileHasNotInvite => 12,
        CustomErrors::GameIsPaused => 13,
        CustomErrors::InvalidRows => 14,
        CustomErrors::InvalidRisk => 15,
        CustomErrors::InvalidBetAmount => 16,
        CustomErrors::InvalidBallsCount => 17,
        CustomErrors::InsufficientFundsInHouse => 18,
        CustomErrors::InvalidInitPlinkoSettings => 19,
        CustomErrors::GameIsRevealed => 20,
        CustomErrors::GameIsNotRevealed => 21,
        CustomErrors::GameIsClaimed => 22,
        CustomErrors::ReferralAmountIsZero => 23,
        CustomErrors::InvalidPercentage => 24,
    }
}

impl CustomErrors {
    /// The number by which the runtime reports this error: the offset plus its position.
    pub fn code(&self) -> (c: u32)
        ensures
            c == ERROR_CODE_OFFSET + error_index(*self),
    {
        let i: u32 = match self {
            CustomErrors::InsufficientFunds => 0,
            CustomErrors::TooSmallMinBet => 1,
            CustomErrors::TooSmallMinBetToken => 2,
            CustomErrors::TooSmallMinBallsCount => 3,
            CustomErrors::DaoAlreadyVerified => 4,
            CustomErrors::DaoNotVerified => 5,
            CustomErrors::DaoAreSame => 6,
            CustomErrors::DaoAlreadyRemoved => 7,
            CustomErrors::ReferralAlreadyVerified => 8,
            CustomErrors::ReferralNotVerified => 9,
            CustomErrors::InviteOwnerAndRegistererAreSame => 10,
            CustomErrors::ProfileHasInvite => 11,
            CustomErrors::ProfileHasNotInvite => 12,
            CustomErrors::GameIsPaused => 13,
            CustomErrors::InvalidRows => 14,
            CustomErrors::InvalidRisk => 15,
            CustomErrors::InvalidBetAmount => 16,
            CustomErrors::InvalidBallsCount => 17,
            CustomErrors::InsufficientFundsInHouse => 18,
            CustomErrors::InvalidInitPlinkoSettings => 19,
            CustomErrors::GameIsRevealed => 20,
            CustomErrors::GameIsNotRevealed => 21,
            CustomErrors::GameIsClaimed => 22,
            CustomErrors::ReferralAmountIsZero => 23,
            CustomErrors::InvalidPercentage => 24,
        };
        ERROR_CODE_OFFSET + i
    }
}

/// The errors of the runtime that the program's own logic raises.
#[derive(Clone, Copy, Debug, PartialEq, Eq, Structural)]
pub enum ProgramError {
    InvalidArgument,
}

/// What an instruction of the program fails with.
#[derive(Clone, Copy, Debug, PartialEq, Eq, Structural)]
pub enum Error {
    /// One of the program's own checks refused the instruction.
    Custom(CustomErrors),
    /// A balance could not be moved.
    Program(ProgramError),
    /// An account given to the instruction does not match the records that it must match.
    ConstraintRaw,
}

/// The result of an instruction refused by one of the program's own checks.
pub open spec fn refused<T>(e: CustomErrors) -> Result<T, Error> {
    Err(Error::Custom(e))
}

/// The result of an instruction whose balance move failed.
pub open spec fn invalid_argument<T>() -> Result<T, Error> {
    Err(Error::Program(ProgramError::InvalidArgument))
}

/// Fails with `ConstraintRaw` unless the accounts of an instruction match (`ok`).
pub fn require_constraint(ok: bool) -> (r: Result<(), Error>)
    ensures
        ok ==> r is Ok,
        !ok ==> r == Err::<(), Error>(Error::ConstraintRaw),
{
    if ok {
        Ok(())
    } else {
        Err(Error::ConstraintRaw)
    }
}

/// The result of a check of the accounts of an instruction: success exactly when they
/// match.
pub open spec fn checked(r: Result<(), Error>, ok: bool) -> bool {
    &&& ok ==> r is Ok
    &&& !ok ==> r == Err::<(), Error>(Error::ConstraintRaw)
}

} // verus!
