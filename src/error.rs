use vstd::prelude::*;

verus! {

/// Failures specific to the campaign rules.
#[derive(Debug, Clone, Copy, PartialEq, Eq, Structural)]
pub enum FundraiserError {
    FundraiserEnded,
    FundraiserNotEnded,
    InvalidFundraiserMaker,
    AmountRaisedNotEnough,
}

impl FundraiserError {
    /// The stable numeric code under which the host reports this error.
    pub open spec fn spec_code(self) -> u32 {
        match self {
            FundraiserError::FundraiserEnded => 0,
            FundraiserError::FundraiserNotEnded => 1,
            FundraiserError::InvalidFundraiserMaker => 2,
            FundraiserError::AmountRaisedNotEnough => 3,
        }
    }

    pub fn code(&self) -> (r: u32)
        ensures
            r == self.spec_code(),
    {
        match self {
            FundraiserError::FundraiserEnded => 0,
            FundraiserError::FundraiserNotEnded => 1,
            FundraiserError::InvalidFundraiserMaker => 2,
            FundraiserError::AmountRaisedNotEnough => 3,
        }
    }

    /// A short human-readable description.
    pub fn message(&self) -> (r: &'static str) {
        match self {
            FundraiserError::FundraiserEnded => "The Fundraiser had ended!",
            FundraiserError::FundraiserNotEnded => "The fundraiser has not ended yet",
            FundraiserError::InvalidFundraiserMaker => "The fundraiser maker is invalid",
            FundraiserError::AmountRaisedNotEnough => "The amount raised is not enough",
        }
    }
}

/// Every way a call can fail; each one aborts the whole call.
#[derive(Debug, Clone, Copy, PartialEq, Eq, Structural)]
pub enum ProcessError {
    NotEnoughAccountKeys,
    InvalidInstructionData,
    MissingRequiredSignature,
    InvalidSeeds,
    InvalidAccountOwner,
    AccountAlreadyInitialized,
    IncorrectProgramId,
    UninitializedAccount,
    InvalidAccountData,
    ArithmeticOverflow,
    Custom(FundraiserError),
}

} // verus!
