//! The failures that an operation of this library can report.

use vstd::prelude::*;
use crate::math::ArithmeticError;

verus! {

/// Every failure is final for the operation that raised it: nothing was
/// written, and the caller decides whether to try again with other inputs.
#[derive(Clone, Copy, Debug, PartialEq, Eq, Structural)]
pub enum CustomError {
    /// The caller is not the authority recorded on the entity.
    UnauthorizedAccess,
    /// A time or duration is outside what the operation accepts.
    InvalidTimeParameters,
    /// An amount is zero or outside what the operation accepts.
    InvalidAmount,
    /// An intermediate result overflowed, underflowed or divided by zero.
    CalculationError,
    /// The lock has not expired yet.
    TokensStillLocked,
    /// The amount differs from the one that the grant was created with.
    InvalidVestingAmount,
    /// Everything has been released already.
    TokensAlreadyUnlocked,
    /// The vesting period is still running.
    VestingPeriodNotEnded,
    /// The market capitalisation is below the target.
    MarketCapNotReached,
    /// A balance or a stated bound does not cover the amount.
    InsufficientBalance,
    /// A curve needs positive virtual reserves.
    InvalidCurveParameters,
    /// Milestones are missing or their percentages do not add up to 100.
    InvalidMilestone,
    /// The stream was never set up.
    StreamNotInitialized,
    /// The stream's release formula is not supported.
    InvalidStreamRate,
}

impl CustomError {
    /// The sentence that describes the failure.
    pub open spec fn spec_message(&self) -> Seq<char> {
        match self {
            CustomError::UnauthorizedAccess => "Unauthorized access"@,
            CustomError::InvalidTimeParameters => "Invalid time parameters"@,
            CustomError::InvalidAmount => "Invalid amount"@,
            CustomError::CalculationError => "Calculation error"@,
            CustomError::TokensStillLocked => "Tokens still locked"@,
            CustomError::InvalidVestingAmount => "Invalid vesting amount"@,
            CustomError::TokensAlreadyUnlocked => "Tokens already unlocked"@,
            CustomError::VestingPeriodNotEnded => "Vesting period not ended"@,
            CustomError::MarketCapNotReached => "Market cap not reached"@,
            CustomError::InsufficientBalance => "Insufficient balance"@,
            CustomError::InvalidCurveParameters => "Invalid curve parameters"@,
            CustomError::InvalidMilestone => "Invalid milestone"@,
            CustomError::StreamNotInitialized => "Stream not initialized"@,
            CustomError::InvalidStreamRate => "Invalid stream rate"@,
        }
    }

    /// The sentence that describes the failure, for a log or a user.
    pub fn message(&self) -> (s: &'static str)
        ensures
            s@ == self.spec_message(),
    {
        match self {
            CustomError::UnauthorizedAccess => "Unauthorized access",
            CustomError::InvalidTimeParameters => "Invalid time parameters",
            CustomError::InvalidAmount => "Invalid amount",
            CustomError::CalculationError => "Calculation error",
            CustomError::TokensStillLocked => "Tokens still locked",
            CustomError::InvalidVestingAmount => "Invalid vesting amount",
            CustomError::TokensAlreadyUnlocked => "Tokens already unlocked",
            CustomError::VestingPeriodNotEnded => "Vesting period not ended",
            CustomError::MarketCapNotReached => "Market cap not reached",
            CustomError::InsufficientBalance => "Insufficient balance",
            CustomError::InvalidCurveParameters => "Invalid curve parameters",
            CustomError::InvalidMilestone => "Invalid milestone",
            CustomError::StreamNotInitialized => "Stream not initialized",
            CustomError::InvalidStreamRate => "Invalid stream rate",
        }
    }
}

/// What a failed arithmetic step becomes for the caller: always
/// `CalculationError`; values pass through unchanged.
pub open spec fn spec_calculation<T>(r: Result<T, ArithmeticError>) -> Result<T, CustomError> {
    match r {
        Ok(v) => Ok(v),
        Err(_) => Err(CustomError::CalculationError),
    }
}

/// Reports an arithmetic failure as `CalculationError`.
pub fn calculation<T>(r: Result<T, ArithmeticError>) -> (out: Result<T, CustomError>)
    ensures
        out == spec_calculation(r),
{
    match r {
        Ok(v) => Ok(v),
        Err(_) => Err(CustomError::CalculationError),
    }
}

} // verus!
