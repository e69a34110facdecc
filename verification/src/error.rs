//! The failures that an operation reports.

use vstd::prelude::*;

verus! {

/// First code of the three named conditions.
pub const ERROR_CODE_OFFSET: u32 = 6000;

/// The named conditions under which the ledger turns an operation down.
#[derive(Clone, Copy, Debug, PartialEq, Eq, Structural)]
pub enum ErrorCode {
    TokensAlreadyStaked,
    TokensNotStaked,
    NoTokensToStake,
}

impl ErrorCode {
    /// The code that the condition is reported under.
    pub open spec fn spec_code(self) -> u32 {
        match self {
            ErrorCode::TokensAlreadyStaked => 6000,
            ErrorCode::TokensNotStaked => 6001,
            ErrorCode::NoTokensToStake => 6002,
        }
    }

    /// The code that the condition is reported under.
    pub fn code(&self) -> (c: u32)
        ensures
            c == self.spec_code(),
            c >= ERROR_CODE_OFFSET,
    {
        match self {
            ErrorCode::TokensAlreadyStaked => ERROR_CODE_OFFSET,
            ErrorCode::TokensNotStaked => ERROR_CODE_OFFSET + 1,
            ErrorCode::NoTokensToStake => ERROR_CODE_OFFSET + 2,
        }
    }

    /// The words that the condition is reported with.
    pub fn message(&self) -> (m: &'static str)
        ensures
            m@ == match *self {
                ErrorCode::TokensAlreadyStaked => "Tokens are already staked"@,
                ErrorCode::TokensNotStaked => "Tokens are not staked"@,
                ErrorCode::NoTokensToStake => "No tokens to stake"@,
            },
    {
        match self {
            ErrorCode::TokensAlreadyStaked => "Tokens are already staked",
            ErrorCode::TokensNotStaked => "Tokens are not staked",
            ErrorCode::NoTokensToStake => "No tokens to stake",
        }
    }
}

/// Two conditions that are reported under the same code are the same condition.
pub proof fn lemma_codes_distinct(a: ErrorCode, b: ErrorCode)
    ensures
        a.spec_code() == b.spec_code() <==> a == b,
{
}

/// Why an operation failed. A failed operation leaves every account as it was.
#[derive(Clone, Copy, Debug, PartialEq, Eq, Structural)]
pub enum StakingError {
    /// One of the named conditions.
    Code(ErrorCode),
    /// An amount did not fit in 64 bits.
    ComputationFailure,
    /// An account is not the one that its seeds derive, or the proof presented
    /// for a transfer does not authorize it.
    AuthorizationFailure,
    /// The source of a transfer holds less than the amount.
    InsufficientFunds,
}

} // verus!
