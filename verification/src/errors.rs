//! Errors that the program's instructions return.

use vstd::prelude::*;

verus! {

/// The program's own errors.
#[derive(Clone, Copy, Debug, PartialEq, Eq, Structural)]
pub enum CricketFiError {
    UnauthorizedAccess,
    InvalidMatchStatus,
    InvalidBetAmount,
    WinningsAlreadyClaimed,
    InvalidTeam,
    MatchNotCancelled,
    InvalidMatch,
    InvalidStartTime,
    BettingClosed,
    UserAlreadyBet,
    InsufficientVaultFunds,
    InvalidOdds,
}

/// The error of checked arithmetic.
#[derive(Clone, Copy, Debug, PartialEq, Eq, Structural)]
pub enum ErrorCode {
    NumericalOverflow,
}

/// Everything an instruction can fail with: a program error, an
/// arithmetic overflow, or an account whose recorded owner is not the
/// signer (the `has_one` account constraint).
#[derive(Clone, Copy, Debug, PartialEq, Eq, Structural)]
pub enum ContractError {
    Program(CricketFiError),
    Arithmetic(ErrorCode),
    ConstraintHasOne,
}

/// Custom error numbers start at this offset, in declaration order.
pub const ERROR_CODE_OFFSET: u32 = 6000;

/// Position of a program error in its declaration.
pub open spec fn cricketfi_error_index(e: CricketFiError) -> u32 {
    match e {
        CricketFiError::UnauthorizedAccess => 0,
        CricketFiError::InvalidMatchStatus => 1,
        CricketFiError::InvalidBetAmount => 2,
        CricketFiError::WinningsAlreadyClaimed => 3,
        CricketFiError::InvalidTeam => 4,
        CricketFiError::MatchNotCancelled => 5,
        CricketFiError::InvalidMatch => 6,
        CricketFiError::InvalidStartTime => 7,
        CricketFiError::BettingClosed => 8,
        CricketFiError::UserAlreadyBet => 9,
        CricketFiError::InsufficientVaultFunds => 10,
        CricketFiError::InvalidOdds => 11,
    }
}

impl CricketFiError {
    /// The error's number: the offset plus its position in the declaration.
    pub fn code(&self) -> (r: u32)
        ensures
            r == ERROR_CODE_OFFSET + cricketfi_error_index(*self),
    {
        let index: u32 = match self {
            CricketFiError::UnauthorizedAccess => 0,
            CricketFiError::InvalidMatchStatus => 1,
            CricketFiError::InvalidBetAmount => 2,
            CricketFiError::WinningsAlreadyClaimed => 3,
            CricketFiError::InvalidTeam => 4,
            CricketFiError::MatchNotCancelled => 5,
            CricketFiError::InvalidMatch => 6,
            CricketFiError::InvalidStartTime => 7,
            CricketFiError::BettingClosed => 8,
            CricketFiError::UserAlreadyBet => 9,
            CricketFiError::InsufficientVaultFunds => 10,
            CricketFiError::InvalidOdds => 11,
        };
        ERROR_CODE_OFFSET + index
    }

    /// The human-readable message of the error.
    pub fn message(&self) -> (r: &'static str)
        ensures
            r@ == match *self {
                CricketFiError::UnauthorizedAccess => "Unauthorized Access"@,
                CricketFiError::InvalidMatchStatus => "Invalid Match Status"@,
                CricketFiError::InvalidBetAmount => "Invalid Bet Amount"@,
                CricketFiError::WinningsAlreadyClaimed => "Winnings already claimed"@,
                CricketFiError::InvalidTeam => "Invalid Team"@,
                CricketFiError::MatchNotCancelled => "Match not cancelled"@,
                CricketFiError::InvalidMatch => "Invalid Match"@,
                CricketFiError::InvalidStartTime => "Invalid Start Time"@,
                CricketFiError::BettingClosed => "Betting Closed"@,
                CricketFiError::UserAlreadyBet => "User Already Bet"@,
                CricketFiError::InsufficientVaultFunds => "Insufficient Vault Funds"@,
                CricketFiError::InvalidOdds => "Invalid Odds"@,
            },
    {
        match self {
            CricketFiError::UnauthorizedAccess => "Unauthorized Access",
            CricketFiError::InvalidMatchStatus => "Invalid Match Status",
            CricketFiError::InvalidBetAmount => "Invalid Bet Amount",
            CricketFiError::WinningsAlreadyClaimed => "Winnings already claimed",
            CricketFiError::InvalidTeam => "Invalid Team",
            CricketFiError::MatchNotCancelled => "Match not cancelled",
            CricketFiError::InvalidMatch => "Invalid Match",
            CricketFiError::InvalidStartTime => "Invalid Start Time",
            CricketFiError::BettingClosed => "Betting Closed",
            CricketFiError::UserAlreadyBet => "User Already Bet",
            CricketFiError::InsufficientVaultFunds => "Insufficient Vault Funds",
            CricketFiError::InvalidOdds => "Invalid Odds",
        }
    }
}

impl ErrorCode {
    /// The error's number: the offset plus its position in the declaration.
    pub fn code(&self) -> (r: u32)
        ensures
            r == ERROR_CODE_OFFSET,
    {
        match self {
            ErrorCode::NumericalOverflow => ERROR_CODE_OFFSET,
        }
    }

    /// The human-readable message of the error.
    pub fn message(&self) -> (r: &'static str)
        ensures
            r@ == "Numerical overflow during calculation"@,
    {
        match self {
            ErrorCode::NumericalOverflow => "Numerical overflow during calculation",
        }
    }
}

} // verus!
