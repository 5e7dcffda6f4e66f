//! Errors of the craps engine.

use vstd::prelude::*;

verus! {

/// Why a ledger operation was refused. A refused operation changes nothing.
#[derive(Debug, Clone, Copy, PartialEq, Eq, Structural)]
pub enum OreError {
    /// The position was already settled for this round.
    AlreadySettled,
    /// The round is not currently active.
    RoundNotActive,
    /// The round has expired.
    RoundExpired,
    /// The house bankroll, less what is reserved, cannot cover the bet.
    InsufficientBankroll,
    /// The bet amount is below the minimum.
    BetTooSmall,
    /// The bet amount exceeds the maximum.
    BetTooLarge,
    /// There are no active bets to settle.
    NoBetsToSettle,
    /// The bet type, or its point or sum, is not allowed here.
    InvalidBetType,
    /// The bet amount is zero or above the table maximum.
    InvalidBetAmount,
    /// The point value is invalid.
    InvalidPoint,
    /// The caller is not the position's authority.
    InvalidAuthority,
    /// An account was not the expected one.
    InvalidAccount,
    /// An amount would not fit in 64 bits.
    ArithmeticOverflow,
    /// A required account was not found.
    AccountNotFound,
    /// Account data could not be read.
    DeserializationFailed,
    /// The round has not expired yet, so it cannot be force-settled.
    RoundNotExpired,
    /// An argument is out of range: a zero amount, or nothing to claim.
    InvalidArgument,
}

/// The numeric code of an error on the wire.
pub open spec fn error_code(e: OreError) -> u32 {
    match e {
        OreError::AlreadySettled => 1001,
        OreError::RoundNotActive => 1002,
        OreError::RoundExpired => 1003,
        OreError::InsufficientBankroll => 1004,
        OreError::BetTooSmall => 1005,
        OreError::BetTooLarge => 1006,
        OreError::NoBetsToSettle => 1007,
        OreError::RoundNotExpired => 1008,
        OreError::InvalidArgument => 1009,
        OreError::InvalidBetType => 2001,
        OreError::InvalidBetAmount => 2002,
        OreError::InvalidPoint => 2003,
        OreError::InvalidAuthority => 2004,
        OreError::InvalidAccount => 2005,
        OreError::ArithmeticOverflow => 3001,
        OreError::AccountNotFound => 3002,
        OreError::DeserializationFailed => 3003,
    }
}

impl OreError {
    /// The numeric error code carried on the wire.
    pub fn code(&self) -> (r: u32)
        ensures
            r == error_code(*self),
    {
        match self {
            OreError::AlreadySettled => 1001,
            OreError::RoundNotActive => 1002,
            OreError::RoundExpired => 1003,
            OreError::InsufficientBankroll => 1004,
            OreError::BetTooSmall => 1005,
            OreError::BetTooLarge => 1006,
            OreError::NoBetsToSettle => 1007,
            OreError::RoundNotExpired => 1008,
            OreError::InvalidArgument => 1009,
                OreError::InvalidBetType => 2001,
            OreError::InvalidBetAmount => 2002,
            OreError::InvalidPoint => 2003,
            OreError::InvalidAuthority => 2004,
            OreError::InvalidAccount => 2005,
            OreError::ArithmeticOverflow => 3001,
            OreError::AccountNotFound => 3002,
            OreError::DeserializationFailed => 3003,
        }
    }
}

} // verus!
