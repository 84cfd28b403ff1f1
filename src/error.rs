use vstd::prelude::*;

verus! {

/// Every way an operation of this library can be refused.
#[derive(Clone, Copy, Debug, PartialEq, Eq, Structural)]
pub enum ErrorCode {
    Unauthorized,
    InvalidAmount,
    SlippageExceeded,
    BondingCurveComplete,
    InsufficientTokens,
    InsufficientSOL,
    AlreadyMigrated,
    ThresholdNotReached,
    NotMigrated,
    InvalidVestingDuration,
    InvalidCliffDuration,
    CliffNotReached,
    NoTokensToClaim,
    InvalidMint,
    InsufficientFees,
    NoFeesToWithdraw,
    InvalidTreasury,
    InsufficientSOLForMigration,
    LpAlreadyBurned,
    NotImplemented,
    ArithmeticOverflow,
    TransferFailed,
}

impl ErrorCode {
    /// The human-readable message for this error.
    pub fn message(&self) -> (r: &'static str) {
        match self {
            ErrorCode::Unauthorized => "Unauthorized",
            ErrorCode::InvalidAmount => "Invalid amount",
            ErrorCode::SlippageExceeded => "Slippage tolerance exceeded",
            ErrorCode::BondingCurveComplete => "Bonding curve is complete",
            ErrorCode::InsufficientTokens => "Insufficient tokens in bonding curve",
            ErrorCode::InsufficientSOL => "Insufficient SOL in bonding curve",
            ErrorCode::AlreadyMigrated => "Already migrated to DEX",
            ErrorCode::ThresholdNotReached => "Migration threshold not reached",
            ErrorCode::NotMigrated => "Token not migrated yet",
            ErrorCode::InvalidVestingDuration => "Invalid vesting duration",
            ErrorCode::InvalidCliffDuration => "Invalid cliff duration",
            ErrorCode::CliffNotReached => "Cliff period not reached yet",
            ErrorCode::NoTokensToClaim => "No tokens available to claim",
            ErrorCode::InvalidMint => "Invalid mint address",
            ErrorCode::InsufficientFees => "Insufficient fees to withdraw",
            ErrorCode::NoFeesToWithdraw => "No fees to withdraw",
            ErrorCode::InvalidTreasury => "Invalid treasury address",
            ErrorCode::InsufficientSOLForMigration =>
                "Insufficient SOL for migration (need at least 6 SOL fee + pool liquidity)",
            ErrorCode::LpAlreadyBurned => "LP tokens have already been burned",
            ErrorCode::NotImplemented => "Feature not yet implemented",
            ErrorCode::ArithmeticOverflow => "Arithmetic overflow",
            ErrorCode::TransferFailed => "Transfer failed",
        }
    }
}

} // verus!
