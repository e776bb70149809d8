//! Error taxonomy of the ledger: every failed operation aborts with exactly
//! one of these kinds and leaves all state untouched.

use vstd::prelude::*;

verus! {

/// Domain errors: authorization, temporal, balance, verification and
/// profitability failures.
#[derive(Clone, Copy, Debug, PartialEq, Eq, Structural)]
pub enum CustomError {
    InvalidProof,
    SlippageTooHigh,
    LockupPeriodNotExpired,
    InsufficientStakedBalance,
    InsufficientLiquidity,
    NotApprovedLiquidityProvider,
    Unauthorized,
}

/// Arithmetic errors: any checked add/sub/mul that would overflow or
/// underflow aborts the whole operation with this one unified kind.
#[derive(Clone, Copy, Debug, PartialEq, Eq, Structural)]
pub enum ErrorCode {
    MathOverflow,
}

/// The error type every ledger operation returns: either a domain error or
/// an arithmetic error.
#[derive(Clone, Copy, Debug, PartialEq, Eq, Structural)]
pub enum OpError {
    Custom(CustomError),
    Math(ErrorCode),
}

impl CustomError {
    /// Human-readable description of the error.
    pub fn message(&self) -> &'static str {
        match self {
            CustomError::InvalidProof => "Invalid ZK proof provided.",
            CustomError::SlippageTooHigh => "Slippage is too high; arbitrage not profitable.",
            CustomError::LockupPeriodNotExpired => "Lockup period has not expired yet.",
            CustomError::InsufficientStakedBalance => "Insufficient staked balance for withdrawal.",
            CustomError::InsufficientLiquidity => "Insufficient liquidity available.",
            CustomError::NotApprovedLiquidityProvider => "Liquidity provider is not approved.",
            CustomError::Unauthorized => "Unauthorized access.",
        }
    }
}

impl ErrorCode {
    /// Human-readable description of the error.
    pub fn message(&self) -> &'static str {
        match self {
            ErrorCode::MathOverflow => "Math overflow occurred.",
        }
    }
}

} // verus!
