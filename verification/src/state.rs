//! Persistent records of the ledger: the pool singleton, per-actor stake
//! records and per-actor liquidity-provider records.
//!
//! Actor identities and the pool identity are plain `u64` keys assigned by
//! the host's allocation layer; timestamps are `i64` seconds as the host's
//! clock reports them.

use vstd::prelude::*;

verus! {

/// Seconds a (re-)staked balance stays locked after the deposit.
pub const LOCKUP_SECONDS: i64 = 300;

/// Seconds of continuous staking after which a withdrawal becomes eligible
/// for the bonus notification.
pub const BONUS_ELIGIBLE_SECONDS: i64 = 604800;

/// The pool singleton: global totals, fee configuration and the bump bytes
/// that disambiguate the derived vault authorities.
#[derive(Clone, Copy, Debug, PartialEq, Eq, Structural)]
pub struct Pool {
    pub admin: u64,
    pub total_staked: u64,
    pub total_liquidity: u64,
    pub accumulated_fee_tokens: u64,
    pub dynamic_fee_multiplier: u64,
    pub staking_vault_bump: u8,
    pub liquidity_vault_bump: u8,
    pub fee_vault_bump: u8,
}

/// One staking actor's record. Never deleted; may persist at zero balance.
#[derive(Clone, Copy, Debug, PartialEq, Eq, Structural)]
pub struct StakeAccount {
    pub owner: u64,
    pub amount: u64,
    pub staked_at: i64,
    pub lockup_until: i64,
}

/// One liquidity provider's record. Created unapproved; never deleted.
#[derive(Clone, Copy, Debug, PartialEq, Eq, Structural)]
pub struct LiquidityProvider {
    pub owner: u64,
    pub amount: u64,
    pub approved: bool,
}

impl StakeAccount {
    /// Shape every record the ledger creates has: a nonnegative deposit time
    /// and a lockup exactly one lockup window after it.
    pub open spec fn wf(self) -> bool {
        0 <= self.staked_at && self.lockup_until == self.staked_at + LOCKUP_SECONDS
    }
}

} // verus!
