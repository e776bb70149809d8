//! Append-only event records. Events are written for observability only:
//! the ledger never reads them back, and no operation's outcome depends on
//! a previously emitted event.

use vstd::prelude::*;

verus! {

#[derive(Clone, Copy, Debug, PartialEq, Eq, Structural)]
pub struct StakeDeposited {
    pub user: u64,
    pub amount: u64,
}

#[derive(Clone, Copy, Debug, PartialEq, Eq, Structural)]
pub struct StakeWithdrawn {
    pub user: u64,
    pub amount: u64,
}

#[derive(Clone, Copy, Debug, PartialEq, Eq, Structural)]
pub struct BonusRewardEligible {
    pub user: u64,
    pub bonus: u64,
}

#[derive(Clone, Copy, Debug, PartialEq, Eq, Structural)]
pub struct LiquidityDeposited {
    pub liquidity_provider: u64,
    pub amount: u64,
}

#[derive(Clone, Copy, Debug, PartialEq, Eq, Structural)]
pub struct LiquidityRemoved {
    pub liquidity_provider: u64,
    pub amount: u64,
}

#[derive(Clone, Copy, Debug, PartialEq, Eq, Structural)]
pub struct LiquidityProviderApproved {
    pub liquidity_provider: u64,
}

#[derive(Clone, Copy, Debug, PartialEq, Eq, Structural)]
pub struct ArbitrageExecuted {
    pub trader: u64,
    pub amount: u64,
    pub profit: u64,
}

#[derive(Clone, Copy, Debug, PartialEq, Eq, Structural)]
pub struct LiquidityRebalanced {
    pub new_liquidity: u64,
}

#[derive(Clone, Copy, Debug, PartialEq, Eq, Structural)]
pub struct FeeMultiplierUpdated {
    pub new_multiplier: u64,
}

#[derive(Clone, Copy, Debug, PartialEq, Eq, Structural)]
pub struct FeeTokensBurned {
    pub amount: u64,
}

/// One entry of the ledger's append-only event log.
#[derive(Clone, Copy, Debug, PartialEq, Eq, Structural)]
pub enum Event {
    StakeDeposited(StakeDeposited),
    StakeWithdrawn(StakeWithdrawn),
    BonusRewardEligible(BonusRewardEligible),
    LiquidityDeposited(LiquidityDeposited),
    LiquidityRemoved(LiquidityRemoved),
    LiquidityProviderApproved(LiquidityProviderApproved),
    ArbitrageExecuted(ArbitrageExecuted),
    LiquidityRebalanced(LiquidityRebalanced),
    FeeMultiplierUpdated(FeeMultiplierUpdated),
    FeeTokensBurned(FeeTokensBurned),
}

} // verus!
