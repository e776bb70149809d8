//! Accounting and authorization core of a custodial liquidity/staking pool
//! with a proof-gated arbitrage-settlement mechanism.
//!
//! The ledger decides whether a requested state transition (stake, withdraw,
//! provide liquidity, execute arbitrage, ...) is legal given current balances,
//! timestamps and authorization, and what the resulting balances and fee
//! accruals must be. Token custody, signature checking of the calling
//! identity, clock reads and event transport are the host environment's job:
//! the ledger consumes a caller identity and a timestamp as plain values and
//! hands back transfer directives for the host to execute.

pub mod authority;
pub mod errors;
pub mod events;
pub mod helpers;
pub mod ledger;
pub mod state;
pub mod transfer;

pub use authority::VaultAuthority;
pub use authority::VaultRole;
pub use errors::CustomError;
pub use errors::ErrorCode;
pub use errors::OpError;
pub use ledger::Ledger;
pub use ledger::distribute_rewards;
pub use state::LiquidityProvider;
pub use state::Pool;
pub use state::StakeAccount;
pub use transfer::BurnDirective;
pub use transfer::TokenAccountRef;
pub use transfer::TransferDirective;
pub use transfer::TransferSigner;
