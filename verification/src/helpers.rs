//! Placeholder implementations of the ledger's collaborators: the proof
//! verifier, the profit estimator, the liquidity optimizer and the delay
//! source. Each is a stand-in to be replaced by a production service; the
//! ledger's contracts go through these exact definitions.

use vstd::prelude::*;

verus! {

/// Simulated delay value; the arbitrage path calls this and discards the
/// result, which is preserved as an explicit no-op.
pub fn get_random_delay() -> (delay: u64)
    ensures
        delay == 2,
{
    2
}

/// Placeholder proof verification: a proof passes exactly when it is
/// non-empty.
pub fn verify_zk_snark(zk_proof: &Vec<u8>) -> (ok: bool)
    ensures
        ok <==> zk_proof@.len() > 0,
{
    zk_proof.len() > 0
}

/// Placeholder profit estimate: a tenth of the traded amount, rounded down.
pub fn get_arbitrage_profit(amount: u64) -> (profit: u64)
    ensures
        profit == amount / 10,
{
    amount / 10
}

/// Simulated optimal liquidity target.
pub fn get_optimal_liquidity() -> (liquidity: u64)
    ensures
        liquidity == 1_000_000,
{
    1_000_000
}

} // verus!
