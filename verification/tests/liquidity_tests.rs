use zkarb::errors::CustomError;
use zkarb::errors::ErrorCode;
use zkarb::errors::OpError;
use zkarb::events::Event;
use zkarb::events::LiquidityDeposited;
use zkarb::events::LiquidityProviderApproved;
use zkarb::events::LiquidityRebalanced;
use zkarb::events::LiquidityRemoved;
use zkarb::ledger::Ledger;
use zkarb::transfer::TokenAccountRef;
use zkarb::transfer::TransferSigner;
use zkarb::VaultRole;

const ADMIN: u64 = 1;
const CAROL: u64 = 20;
const DAVE: u64 = 21;

#[test]
fn add_liquidity_creates_unapproved_record() {
    let mut ledger = Ledger::initialize(7, ADMIN, 100);
    let directive = ledger.add_liquidity(CAROL, 800).unwrap();
    assert_eq!(directive.from, TokenAccountRef::User { owner: CAROL });
    assert_eq!(directive.to, TokenAccountRef::Vault { role: VaultRole::Liquidity });
    assert_eq!(directive.authority, TransferSigner::User { id: CAROL });
    assert_eq!(ledger.providers.len(), 1);
    assert_eq!(ledger.providers[0].owner, CAROL);
    assert_eq!(ledger.providers[0].amount, 800);
    assert!(!ledger.providers[0].approved);
    assert_eq!(ledger.pool.total_liquidity, 800);
    assert_eq!(
        ledger.events.last(),
        Some(&Event::LiquidityDeposited(LiquidityDeposited {
            liquidity_provider: CAROL,
            amount: 800
        }))
    );
}

#[test]
fn liquidity_totals_match_record_sums_over_a_sequence() {
    let mut ledger = Ledger::initialize(7, ADMIN, 100);
    ledger.add_liquidity(CAROL, 500).unwrap();
    ledger.add_liquidity(DAVE, 300).unwrap();
    ledger.add_liquidity(CAROL, 200).unwrap();
    ledger.remove_liquidity(DAVE, DAVE, 100).unwrap();
    let sum: u64 = ledger.providers.iter().map(|r| r.amount).sum();
    assert_eq!(ledger.pool.total_liquidity, sum);
    assert_eq!(sum, 900);
}

#[test]
fn remove_liquidity_pays_out_under_pool_authority() {
    let mut ledger = Ledger::initialize(7, ADMIN, 100);
    ledger.add_liquidity(CAROL, 500).unwrap();
    let directive = ledger.remove_liquidity(CAROL, CAROL, 200).unwrap();
    assert_eq!(directive.from, TokenAccountRef::Vault { role: VaultRole::Liquidity });
    assert_eq!(directive.to, TokenAccountRef::User { owner: CAROL });
    match directive.authority {
        TransferSigner::Pool { authority } => {
            assert_eq!(authority.pool_id, 7);
            assert_eq!(authority.role, VaultRole::Liquidity);
        }
        TransferSigner::User { .. } => panic!("vault debit must carry the pool's authority"),
    }
    assert_eq!(ledger.providers[0].amount, 300);
    assert_eq!(ledger.pool.total_liquidity, 300);
    assert_eq!(
        ledger.events.last(),
        Some(&Event::LiquidityRemoved(LiquidityRemoved { liquidity_provider: CAROL, amount: 200 }))
    );
}

#[test]
fn remove_liquidity_by_non_owner_is_unauthorized() {
    let mut ledger = Ledger::initialize(7, ADMIN, 100);
    ledger.add_liquidity(CAROL, 500).unwrap();
    let r = ledger.remove_liquidity(CAROL, DAVE, 100);
    assert_eq!(r, Err(OpError::Custom(CustomError::Unauthorized)));
    let r = ledger.remove_liquidity(DAVE, DAVE, 100);
    assert_eq!(r, Err(OpError::Custom(CustomError::Unauthorized)));
    assert_eq!(ledger.providers[0].amount, 500);
    assert_eq!(ledger.pool.total_liquidity, 500);
}

#[test]
fn remove_more_than_deposited_fails() {
    let mut ledger = Ledger::initialize(7, ADMIN, 100);
    ledger.add_liquidity(CAROL, 500).unwrap();
    let r = ledger.remove_liquidity(CAROL, CAROL, 501);
    assert_eq!(r, Err(OpError::Custom(CustomError::InsufficientLiquidity)));
    assert_eq!(ledger.providers[0].amount, 500);
    assert_eq!(ledger.pool.total_liquidity, 500);
}

#[test]
fn approve_by_non_owner_is_unauthorized() {
    let mut ledger = Ledger::initialize(7, ADMIN, 100);
    ledger.add_liquidity(CAROL, 500).unwrap();
    let r = ledger.approve_liquidity_provider(CAROL, DAVE);
    assert_eq!(r, Err(OpError::Custom(CustomError::Unauthorized)));
    assert!(!ledger.providers[0].approved);
}

#[test]
fn approve_sets_flag_and_is_idempotent() {
    let mut ledger = Ledger::initialize(7, ADMIN, 100);
    ledger.add_liquidity(CAROL, 500).unwrap();
    ledger.approve_liquidity_provider(CAROL, CAROL).unwrap();
    assert!(ledger.providers[0].approved);
    let record = ledger.providers[0];
    let events_before = ledger.events.len();
    // re-approving changes nothing beyond re-emitting the event
    ledger.approve_liquidity_provider(CAROL, CAROL).unwrap();
    assert_eq!(ledger.providers[0], record);
    assert_eq!(ledger.events.len(), events_before + 1);
    assert_eq!(
        ledger.events.last(),
        Some(&Event::LiquidityProviderApproved(LiquidityProviderApproved {
            liquidity_provider: CAROL
        }))
    );
}

#[test]
fn approval_is_not_required_to_remove() {
    let mut ledger = Ledger::initialize(7, ADMIN, 100);
    ledger.add_liquidity(CAROL, 500).unwrap();
    assert!(!ledger.providers[0].approved);
    ledger.remove_liquidity(CAROL, CAROL, 500).unwrap();
    assert_eq!(ledger.providers[0].amount, 0);
}

#[test]
fn rebalance_overwrites_the_counter_without_reconciling() {
    let mut ledger = Ledger::initialize(7, ADMIN, 100);
    ledger.add_liquidity(CAROL, 2_000_000).unwrap();
    ledger.rebalance_liquidity().unwrap();
    assert_eq!(ledger.pool.total_liquidity, 1_000_000);
    // the record is untouched: counter and records now diverge
    assert_eq!(ledger.providers[0].amount, 2_000_000);
    assert_eq!(
        ledger.events.last(),
        Some(&Event::LiquidityRebalanced(LiquidityRebalanced { new_liquidity: 1_000_000 }))
    );
    // with the counter detached, a withdrawal covered by the record can
    // still underflow the pool counter
    let r = ledger.remove_liquidity(CAROL, CAROL, 1_500_000);
    assert_eq!(r, Err(OpError::Math(ErrorCode::MathOverflow)));
    assert_eq!(ledger.providers[0].amount, 2_000_000);
    assert_eq!(ledger.pool.total_liquidity, 1_000_000);
}
