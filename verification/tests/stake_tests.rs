use zkarb::errors::CustomError;
use zkarb::errors::ErrorCode;
use zkarb::errors::OpError;
use zkarb::events::Event;
use zkarb::events::StakeDeposited;
use zkarb::events::StakeWithdrawn;
use zkarb::events::BonusRewardEligible;
use zkarb::ledger::Ledger;
use zkarb::transfer::TokenAccountRef;
use zkarb::transfer::TransferSigner;
use zkarb::VaultRole;

const ADMIN: u64 = 1;
const ALICE: u64 = 10;
const BOB: u64 = 11;

#[test]
fn initialize_zeroes_counters_and_binds_admin() {
    let ledger = Ledger::initialize(7, ADMIN, 100);
    assert_eq!(ledger.pool_id, 7);
    assert_eq!(ledger.pool.admin, ADMIN);
    assert_eq!(ledger.pool.total_staked, 0);
    assert_eq!(ledger.pool.total_liquidity, 0);
    assert_eq!(ledger.pool.accumulated_fee_tokens, 0);
    assert_eq!(ledger.pool.dynamic_fee_multiplier, 100);
    assert_eq!(ledger.fee_vault_sol_lamports, 0);
    assert!(ledger.stakes.is_empty());
    assert!(ledger.providers.is_empty());
    assert!(ledger.events.is_empty());
}

#[test]
fn stake_creates_record_with_fresh_lockup() {
    let mut ledger = Ledger::initialize(7, ADMIN, 100);
    let directive = ledger.stake_tokens(ALICE, 1_000, 1_000).unwrap();
    assert_eq!(directive.from, TokenAccountRef::User { owner: ALICE });
    assert_eq!(directive.to, TokenAccountRef::Vault { role: VaultRole::Staking });
    assert_eq!(directive.authority, TransferSigner::User { id: ALICE });
    assert_eq!(directive.amount, 1_000);
    assert_eq!(ledger.stakes.len(), 1);
    assert_eq!(ledger.stakes[0].owner, ALICE);
    assert_eq!(ledger.stakes[0].amount, 1_000);
    assert_eq!(ledger.stakes[0].staked_at, 1_000);
    assert_eq!(ledger.stakes[0].lockup_until, 1_300);
    assert_eq!(ledger.pool.total_staked, 1_000);
    assert_eq!(
        ledger.events.last(),
        Some(&Event::StakeDeposited(StakeDeposited { user: ALICE, amount: 1_000 }))
    );
}

#[test]
fn restake_resets_full_lockup_window() {
    let mut ledger = Ledger::initialize(7, ADMIN, 100);
    ledger.stake_tokens(ALICE, 1_000, 500).unwrap();
    // well after the first lock elapsed, a new deposit locks everything again
    ledger.stake_tokens(ALICE, 10_000, 200).unwrap();
    assert_eq!(ledger.stakes.len(), 1);
    assert_eq!(ledger.stakes[0].amount, 700);
    assert_eq!(ledger.stakes[0].staked_at, 10_000);
    assert_eq!(ledger.stakes[0].lockup_until, 10_300);
    // the old balance is locked too: withdrawing right away fails
    let r = ledger.withdraw_stake(ALICE, ALICE, 10_100, 100);
    assert_eq!(r, Err(OpError::Custom(CustomError::LockupPeriodNotExpired)));
}

#[test]
fn stake_totals_match_record_sums_over_a_sequence() {
    let mut ledger = Ledger::initialize(7, ADMIN, 100);
    ledger.stake_tokens(ALICE, 1_000, 400).unwrap();
    ledger.stake_tokens(BOB, 1_010, 250).unwrap();
    ledger.stake_tokens(ALICE, 1_020, 100).unwrap();
    ledger.withdraw_stake(BOB, BOB, 2_000, 50).unwrap();
    let sum: u64 = ledger.stakes.iter().map(|r| r.amount).sum();
    assert_eq!(ledger.pool.total_staked, sum);
    assert_eq!(sum, 700);
}

#[test]
fn withdraw_before_lockup_fails_and_changes_nothing() {
    let mut ledger = Ledger::initialize(7, ADMIN, 100);
    ledger.stake_tokens(ALICE, 1_000, 1_000).unwrap();
    let events_before = ledger.events.len();
    let r = ledger.withdraw_stake(ALICE, ALICE, 1_299, 500);
    assert_eq!(r, Err(OpError::Custom(CustomError::LockupPeriodNotExpired)));
    assert_eq!(ledger.stakes[0].amount, 1_000);
    assert_eq!(ledger.pool.total_staked, 1_000);
    assert_eq!(ledger.events.len(), events_before);
}

#[test]
fn withdraw_more_than_staked_fails_and_changes_nothing() {
    let mut ledger = Ledger::initialize(7, ADMIN, 100);
    ledger.stake_tokens(ALICE, 1_000, 1_000).unwrap();
    let r = ledger.withdraw_stake(ALICE, ALICE, 2_000, 1_001);
    assert_eq!(r, Err(OpError::Custom(CustomError::InsufficientStakedBalance)));
    assert_eq!(ledger.stakes[0].amount, 1_000);
    assert_eq!(ledger.pool.total_staked, 1_000);
}

#[test]
fn withdraw_by_non_owner_is_unauthorized() {
    let mut ledger = Ledger::initialize(7, ADMIN, 100);
    ledger.stake_tokens(ALICE, 1_000, 1_000).unwrap();
    let r = ledger.withdraw_stake(ALICE, BOB, 2_000, 100);
    assert_eq!(r, Err(OpError::Custom(CustomError::Unauthorized)));
    let r = ledger.withdraw_stake(BOB, BOB, 2_000, 100);
    assert_eq!(r, Err(OpError::Custom(CustomError::Unauthorized)));
    assert_eq!(ledger.stakes[0].amount, 1_000);
    assert_eq!(ledger.pool.total_staked, 1_000);
}

#[test]
fn stake_overflowing_the_pool_counter_fails_and_changes_nothing() {
    let mut ledger = Ledger::initialize(7, ADMIN, 100);
    ledger.stake_tokens(ALICE, 1_000, u64::MAX).unwrap();
    let stakes_before = ledger.stakes.clone();
    let pool_before = ledger.pool;
    let events_before = ledger.events.len();
    // a second actor's deposit would push the pool counter past u64::MAX
    let r = ledger.stake_tokens(BOB, 1_010, 1);
    assert_eq!(r, Err(OpError::Math(ErrorCode::MathOverflow)));
    assert_eq!(ledger.stakes, stakes_before);
    assert_eq!(ledger.pool, pool_before);
    assert_eq!(ledger.events.len(), events_before);
}

#[test]
fn stake_overflowing_the_record_fails_and_changes_nothing() {
    let mut ledger = Ledger::initialize(7, ADMIN, 100);
    ledger.stake_tokens(ALICE, 1_000, u64::MAX).unwrap();
    let r = ledger.stake_tokens(ALICE, 1_010, 1);
    assert_eq!(r, Err(OpError::Math(ErrorCode::MathOverflow)));
    assert_eq!(ledger.stakes[0].amount, u64::MAX);
    assert_eq!(ledger.stakes[0].staked_at, 1_000);
    assert_eq!(ledger.pool.total_staked, u64::MAX);
}

#[test]
fn withdraw_after_bonus_window_announces_bonus() {
    let mut ledger = Ledger::initialize(7, ADMIN, 100);
    ledger.stake_tokens(ALICE, 1_000, 1_000).unwrap();
    let now = 1_000 + 604_800;
    ledger.withdraw_stake(ALICE, ALICE, now, 600).unwrap();
    let n = ledger.events.len();
    assert_eq!(
        ledger.events[n - 2],
        Event::BonusRewardEligible(BonusRewardEligible { user: ALICE, bonus: 30 })
    );
    assert_eq!(
        ledger.events[n - 1],
        Event::StakeWithdrawn(StakeWithdrawn { user: ALICE, amount: 600 })
    );
}

#[test]
fn stake_then_withdraw_end_to_end() {
    let mut ledger = Ledger::initialize(7, ADMIN, 100);
    ledger.stake_tokens(ALICE, 1_000, 1_000).unwrap();
    assert_eq!(ledger.stakes[0].amount, 1_000);
    assert_eq!(ledger.pool.total_staked, 1_000);
    assert_eq!(ledger.stakes[0].lockup_until, 1_300);

    // immediate withdrawal is rejected: the lock has not elapsed
    let r = ledger.withdraw_stake(ALICE, ALICE, 1_001, 500);
    assert_eq!(r, Err(OpError::Custom(CustomError::LockupPeriodNotExpired)));

    // past the lockup the withdrawal goes through
    let events_before = ledger.events.len();
    let directive = ledger.withdraw_stake(ALICE, ALICE, 1_400, 500).unwrap();
    assert_eq!(directive.from, TokenAccountRef::Vault { role: VaultRole::Staking });
    assert_eq!(directive.to, TokenAccountRef::User { owner: ALICE });
    assert_eq!(ledger.stakes[0].amount, 500);
    assert_eq!(ledger.pool.total_staked, 500);
    // exactly one stake-withdrawn event and no bonus: staked well under the bonus window
    assert_eq!(ledger.events.len(), events_before + 1);
    assert_eq!(
        ledger.events.last(),
        Some(&Event::StakeWithdrawn(StakeWithdrawn { user: ALICE, amount: 500 }))
    );
}
