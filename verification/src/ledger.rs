//! The ledger state machine: the pool singleton together with its stake and
//! liquidity registries, the native fee vault balance and the append-only
//! event log.
//!
//! Every operation is all-or-nothing: a precondition or arithmetic failure
//! returns the one error kind it hit and leaves the whole ledger exactly as
//! it was. Operations that move tokens return a directive for the external
//! transfer service; the host performs the actual custody movement.

use vstd::prelude::*;

use crate::authority::VaultRole;
use crate::authority::spec_vault_authority;
use crate::authority::spec_vault_bump;
use crate::authority::derive_vault_authority;
use crate::authority::derive_vault_bump;
use crate::errors::CustomError;
use crate::errors::ErrorCode;
use crate::errors::OpError;
use crate::events::ArbitrageExecuted;
use crate::events::BonusRewardEligible;
use crate::events::Event;
use crate::events::FeeMultiplierUpdated;
use crate::events::FeeTokensBurned;
use crate::events::LiquidityDeposited;
use crate::events::LiquidityProviderApproved;
use crate::events::LiquidityRebalanced;
use crate::events::LiquidityRemoved;
use crate::events::StakeDeposited;
use crate::events::StakeWithdrawn;
use crate::helpers::get_arbitrage_profit;
use crate::helpers::get_optimal_liquidity;
use crate::helpers::get_random_delay;
use crate::helpers::verify_zk_snark;
use crate::state::BONUS_ELIGIBLE_SECONDS;
use crate::state::LOCKUP_SECONDS;
use crate::state::LiquidityProvider;
use crate::state::Pool;
use crate::state::StakeAccount;
use crate::transfer::BurnDirective;
use crate::transfer::TokenAccountRef;
use crate::transfer::TransferDirective;
use crate::transfer::TransferSigner;

verus! {

/// Sum of the staked amounts over a sequence of stake records.
pub open spec fn sum_stake_amounts(records: Seq<StakeAccount>) -> int
    decreases records.len(),
{
    if records.len() == 0 {
        0
    } else {
        sum_stake_amounts(records.drop_last()) + records.last().amount
    }
}

/// Sum of the deposited amounts over a sequence of liquidity records.
pub open spec fn sum_liquidity_amounts(records: Seq<LiquidityProvider>) -> int
    decreases records.len(),
{
    if records.len() == 0 {
        0
    } else {
        sum_liquidity_amounts(records.drop_last()) + records.last().amount
    }
}

proof fn lemma_sum_stake_push(records: Seq<StakeAccount>, record: StakeAccount)
    ensures
        sum_stake_amounts(records.push(record)) == sum_stake_amounts(records) + record.amount,
{
    assert(records.push(record).drop_last() =~= records);
}

proof fn lemma_sum_liquidity_push(records: Seq<LiquidityProvider>, record: LiquidityProvider)
    ensures
        sum_liquidity_amounts(records.push(record)) == sum_liquidity_amounts(records)
            + record.amount,
{
    assert(records.push(record).drop_last() =~= records);
}

proof fn lemma_sum_stake_update(records: Seq<StakeAccount>, i: int, record: StakeAccount)
    requires
        0 <= i < records.len(),
    ensures
        sum_stake_amounts(records.update(i, record)) == sum_stake_amounts(records)
            - records[i].amount + record.amount,
    decreases records.len(),
{
    if i == records.len() - 1 {
        assert(records.update(i, record).drop_last() =~= records.drop_last());
    } else {
        assert(records.update(i, record).drop_last() =~= records.drop_last().update(i, record));
        lemma_sum_stake_update(records.drop_last(), i, record);
    }
}

proof fn lemma_sum_liquidity_update(records: Seq<LiquidityProvider>, i: int, record:
    LiquidityProvider)
    requires
        0 <= i < records.len(),
    ensures
        sum_liquidity_amounts(records.update(i, record)) == sum_liquidity_amounts(records)
            - records[i].amount + record.amount,
    decreases records.len(),
{
    if i == records.len() - 1 {
        assert(records.update(i, record).drop_last() =~= records.drop_last());
    } else {
        assert(records.update(i, record).drop_last() =~= records.drop_last().update(i, record));
        lemma_sum_liquidity_update(records.drop_last(), i, record);
    }
}

proof fn lemma_sum_stake_at_least(records: Seq<StakeAccount>, i: int)
    requires
        0 <= i < records.len(),
    ensures
        sum_stake_amounts(records) >= records[i].amount,
    decreases records.len(),
{
    if i == records.len() - 1 {
        lemma_sum_stake_nonneg(records.drop_last());
    } else {
        lemma_sum_stake_at_least(records.drop_last(), i);
    }
}

proof fn lemma_sum_stake_nonneg(records: Seq<StakeAccount>)
    ensures
        sum_stake_amounts(records) >= 0,
    decreases records.len(),
{
    if records.len() > 0 {
        lemma_sum_stake_nonneg(records.drop_last());
    }
}

/// The whole ledger of one pool deployment.
pub struct Ledger {
    pub pool_id: u64,
    pub pool: Pool,
    pub stakes: Vec<StakeAccount>,
    pub providers: Vec<LiquidityProvider>,
    pub fee_vault_sol_lamports: u64,
    pub events: Vec<Event>,
}

impl Ledger {
    /// No two stake records share an owner.
    pub open spec fn stake_owners_unique(self) -> bool {
        forall|i: int, j: int|
            0 <= i < j < self.stakes@.len() ==> self.stakes@[i].owner != self.stakes@[j].owner
    }

    /// No two liquidity records share an owner.
    pub open spec fn provider_owners_unique(self) -> bool {
        forall|i: int, j: int|
            0 <= i < j < self.providers@.len() ==> self.providers@[i].owner
                != self.providers@[j].owner
    }

    /// Every stake record carries a nonnegative deposit time and a lockup
    /// exactly one window after it.
    pub open spec fn stakes_shaped(self) -> bool {
        forall|i: int| 0 <= i < self.stakes@.len() ==> (#[trigger] self.stakes@[i]).wf()
    }

    /// The pool's stored bump bytes are the genuine derivations for its
    /// three token vault authorities.
    pub open spec fn bumps_derived(self) -> bool {
        &&& self.pool.staking_vault_bump == spec_vault_bump(self.pool_id, VaultRole::Staking)
        &&& self.pool.liquidity_vault_bump == spec_vault_bump(self.pool_id, VaultRole::Liquidity)
        &&& self.pool.fee_vault_bump == spec_vault_bump(self.pool_id, VaultRole::Fee)
    }

    /// Well-formedness of the ledger. It includes conservation of stake:
    /// the pool's `total_staked` counter equals the sum of all stake record
    /// amounts. Every operation preserves this.
    pub open spec fn wf(self) -> bool {
        &&& self.stake_owners_unique()
        &&& self.provider_owners_unique()
        &&& self.stakes_shaped()
        &&& self.bumps_derived()
        &&& self.pool.total_staked == sum_stake_amounts(self.stakes@)
    }

    /// Conservation of liquidity: the pool's `total_liquidity` counter
    /// equals the sum of all liquidity record amounts. Every operation but
    /// `rebalance_liquidity` preserves this; `rebalance_liquidity`
    /// overwrites the counter without reconciling the records.
    pub open spec fn liquidity_consistent(self) -> bool {
        self.pool.total_liquidity == sum_liquidity_amounts(self.providers@)
    }

    /// Some stake record belongs to `owner`.
    pub open spec fn has_stake(self, owner: u64) -> bool {
        exists|i: int| 0 <= i < self.stakes@.len() && self.stakes@[i].owner == owner
    }

    /// Index of `owner`'s stake record (meaningful when `has_stake`).
    pub open spec fn stake_index(self, owner: u64) -> int {
        choose|i: int| 0 <= i < self.stakes@.len() && self.stakes@[i].owner == owner
    }

    /// `owner`'s stake record (meaningful when `has_stake`).
    pub open spec fn stake_record_of(self, owner: u64) -> StakeAccount {
        self.stakes@[self.stake_index(owner)]
    }

    /// `owner`'s staked amount; zero when no record exists.
    pub open spec fn stake_amount_of(self, owner: u64) -> u64 {
        if self.has_stake(owner) {
            self.stake_record_of(owner).amount
        } else {
            0
        }
    }

    /// Some liquidity record belongs to `owner`.
    pub open spec fn has_provider(self, owner: u64) -> bool {
        exists|i: int| 0 <= i < self.providers@.len() && self.providers@[i].owner == owner
    }

    /// Index of `owner`'s liquidity record (meaningful when `has_provider`).
    pub open spec fn provider_index(self, owner: u64) -> int {
        choose|i: int| 0 <= i < self.providers@.len() && self.providers@[i].owner == owner
    }

    /// `owner`'s liquidity record (meaningful when `has_provider`).
    pub open spec fn provider_record_of(self, owner: u64) -> LiquidityProvider {
        self.providers@[self.provider_index(owner)]
    }

    /// `owner`'s deposited liquidity; zero when no record exists.
    pub open spec fn provider_amount_of(self, owner: u64) -> u64 {
        if self.has_provider(owner) {
            self.provider_record_of(owner).amount
        } else {
            0
        }
    }

    /// The ledger `post` is byte-for-byte the ledger `self`: what every
    /// failed operation guarantees about its pre- and post-state.
    pub open spec fn same_state(self, post: Ledger) -> bool {
        &&& post.pool_id == self.pool_id
        &&& post.pool == self.pool
        &&& post.stakes@ == self.stakes@
        &&& post.providers@ == self.providers@
        &&& post.fee_vault_sol_lamports == self.fee_vault_sol_lamports
        &&& post.events@ == self.events@
    }

    /// Creates the pool ledger: admin bound to the creator, all counters
    /// zero, the fee multiplier set from the input, the four vault
    /// authorities established, and empty registries and event log.
    pub fn initialize(pool_id: u64, admin: u64, fee_multiplier: u64) -> (ledger: Ledger)
        ensures
            ledger.pool_id == pool_id,
            ledger.pool == (Pool {
                admin,
                total_staked: 0,
                total_liquidity: 0,
                accumulated_fee_tokens: 0,
                dynamic_fee_multiplier: fee_multiplier,
                staking_vault_bump: spec_vault_bump(pool_id, VaultRole::Staking),
                liquidity_vault_bump: spec_vault_bump(pool_id, VaultRole::Liquidity),
                fee_vault_bump: spec_vault_bump(pool_id, VaultRole::Fee),
            }),
            ledger.stakes@.len() == 0,
            ledger.providers@.len() == 0,
            ledger.fee_vault_sol_lamports == 0,
            ledger.events@.len() == 0,
            ledger.wf(),
            ledger.liquidity_consistent(),
    {
        let pool = Pool {
            admin,
            total_staked: 0,
            total_liquidity: 0,
            accumulated_fee_tokens: 0,
            dynamic_fee_multiplier: fee_multiplier,
            staking_vault_bump: derive_vault_bump(pool_id, VaultRole::Staking),
            liquidity_vault_bump: derive_vault_bump(pool_id, VaultRole::Liquidity),
            fee_vault_bump: derive_vault_bump(pool_id, VaultRole::Fee),
        };
        Ledger {
            pool_id,
            pool,
            stakes: Vec::new(),
            providers: Vec::new(),
            fee_vault_sol_lamports: 0,
            events: Vec::new(),
        }
    }

    /// Linear scan for `owner`'s stake record.
    fn find_stake_index(&self, owner: u64) -> (found: Option<usize>)
        ensures
            match found {
                Some(i) => i < self.stakes@.len() && self.stakes@[i as int].owner == owner,
                None => !self.has_stake(owner),
            },
    {
        let n = self.stakes.len();
        let mut k: usize = 0;
        while k < n
            invariant
                n == self.stakes@.len(),
                k <= n,
                forall|j: int| 0 <= j < k ==> self.stakes@[j].owner != owner,
            decreases n - k,
        {
            if self.stakes[k].owner == owner {
                return Some(k);
            }
            k = k + 1;
        }
        None
    }

    /// Linear scan for `owner`'s liquidity record.
    fn find_provider_index(&self, owner: u64) -> (found: Option<usize>)
        ensures
            match found {
                Some(i) => i < self.providers@.len() && self.providers@[i as int].owner == owner,
                None => !self.has_provider(owner),
            },
    {
        let n = self.providers.len();
        let mut k: usize = 0;
        while k < n
            invariant
                n == self.providers@.len(),
                k <= n,
                forall|j: int| 0 <= j < k ==> self.providers@[j].owner != owner,
            decreases n - k,
        {
            if self.providers[k].owner == owner {
                return Some(k);
            }
            k = k + 1;
        }
        None
    }
}

/// The stake record `stake_tokens` leaves for `user`: the enlarged balance,
/// a fresh deposit time and a lockup one full window from `now`, whatever
/// lock was previously remaining.
pub open spec fn spec_staked_record(prev_amount: u64, user: u64, now: i64, amount: u64)
    -> StakeAccount {
    StakeAccount {
        owner: user,
        amount: (prev_amount + amount) as u64,
        staked_at: now,
        lockup_until: (now + LOCKUP_SECONDS) as i64,
    }
}

impl Ledger {
    /// Links a concrete index found by scanning to the `stake_index` spec
    /// lookup: with unique owners they are the same record.
    proof fn lemma_stake_index_is(self, owner: u64, i: int)
        requires
            self.stake_owners_unique(),
            0 <= i < self.stakes@.len(),
            self.stakes@[i].owner == owner,
        ensures
            self.has_stake(owner),
            self.stake_index(owner) == i,
    {
        assert(self.has_stake(owner));
        let j = self.stake_index(owner);
        assert(0 <= j < self.stakes@.len() && self.stakes@[j].owner == owner);
        if j < i {
            assert(self.stakes@[j].owner != self.stakes@[i].owner);
        } else if i < j {
            assert(self.stakes@[i].owner != self.stakes@[j].owner);
        }
    }

    /// Links a concrete index found by scanning to the `provider_index`
    /// spec lookup: with unique owners they are the same record.
    proof fn lemma_provider_index_is(self, owner: u64, i: int)
        requires
            self.provider_owners_unique(),
            0 <= i < self.providers@.len(),
            self.providers@[i].owner == owner,
        ensures
            self.has_provider(owner),
            self.provider_index(owner) == i,
    {
        assert(self.has_provider(owner));
        let j = self.provider_index(owner);
        assert(0 <= j < self.providers@.len() && self.providers@[j].owner == owner);
        if j < i {
            assert(self.providers@[j].owner != self.providers@[i].owner);
        } else if i < j {
            assert(self.providers@[i].owner != self.providers@[j].owner);
        }
    }

    /// Both checked additions of a stake deposit fit: the user's record and
    /// the pool counter stay within `u64`.
    pub open spec fn stake_fits(self, user: u64, amount: u64) -> bool {
        &&& self.stake_amount_of(user) + amount <= u64::MAX
        &&& self.pool.total_staked + amount <= u64::MAX
    }

    /// Deposits `amount` of the staking token. The host first moves the
    /// tokens from the caller's holding into the staking vault under the
    /// caller's own authority (the returned directive); the ledger creates
    /// or updates the caller's stake record and raises the pool counter.
    /// Any overflow aborts with the arithmetic error and changes nothing.
    pub fn stake_tokens(&mut self, user: u64, now: i64, amount: u64) -> (outcome: Result<
        TransferDirective,
        OpError,
    >)
        requires
            old(self).wf(),
            0 <= now,
            now + LOCKUP_SECONDS <= i64::MAX,
        ensures
            final(self).wf(),
            old(self).liquidity_consistent() ==> final(self).liquidity_consistent(),
            !old(self).stake_fits(user, amount) ==> outcome == Err::<TransferDirective, OpError>(
                OpError::Math(ErrorCode::MathOverflow),
            ) && old(self).same_state(*final(self)),
            old(self).stake_fits(user, amount) ==> {
                &&& outcome == Ok::<TransferDirective, OpError>((TransferDirective {
                    from: TokenAccountRef::User { owner: user },
                    to: TokenAccountRef::Vault { role: VaultRole::Staking },
                    authority: TransferSigner::User { id: user },
                    amount,
                }))
                &&& final(self).pool == (Pool {
                    total_staked: (old(self).pool.total_staked + amount) as u64,
                    ..old(self).pool
                })
                &&& (if old(self).has_stake(user) {
                    final(self).stakes@ == old(self).stakes@.update(
                        old(self).stake_index(user),
                        spec_staked_record(old(self).stake_amount_of(user), user, now, amount),
                    )
                } else {
                    final(self).stakes@ == old(self).stakes@.push(
                        spec_staked_record(0, user, now, amount),
                    )
                })
                &&& final(self).providers@ == old(self).providers@
                &&& final(self).fee_vault_sol_lamports == old(self).fee_vault_sol_lamports
                &&& final(self).events@ == old(self).events@.push(
                    Event::StakeDeposited((StakeDeposited { user, amount })),
                )
                &&& final(self).pool_id == old(self).pool_id
            },
    {
        let ghost pre = *self;
        let directive = TransferDirective {
            from: TokenAccountRef::User { owner: user },
            to: TokenAccountRef::Vault { role: VaultRole::Staking },
            authority: TransferSigner::User { id: user },
            amount,
        };
        match self.find_stake_index(user) {
            Some(i) => {
                proof {
                    pre.lemma_stake_index_is(user, i as int);
                }
                let rec = self.stakes[i];
                let new_amount = match rec.amount.checked_add(amount) {
                    Some(v) => v,
                    None => {
                        return Err(OpError::Math(ErrorCode::MathOverflow));
                    },
                };
                let new_total = match self.pool.total_staked.checked_add(amount) {
                    Some(v) => v,
                    None => {
                        return Err(OpError::Math(ErrorCode::MathOverflow));
                    },
                };
                let updated = StakeAccount {
                    owner: user,
                    amount: new_amount,
                    staked_at: now,
                    lockup_until: now + LOCKUP_SECONDS,
                };
                self.stakes[i] = updated;
                self.pool.total_staked = new_total;
                self.events.push(Event::StakeDeposited(StakeDeposited { user, amount }));
                proof {
                    lemma_sum_stake_update(pre.stakes@, i as int, updated);
                }
                Ok(directive)
            },
            None => {
                let new_total = match self.pool.total_staked.checked_add(amount) {
                    Some(v) => v,
                    None => {
                        return Err(OpError::Math(ErrorCode::MathOverflow));
                    },
                };
                let record = StakeAccount {
                    owner: user,
                    amount,
                    staked_at: now,
                    lockup_until: now + LOCKUP_SECONDS,
                };
                self.stakes.push(record);
                self.pool.total_staked = new_total;
                self.events.push(Event::StakeDeposited(StakeDeposited { user, amount }));
                proof {
                    lemma_sum_stake_push(pre.stakes@, record);
                }
                Ok(directive)
            },
        }
    }

    /// Withdraws `amount` from a stake record. The checks run in order:
    /// the caller must own the record, the lockup must have elapsed, and
    /// the record must cover the amount; each failure aborts with its error
    /// and changes nothing. On success the record and the pool counter go
    /// down together, the staking vault pays the caller under the pool's
    /// derived authority, and a withdrawal held at least the bonus window
    /// after its deposit additionally announces a bonus of a twentieth of
    /// the amount. Conservation of stake makes the pool counter's
    /// underflow check provably dead.
    pub fn withdraw_stake(&mut self, record_owner: u64, user: u64, now: i64, amount: u64)
        -> (outcome: Result<TransferDirective, OpError>)
        requires
            old(self).wf(),
        ensures
            final(self).wf(),
            old(self).liquidity_consistent() ==> final(self).liquidity_consistent(),
            !old(self).has_stake(record_owner) || user != record_owner ==> outcome == Err::<
                TransferDirective,
                OpError,
            >(OpError::Custom(CustomError::Unauthorized)) && old(self).same_state(*final(self)),
            old(self).has_stake(record_owner) && user == record_owner && now < old(
                self,
            ).stake_record_of(record_owner).lockup_until ==> outcome == Err::<
                TransferDirective,
                OpError,
            >(OpError::Custom(CustomError::LockupPeriodNotExpired)) && old(self).same_state(
                *final(self),
            ),
            old(self).has_stake(record_owner) && user == record_owner && now >= old(
                self,
            ).stake_record_of(record_owner).lockup_until && old(self).stake_record_of(
                record_owner,
            ).amount < amount ==> outcome == Err::<TransferDirective, OpError>(
                OpError::Custom(CustomError::InsufficientStakedBalance),
            ) && old(self).same_state(*final(self)),
            old(self).has_stake(record_owner) && user == record_owner && now >= old(
                self,
            ).stake_record_of(record_owner).lockup_until && old(self).stake_record_of(
                record_owner,
            ).amount >= amount ==> {
                let rec = old(self).stake_record_of(record_owner);
                &&& outcome == Ok::<TransferDirective, OpError>((TransferDirective {
                    from: TokenAccountRef::Vault { role: VaultRole::Staking },
                    to: TokenAccountRef::User { owner: user },
                    authority: TransferSigner::Pool {
                        authority: spec_vault_authority(old(self).pool_id, VaultRole::Staking),
                    },
                    amount,
                }))
                &&& final(self).pool == (Pool {
                    total_staked: (old(self).pool.total_staked - amount) as u64,
                    ..old(self).pool
                })
                &&& final(self).stakes@ == old(self).stakes@.update(
                    old(self).stake_index(record_owner),
                    (StakeAccount { amount: (rec.amount - amount) as u64, ..rec }),
                )
                &&& final(self).providers@ == old(self).providers@
                &&& final(self).fee_vault_sol_lamports == old(self).fee_vault_sol_lamports
                &&& final(self).events@ == (if now - rec.staked_at >= BONUS_ELIGIBLE_SECONDS {
                    old(self).events@.push(
                        Event::BonusRewardEligible((BonusRewardEligible {
                            user,
                            bonus: amount / 20,
                        })),
                    ).push(Event::StakeWithdrawn((StakeWithdrawn { user, amount })))
                } else {
                    old(self).events@.push(Event::StakeWithdrawn((StakeWithdrawn { user, amount })))
                })
                &&& final(self).pool_id == old(self).pool_id
            },
    {
        let ghost pre = *self;
        let found = match self.find_stake_index(record_owner) {
            Some(i) => i,
            None => {
                return Err(OpError::Custom(CustomError::Unauthorized));
            },
        };
        proof {
            pre.lemma_stake_index_is(record_owner, found as int);
        }
        let rec = self.stakes[found];
        if rec.owner != user {
            return Err(OpError::Custom(CustomError::Unauthorized));
        }
        if now < rec.lockup_until {
            return Err(OpError::Custom(CustomError::LockupPeriodNotExpired));
        }
        if rec.amount < amount {
            return Err(OpError::Custom(CustomError::InsufficientStakedBalance));
        }
        proof {
            lemma_sum_stake_at_least(pre.stakes@, found as int);
        }
        let new_amount = match rec.amount.checked_sub(amount) {
            Some(v) => v,
            None => {
                return Err(OpError::Math(ErrorCode::MathOverflow));
            },
        };
        let new_total = match self.pool.total_staked.checked_sub(amount) {
            Some(v) => v,
            None => {
                // dead: conservation of stake puts the pool counter at or
                // above every single record's balance
                return Err(OpError::Math(ErrorCode::MathOverflow));
            },
        };
        let updated = StakeAccount { amount: new_amount, ..rec };
        self.stakes[found] = updated;
        self.pool.total_staked = new_total;
        if now - rec.staked_at >= BONUS_ELIGIBLE_SECONDS {
            self.events.push(
                Event::BonusRewardEligible(BonusRewardEligible { user, bonus: amount / 20 }),
            );
        }
        self.events.push(Event::StakeWithdrawn(StakeWithdrawn { user, amount }));
        proof {
            lemma_sum_stake_update(pre.stakes@, found as int, updated);
        }
        Ok(
            TransferDirective {
                from: TokenAccountRef::Vault { role: VaultRole::Staking },
                to: TokenAccountRef::User { owner: user },
                authority: TransferSigner::Pool {
                    authority: derive_vault_authority(self.pool_id, VaultRole::Staking),
                },
                amount,
            },
        )
    }
}

impl Ledger {
    /// Both checked additions of a liquidity deposit fit: the provider's
    /// record and the pool counter stay within `u64`.
    pub open spec fn liquidity_fits(self, provider: u64, amount: u64) -> bool {
        &&& self.provider_amount_of(provider) + amount <= u64::MAX
        &&& self.pool.total_liquidity + amount <= u64::MAX
    }

    /// Deposits `amount` of the pool token as liquidity. The host first
    /// moves the tokens from the caller's holding into the liquidity vault
    /// under the caller's own authority (the returned directive); the
    /// ledger creates or updates the caller's record and raises the pool
    /// counter. A first-time provider starts unapproved. Any overflow
    /// aborts with the arithmetic error and changes nothing.
    pub fn add_liquidity(&mut self, liquidity_provider: u64, amount: u64) -> (outcome: Result<
        TransferDirective,
        OpError,
    >)
        requires
            old(self).wf(),
        ensures
            final(self).wf(),
            !old(self).liquidity_fits(liquidity_provider, amount) ==> outcome == Err::<
                TransferDirective,
                OpError,
            >(OpError::Math(ErrorCode::MathOverflow)) && old(self).same_state(*final(self)),
            old(self).liquidity_fits(liquidity_provider, amount) ==> {
                &&& outcome == Ok::<TransferDirective, OpError>((TransferDirective {
                    from: TokenAccountRef::User { owner: liquidity_provider },
                    to: TokenAccountRef::Vault { role: VaultRole::Liquidity },
                    authority: TransferSigner::User { id: liquidity_provider },
                    amount,
                }))
                &&& final(self).pool == (Pool {
                    total_liquidity: (old(self).pool.total_liquidity + amount) as u64,
                    ..old(self).pool
                })
                &&& (if old(self).has_provider(liquidity_provider) {
                    final(self).providers@ == old(self).providers@.update(
                        old(self).provider_index(liquidity_provider),
                        (LiquidityProvider {
                            amount: (old(self).provider_amount_of(liquidity_provider)
                                + amount) as u64,
                            ..old(self).provider_record_of(liquidity_provider)
                        }),
                    )
                } else {
                    final(self).providers@ == old(self).providers@.push(
                        (LiquidityProvider { owner: liquidity_provider, amount, approved: false }),
                    )
                })
                &&& final(self).stakes@ == old(self).stakes@
                &&& final(self).fee_vault_sol_lamports == old(self).fee_vault_sol_lamports
                &&& final(self).events@ == old(self).events@.push(
                    Event::LiquidityDeposited((LiquidityDeposited { liquidity_provider, amount })),
                )
                &&& final(self).pool_id == old(self).pool_id
                &&& (old(self).liquidity_consistent() ==> final(self).liquidity_consistent())
            },
    {
        let ghost pre = *self;
        let directive = TransferDirective {
            from: TokenAccountRef::User { owner: liquidity_provider },
            to: TokenAccountRef::Vault { role: VaultRole::Liquidity },
            authority: TransferSigner::User { id: liquidity_provider },
            amount,
        };
        match self.find_provider_index(liquidity_provider) {
            Some(i) => {
                proof {
                    pre.lemma_provider_index_is(liquidity_provider, i as int);
                }
                let rec = self.providers[i];
                let new_amount = match rec.amount.checked_add(amount) {
                    Some(v) => v,
                    None => {
                        return Err(OpError::Math(ErrorCode::MathOverflow));
                    },
                };
                let new_total = match self.pool.total_liquidity.checked_add(amount) {
                    Some(v) => v,
                    None => {
                        return Err(OpError::Math(ErrorCode::MathOverflow));
                    },
                };
                let updated = LiquidityProvider { amount: new_amount, ..rec };
                self.providers[i] = updated;
                self.pool.total_liquidity = new_total;
                self.events.push(
                    Event::LiquidityDeposited(LiquidityDeposited { liquidity_provider, amount }),
                );
                proof {
                    lemma_sum_liquidity_update(pre.providers@, i as int, updated);
                }
                Ok(directive)
            },
            None => {
                let new_total = match self.pool.total_liquidity.checked_add(amount) {
                    Some(v) => v,
                    None => {
                        return Err(OpError::Math(ErrorCode::MathOverflow));
                    },
                };
                let record = LiquidityProvider { owner: liquidity_provider, amount, approved: false };
                self.providers.push(record);
                self.pool.total_liquidity = new_total;
                self.events.push(
                    Event::LiquidityDeposited(LiquidityDeposited { liquidity_provider, amount }),
                );
                proof {
                    lemma_sum_liquidity_push(pre.providers@, record);
                }
                Ok(directive)
            },
        }
    }

    /// Withdraws `amount` of deposited liquidity. The caller must own the
    /// record and the record must cover the amount; the pool counter's own
    /// subtraction is checked as well, which can only fail after a
    /// rebalance has detached the counter from the records. On success the
    /// liquidity vault pays the caller under the pool's derived authority.
    /// Approval is not required to remove liquidity.
    pub fn remove_liquidity(&mut self, record_owner: u64, liquidity_provider: u64, amount: u64)
        -> (outcome: Result<TransferDirective, OpError>)
        requires
            old(self).wf(),
        ensures
            final(self).wf(),
            !old(self).has_provider(record_owner) || liquidity_provider != record_owner
                ==> outcome == Err::<TransferDirective, OpError>(
                OpError::Custom(CustomError::Unauthorized),
            ) && old(self).same_state(*final(self)),
            old(self).has_provider(record_owner) && liquidity_provider == record_owner && old(
                self,
            ).provider_record_of(record_owner).amount < amount ==> outcome == Err::<
                TransferDirective,
                OpError,
            >(OpError::Custom(CustomError::InsufficientLiquidity)) && old(self).same_state(
                *final(self),
            ),
            old(self).has_provider(record_owner) && liquidity_provider == record_owner && old(
                self,
            ).provider_record_of(record_owner).amount >= amount && old(self).pool.total_liquidity
                < amount ==> outcome == Err::<TransferDirective, OpError>(
                OpError::Math(ErrorCode::MathOverflow),
            ) && old(self).same_state(*final(self)),
            old(self).has_provider(record_owner) && liquidity_provider == record_owner && old(
                self,
            ).provider_record_of(record_owner).amount >= amount && old(self).pool.total_liquidity
                >= amount ==> {
                let rec = old(self).provider_record_of(record_owner);
                &&& outcome == Ok::<TransferDirective, OpError>((TransferDirective {
                    from: TokenAccountRef::Vault { role: VaultRole::Liquidity },
                    to: TokenAccountRef::User { owner: liquidity_provider },
                    authority: TransferSigner::Pool {
                        authority: spec_vault_authority(old(self).pool_id, VaultRole::Liquidity),
                    },
                    amount,
                }))
                &&& final(self).pool == (Pool {
                    total_liquidity: (old(self).pool.total_liquidity - amount) as u64,
                    ..old(self).pool
                })
                &&& final(self).providers@ == old(self).providers@.update(
                    old(self).provider_index(record_owner),
                    (LiquidityProvider { amount: (rec.amount - amount) as u64, ..rec }),
                )
                &&& final(self).stakes@ == old(self).stakes@
                &&& final(self).fee_vault_sol_lamports == old(self).fee_vault_sol_lamports
                &&& final(self).events@ == old(self).events@.push(
                    Event::LiquidityRemoved((LiquidityRemoved { liquidity_provider, amount })),
                )
                &&& final(self).pool_id == old(self).pool_id
                &&& (old(self).liquidity_consistent() ==> final(self).liquidity_consistent())
            },
    {
        let ghost pre = *self;
        let found = match self.find_provider_index(record_owner) {
            Some(i) => i,
            None => {
                return Err(OpError::Custom(CustomError::Unauthorized));
            },
        };
        proof {
            pre.lemma_provider_index_is(record_owner, found as int);
        }
        let rec = self.providers[found];
        if rec.owner != liquidity_provider {
            return Err(OpError::Custom(CustomError::Unauthorized));
        }
        if rec.amount < amount {
            return Err(OpError::Custom(CustomError::InsufficientLiquidity));
        }
        let new_amount = match rec.amount.checked_sub(amount) {
            Some(v) => v,
            None => {
                return Err(OpError::Math(ErrorCode::MathOverflow));
            },
        };
        let new_total = match self.pool.total_liquidity.checked_sub(amount) {
            Some(v) => v,
            None => {
                return Err(OpError::Math(ErrorCode::MathOverflow));
            },
        };
        let updated = LiquidityProvider { amount: new_amount, ..rec };
        self.providers[found] = updated;
        self.pool.total_liquidity = new_total;
        self.events.push(Event::LiquidityRemoved(LiquidityRemoved { liquidity_provider, amount }));
        proof {
            lemma_sum_liquidity_update(pre.providers@, found as int, updated);
        }
        Ok(
            TransferDirective {
                from: TokenAccountRef::Vault { role: VaultRole::Liquidity },
                to: TokenAccountRef::User { owner: liquidity_provider },
                authority: TransferSigner::Pool {
                    authority: derive_vault_authority(self.pool_id, VaultRole::Liquidity),
                },
                amount,
            },
        )
    }

    /// Flags a liquidity provider's record as approved. Only the matching
    /// provider signer passes the ownership check; the admin signer that
    /// accompanies the call takes no part in it. Re-approving an approved
    /// record is legal and changes nothing beyond re-emitting the event.
    pub fn approve_liquidity_provider(&mut self, record_owner: u64, liquidity_provider: u64)
        -> (outcome: Result<(), OpError>)
        requires
            old(self).wf(),
        ensures
            final(self).wf(),
            old(self).liquidity_consistent() ==> final(self).liquidity_consistent(),
            !old(self).has_provider(record_owner) || liquidity_provider != record_owner
                ==> outcome == Err::<(), OpError>(OpError::Custom(CustomError::Unauthorized))
                && old(self).same_state(*final(self)),
            old(self).has_provider(record_owner) && liquidity_provider == record_owner ==> {
                &&& outcome == Ok::<(), OpError>(())
                &&& final(self).providers@ == old(self).providers@.update(
                    old(self).provider_index(record_owner),
                    (LiquidityProvider {
                        approved: true,
                        ..old(self).provider_record_of(record_owner)
                    }),
                )
                &&& final(self).pool == old(self).pool
                &&& final(self).stakes@ == old(self).stakes@
                &&& final(self).fee_vault_sol_lamports == old(self).fee_vault_sol_lamports
                &&& final(self).events@ == old(self).events@.push(
                    Event::LiquidityProviderApproved(
                        (LiquidityProviderApproved { liquidity_provider }),
                    ),
                )
                &&& final(self).pool_id == old(self).pool_id
            },
    {
        let ghost pre = *self;
        let found = match self.find_provider_index(record_owner) {
            Some(i) => i,
            None => {
                return Err(OpError::Custom(CustomError::Unauthorized));
            },
        };
        proof {
            pre.lemma_provider_index_is(record_owner, found as int);
        }
        let rec = self.providers[found];
        if rec.owner != liquidity_provider {
            return Err(OpError::Custom(CustomError::Unauthorized));
        }
        let updated = LiquidityProvider { approved: true, ..rec };
        self.providers[found] = updated;
        self.events.push(
            Event::LiquidityProviderApproved(LiquidityProviderApproved { liquidity_provider }),
        );
        proof {
            lemma_sum_liquidity_update(pre.providers@, found as int, updated);
        }
        Ok(())
    }
}

/// The fee taken from a realized arbitrage profit: the profit scaled by the
/// parts-per-thousand multiplier, floor-divided.
pub open spec fn spec_arbitrage_fee(profit: u64, multiplier: u64) -> int {
    (profit * multiplier) / 1000
}

impl Ledger {
    /// Settles one proof-gated arbitrage. In order: the proof must verify,
    /// the estimated profit must meet the caller's declared minimum, and
    /// every fee computation and balance move must fit; each failure aborts
    /// with its error and changes nothing, including the trader's native
    /// balance. On success the fee is debited from the trader's native
    /// balance into the native fee vault, and the same fee figure is
    /// additionally accrued on the token-denominated counter: the dual
    /// bookkeeping takes two independent fees off one profit number, which
    /// is preserved deliberately. The emitted net profit saturates at zero
    /// rather than aborting.
    pub fn execute_arbitrage(
        &mut self,
        trader: u64,
        trader_lamports: &mut u64,
        amount: u64,
        min_profit: u64,
        zk_proof: Vec<u8>,
    ) -> (outcome: Result<(), OpError>)
        requires
            old(self).wf(),
        ensures
            final(self).wf(),
            old(self).liquidity_consistent() ==> final(self).liquidity_consistent(),
            zk_proof@.len() == 0 ==> outcome == Err::<(), OpError>(
                OpError::Custom(CustomError::InvalidProof),
            ) && old(self).same_state(*final(self)) && *final(trader_lamports) == *old(
                trader_lamports,
            ),
            zk_proof@.len() > 0 && amount / 10 < min_profit ==> outcome == Err::<(), OpError>(
                OpError::Custom(CustomError::SlippageTooHigh),
            ) && old(self).same_state(*final(self)) && *final(trader_lamports) == *old(
                trader_lamports,
            ),
            zk_proof@.len() > 0 && amount / 10 >= min_profit && (amount / 10) * old(
                self,
            ).pool.dynamic_fee_multiplier > u64::MAX ==> outcome == Err::<(), OpError>(
                OpError::Math(ErrorCode::MathOverflow),
            ) && old(self).same_state(*final(self)) && *final(trader_lamports) == *old(
                trader_lamports,
            ),
            ({
                let fee = spec_arbitrage_fee(amount / 10, old(self).pool.dynamic_fee_multiplier);
                zk_proof@.len() > 0 && amount / 10 >= min_profit && (amount / 10) * old(
                    self,
                ).pool.dynamic_fee_multiplier <= u64::MAX && (fee > *old(trader_lamports) || old(
                    self,
                ).fee_vault_sol_lamports + fee > u64::MAX || old(self).pool.accumulated_fee_tokens
                    + fee > u64::MAX) ==> outcome == Err::<(), OpError>(
                    OpError::Math(ErrorCode::MathOverflow),
                ) && old(self).same_state(*final(self)) && *final(trader_lamports) == *old(
                    trader_lamports,
                )
            }),
            ({
                let profit = amount / 10;
                let fee = spec_arbitrage_fee(profit, old(self).pool.dynamic_fee_multiplier);
                zk_proof@.len() > 0 && profit >= min_profit && profit * old(
                    self,
                ).pool.dynamic_fee_multiplier <= u64::MAX && fee <= *old(trader_lamports) && old(
                    self,
                ).fee_vault_sol_lamports + fee <= u64::MAX && old(self).pool.accumulated_fee_tokens
                    + fee <= u64::MAX ==> {
                    &&& outcome == Ok::<(), OpError>(())
                    &&& *final(trader_lamports) == *old(trader_lamports) - fee
                    &&& final(self).fee_vault_sol_lamports == old(self).fee_vault_sol_lamports
                        + fee
                    &&& final(self).pool == (Pool {
                        accumulated_fee_tokens: (old(self).pool.accumulated_fee_tokens
                            + fee) as u64,
                        ..old(self).pool
                    })
                    &&& final(self).stakes@ == old(self).stakes@
                    &&& final(self).providers@ == old(self).providers@
                    &&& final(self).events@ == old(self).events@.push(
                        Event::ArbitrageExecuted((ArbitrageExecuted {
                            trader,
                            amount,
                            profit: (if fee <= profit {
                                (profit - fee) as u64
                            } else {
                                0
                            }),
                        })),
                    )
                    &&& final(self).pool_id == old(self).pool_id
                }
            }),
    {
        let _delay = get_random_delay();
        if !verify_zk_snark(&zk_proof) {
            return Err(OpError::Custom(CustomError::InvalidProof));
        }
        let actual_profit = get_arbitrage_profit(amount);
        if actual_profit < min_profit {
            return Err(OpError::Custom(CustomError::SlippageTooHigh));
        }
        let fee_in_lamports = match actual_profit.checked_mul(self.pool.dynamic_fee_multiplier) {
            Some(scaled) => match scaled.checked_div(1000) {
                Some(fee) => fee,
                None => {
                    return Err(OpError::Math(ErrorCode::MathOverflow));
                },
            },
            None => {
                return Err(OpError::Math(ErrorCode::MathOverflow));
            },
        };
        let new_trader_lamports = match trader_lamports.checked_sub(fee_in_lamports) {
            Some(v) => v,
            None => {
                return Err(OpError::Math(ErrorCode::MathOverflow));
            },
        };
        let new_vault_lamports = match self.fee_vault_sol_lamports.checked_add(fee_in_lamports) {
            Some(v) => v,
            None => {
                return Err(OpError::Math(ErrorCode::MathOverflow));
            },
        };
        let fee_tokens = match actual_profit.checked_mul(self.pool.dynamic_fee_multiplier) {
            Some(scaled) => match scaled.checked_div(1000) {
                Some(fee) => fee,
                None => {
                    return Err(OpError::Math(ErrorCode::MathOverflow));
                },
            },
            None => {
                return Err(OpError::Math(ErrorCode::MathOverflow));
            },
        };
        let new_accumulated = match self.pool.accumulated_fee_tokens.checked_add(fee_tokens) {
            Some(v) => v,
            None => {
                return Err(OpError::Math(ErrorCode::MathOverflow));
            },
        };
        let net_profit = match actual_profit.checked_sub(fee_tokens) {
            Some(v) => v,
            None => 0,
        };
        *trader_lamports = new_trader_lamports;
        self.fee_vault_sol_lamports = new_vault_lamports;
        self.pool.accumulated_fee_tokens = new_accumulated;
        self.events.push(Event::ArbitrageExecuted(ArbitrageExecuted {
            trader,
            amount,
            profit: net_profit,
        }));
        match distribute_rewards(&mut self.pool, net_profit) {
            Ok(()) => Ok(()),
            Err(e) => Err(e),
        }
    }

    /// Overwrites the pool's liquidity counter with the optimizer's target.
    /// This deliberately does not reconcile against the individual
    /// liquidity records: after it, the counter and the records may
    /// diverge until deposits and withdrawals happen to line up again.
    pub fn rebalance_liquidity(&mut self) -> (outcome: Result<(), OpError>)
        requires
            old(self).wf(),
        ensures
            final(self).wf(),
            outcome == Ok::<(), OpError>(()),
            final(self).pool == (Pool { total_liquidity: 1_000_000, ..old(self).pool }),
            final(self).stakes@ == old(self).stakes@,
            final(self).providers@ == old(self).providers@,
            final(self).fee_vault_sol_lamports == old(self).fee_vault_sol_lamports,
            final(self).events@ == old(self).events@.push(
                Event::LiquidityRebalanced((LiquidityRebalanced { new_liquidity: 1_000_000 })),
            ),
            final(self).pool_id == old(self).pool_id,
    {
        let optimal_liquidity = get_optimal_liquidity();
        self.pool.total_liquidity = optimal_liquidity;
        self.events.push(
            Event::LiquidityRebalanced(LiquidityRebalanced { new_liquidity: optimal_liquidity }),
        );
        Ok(())
    }

    /// Overwrites the dynamic fee multiplier. Only the pool's admin may do
    /// so; the new value is not bounds-checked, so a multiplier of zero or
    /// above one thousand is legal at this layer.
    pub fn update_fee_multiplier(&mut self, admin: u64, new_multiplier: u64) -> (outcome: Result<
        (),
        OpError,
    >)
        requires
            old(self).wf(),
        ensures
            final(self).wf(),
            old(self).liquidity_consistent() ==> final(self).liquidity_consistent(),
            admin != old(self).pool.admin ==> outcome == Err::<(), OpError>(
                OpError::Custom(CustomError::Unauthorized),
            ) && old(self).same_state(*final(self)),
            admin == old(self).pool.admin ==> {
                &&& outcome == Ok::<(), OpError>(())
                &&& final(self).pool == (Pool {
                    dynamic_fee_multiplier: new_multiplier,
                    ..old(self).pool
                })
                &&& final(self).stakes@ == old(self).stakes@
                &&& final(self).providers@ == old(self).providers@
                &&& final(self).fee_vault_sol_lamports == old(self).fee_vault_sol_lamports
                &&& final(self).events@ == old(self).events@.push(
                    Event::FeeMultiplierUpdated((FeeMultiplierUpdated { new_multiplier })),
                )
                &&& final(self).pool_id == old(self).pool_id
            },
    {
        if admin != self.pool.admin {
            return Err(OpError::Custom(CustomError::Unauthorized));
        }
        self.pool.dynamic_fee_multiplier = new_multiplier;
        self.events.push(Event::FeeMultiplierUpdated(FeeMultiplierUpdated { new_multiplier }));
        Ok(())
    }

    /// Orders a burn of `amount` pool tokens held in the fee vault, under
    /// the pool's derived fee authority. The call is initiated by an
    /// admin-role signer that is deliberately not cross-checked against the
    /// pool's admin, and the token-denominated fee counter is deliberately
    /// not decremented: after any burn, the counter and the vault's actual
    /// balance diverge, tracked as two independent quantities.
    pub fn burn_fee_tokens(&mut self, admin: u64, amount: u64) -> (outcome: Result<
        BurnDirective,
        OpError,
    >)
        requires
            old(self).wf(),
        ensures
            final(self).wf(),
            old(self).liquidity_consistent() ==> final(self).liquidity_consistent(),
            outcome == Ok::<BurnDirective, OpError>((BurnDirective {
                from: TokenAccountRef::Vault { role: VaultRole::Fee },
                authority: spec_vault_authority(old(self).pool_id, VaultRole::Fee),
                amount,
            })),
            final(self).pool == old(self).pool,
            final(self).stakes@ == old(self).stakes@,
            final(self).providers@ == old(self).providers@,
            final(self).fee_vault_sol_lamports == old(self).fee_vault_sol_lamports,
            final(self).events@ == old(self).events@.push(
                Event::FeeTokensBurned((FeeTokensBurned { amount })),
            ),
            final(self).pool_id == old(self).pool_id,
    {
        let _ = admin;
        let directive = BurnDirective {
            from: TokenAccountRef::Vault { role: VaultRole::Fee },
            authority: derive_vault_authority(self.pool_id, VaultRole::Fee),
            amount,
        };
        self.events.push(Event::FeeTokensBurned(FeeTokensBurned { amount }));
        Ok(directive)
    }
}

/// Conservation of stake. `initialize` establishes well-formedness and
/// every operation's contract preserves it, so after any sequence of
/// successful operations the pool's `total_staked` counter equals the sum
/// of all stake record amounts.
pub proof fn lemma_stake_conservation(ledger: Ledger)
    requires
        ledger.wf(),
    ensures
        ledger.pool.total_staked == sum_stake_amounts(ledger.stakes@),
{
}

/// Conservation of liquidity. `initialize` establishes consistency and the
/// contracts of `stake_tokens`, `withdraw_stake`, `add_liquidity`,
/// `remove_liquidity`, `approve_liquidity_provider`, `execute_arbitrage`,
/// `update_fee_multiplier` and `burn_fee_tokens` all preserve it, so after
/// any sequence of those the pool's `total_liquidity` counter equals the
/// sum of all liquidity record amounts. `rebalance_liquidity` is the one
/// operation that may break it.
pub proof fn lemma_liquidity_conservation(ledger: Ledger)
    requires
        ledger.liquidity_consistent(),
    ensures
        ledger.pool.total_liquidity == sum_liquidity_amounts(ledger.providers@),
{
}

/// Reward-distribution hook invoked after a settled arbitrage: a placeholder
/// that touches nothing.
pub fn distribute_rewards(pool: &mut Pool, amount: u64) -> (outcome: Result<(), OpError>)
    ensures
        *final(pool) == *old(pool),
        outcome == Ok::<(), OpError>(()),
{
    let _ = amount;
    Ok(())
}

} // verus!
