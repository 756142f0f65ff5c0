//! The pool ledger: creation, contributions, the timed refund window, state
//! transitions and closure.
//!
//! Pools receive sequential identifiers starting at 1. A pool's deadline is
//! `created_at + duration`; refunds open a fixed grace period after the
//! deadline and only while the pool has not been disbursed. A refund pays
//! back the recorded amount, zeroes the record (the record itself is kept,
//! so a second refund finds nothing), and never lowers the contributor
//! count.

use vstd::prelude::*;
use vstd::pervasive::VecAdditionalExecFns;
use crate::errors::CrowdfundingError;
use crate::state::{pool_entry_ok, CrowdfundingContract};
use crate::sums::{
    lemma_sum_by_entry_bound, lemma_sum_by_push, lemma_sum_by_update, lemma_sum_by_zero,
    pool_contrib_weight, sum_pool_contributions,
};
use crate::types::{
    copied_vec, AccountId, AssetId, AuthContext, MultiSigConfig, Party, PoolConfig,
    PoolContribution, PoolMetadata, PoolMetrics, PoolState, TransferEffect,
    MAX_DESCRIPTION_LENGTH, MAX_HASH_LENGTH, MAX_URL_LENGTH, REFUND_GRACE_PERIOD,
};

verus! {

/// Field-wise equality of pool configurations (texts compared by contents).
pub open spec fn pool_config_eq(a: PoolConfig, b: PoolConfig) -> bool {
    &&& a.name@ == b.name@
    &&& a.description@ == b.description@
    &&& a.target_amount == b.target_amount
    &&& a.is_private == b.is_private
    &&& a.duration == b.duration
    &&& a.created_at == b.created_at
}

/// A field-wise copy of a pool configuration.
fn clone_pool_config(c: &PoolConfig) -> (r: PoolConfig)
    ensures
        pool_config_eq(r, *c),
{
    PoolConfig {
        name: copied_vec(&c.name),
        description: copied_vec(&c.description),
        target_amount: c.target_amount,
        is_private: c.is_private,
        duration: c.duration,
        created_at: c.created_at,
    }
}

impl CrowdfundingContract {
    /// The index of a pool's columns, from its identifier.
    fn pool_index(&self, pool_id: u64) -> (r: Option<usize>)
        ensures
            (r is Some) <==> self.has_pool(pool_id),
            r matches Some(i) ==> i as int == pool_id as int - 1 && i
                < self.pool_configs@.len(),
    {
        if pool_id >= 1 && pool_id <= self.pool_configs.len() as u64 {
            Some((pool_id - 1) as usize)
        } else {
            None
        }
    }

    /// The first failing precondition of `create_pool`, or `None`. Checks
    /// run in this order: pause flag, authorization as the creator, name,
    /// target, a representable future deadline, and identifier-space
    /// exhaustion.
    pub open spec fn create_pool_error(
        self,
        auth: AuthContext,
        now: u64,
        creator: AccountId,
        name: Seq<u8>,
        target_amount: i128,
        duration: u64,
        created_at: u64,
    ) -> Option<CrowdfundingError> {
        if self.paused {
            Some(CrowdfundingError::ContractPaused)
        } else if auth.id != creator {
            Some(CrowdfundingError::Unauthorized)
        } else if name.len() == 0 {
            Some(CrowdfundingError::InvalidPoolName)
        } else if target_amount <= 0 {
            Some(CrowdfundingError::InvalidPoolTarget)
        } else if created_at + duration > u64::MAX || created_at + duration <= now {
            Some(CrowdfundingError::InvalidPoolDeadline)
        } else if self.next_pool_id == u64::MAX {
            Some(CrowdfundingError::PoolAlreadyExists)
        } else {
            None
        }
    }

    /// Creates a pool from a caller-built configuration, assigning the next
    /// sequential identifier. The pool starts `Active` with zeroed metrics,
    /// no multi-signature gate and empty metadata.
    pub fn create_pool(&mut self, auth: &AuthContext, now: u64, creator: AccountId,
        config: PoolConfig) -> (r: Result<u64, CrowdfundingError>)
        requires
            old(self).wf(),
        ensures
            final(self).wf(),
            match r {
                Err(e) => *final(self) == *old(self) && old(self).create_pool_error(
                    *auth,
                    now,
                    creator,
                    config.name@,
                    config.target_amount,
                    config.duration,
                    config.created_at,
                ) == Some(e),
                Ok(pool_id) => ({
                    let s0 = *old(self);
                    &&& s0.create_pool_error(
                        *auth,
                        now,
                        creator,
                        config.name@,
                        config.target_amount,
                        config.duration,
                        config.created_at,
                    ) is None
                    &&& pool_id == s0.next_pool_id
                    &&& final(self).next_pool_id == s0.next_pool_id + 1
                    &&& final(self).pool_configs@ == s0.pool_configs@.push(config)
                    &&& final(self).pool_states@ == s0.pool_states@.push(PoolState::Active)
                    &&& final(self).pool_metrics@ == s0.pool_metrics@.push(
                        (PoolMetrics {
                            total_raised: 0i128,
                            contributor_count: 0u32,
                            last_donation_at: 0u64,
                        }),
                    )
                    &&& final(self).pool_multisig@ == s0.pool_multisig@.push(
                        None::<MultiSigConfig>,
                    )
                    &&& final(self).pool_metadata@.len() == s0.pool_metadata@.len() + 1
                    &&& final(self).pool_metadata@.subrange(0, s0.pool_metadata@.len() as int)
                        == s0.pool_metadata@
                    &&& final(self).pool_metadata@.last().description@.len() == 0
                    &&& final(self).pool_metadata@.last().external_url@.len() == 0
                    &&& final(self).pool_metadata@.last().image_hash@.len() == 0
                    &&& *final(self) == (CrowdfundingContract {
                        pool_configs: final(self).pool_configs,
                        pool_states: final(self).pool_states,
                        pool_metrics: final(self).pool_metrics,
                        pool_multisig: final(self).pool_multisig,
                        pool_metadata: final(self).pool_metadata,
                        next_pool_id: final(self).next_pool_id,
                        ..s0
                    })
                    &&& final(self).has_pool(pool_id)
                }),
            },
    {
        if self.paused {
            return Err(CrowdfundingError::ContractPaused);
        }
        if auth.id != creator {
            return Err(CrowdfundingError::Unauthorized);
        }
        if config.name.len() == 0 {
            return Err(CrowdfundingError::InvalidPoolName);
        }
        if config.target_amount <= 0 {
            return Err(CrowdfundingError::InvalidPoolTarget);
        }
        if config.duration > u64::MAX - config.created_at {
            return Err(CrowdfundingError::InvalidPoolDeadline);
        }
        if config.created_at + config.duration <= now {
            return Err(CrowdfundingError::InvalidPoolDeadline);
        }
        if self.next_pool_id == u64::MAX {
            return Err(CrowdfundingError::PoolAlreadyExists);
        }
        let ghost s0 = *self;
        let pool_id = self.next_pool_id;
        self.pool_configs.push(config);
        self.pool_states.push(PoolState::Active);
        self.pool_metrics.push(PoolMetrics::new());
        self.pool_multisig.push(None);
        self.pool_metadata.push(
            PoolMetadata { description: Vec::new(), external_url: Vec::new(), image_hash: Vec::new() },
        );
        self.next_pool_id = pool_id + 1;
        proof {
            assert(self.pool_configs@.subrange(0, s0.pool_configs@.len() as int)
                =~= s0.pool_configs@);
            assert(self.pool_metrics@.subrange(0, s0.pool_metrics@.len() as int)
                =~= s0.pool_metrics@);
            assert(self.pool_multisig@.subrange(0, s0.pool_multisig@.len() as int)
                =~= s0.pool_multisig@);
            assert(self.pool_metadata@.subrange(0, s0.pool_metadata@.len() as int)
                =~= s0.pool_metadata@);
            s0.lemma_fresh_pool_sum_zero(pool_id);
            self.lemma_pool_push_wf(s0);
        }
        Ok(pool_id)
    }

    /// After pushing one new pool onto every column of `s0` (with untouched
    /// contribution records), the pool invariants hold again provided the
    /// new pool's own entry is well formed.
    proof fn lemma_pool_push_wf(self, s0: CrowdfundingContract)
        requires
            s0.wf(),
            self.pool_configs@.len() == s0.pool_configs@.len() + 1,
            self.pool_configs@.subrange(0, s0.pool_configs@.len() as int) == s0.pool_configs@,
            self.pool_metrics@.len() == self.pool_configs@.len(),
            self.pool_metrics@.subrange(0, s0.pool_metrics@.len() as int) == s0.pool_metrics@,
            self.pool_multisig@.len() == self.pool_configs@.len(),
            self.pool_multisig@.subrange(0, s0.pool_multisig@.len() as int) == s0.pool_multisig@,
            self.pool_contributions@ == s0.pool_contributions@,
            pool_entry_ok(
                self.pool_configs@,
                self.pool_metrics@,
                self.pool_multisig@,
                self.pool_contributions@,
                s0.pool_configs@.len() as int,
            ),
        ensures
            forall|i: int|
                0 <= i < self.pool_configs@.len() ==> #[trigger] pool_entry_ok(
                    self.pool_configs@,
                    self.pool_metrics@,
                    self.pool_multisig@,
                    self.pool_contributions@,
                    i,
                ),
    {
        let n = s0.pool_configs@.len() as int;
        assert forall|i: int|
            0 <= i < self.pool_configs@.len() implies #[trigger] pool_entry_ok(
            self.pool_configs@,
            self.pool_metrics@,
            self.pool_multisig@,
            self.pool_contributions@,
            i,
        ) by {
            if i < n {
                assert(pool_entry_ok(
                    s0.pool_configs@,
                    s0.pool_metrics@,
                    s0.pool_multisig@,
                    s0.pool_contributions@,
                    i,
                ));
                assert(self.pool_configs@[i] == s0.pool_configs@.subrange(0, n)[i]);
                assert(self.pool_metrics@[i] == s0.pool_metrics@.subrange(0, n)[i]);
                assert(self.pool_multisig@[i] == s0.pool_multisig@.subrange(0, n)[i]);
            }
        }
    }

    /// Sums over pool contribution records never mention a pool that does
    /// not exist yet, so a fresh pool's sum is zero.
    proof fn lemma_fresh_pool_sum_zero(self, pool_id: u64)
        requires
            forall|i: int|
                0 <= i < self.pool_contributions@.len() ==> 1 <= (
                #[trigger] self.pool_contributions@[i]).pool_id
                    && self.pool_contributions@[i].pool_id as int <= self.pool_configs@.len(),
            pool_id as int > self.pool_configs@.len(),
        ensures
            sum_pool_contributions(self.pool_contributions@, pool_id) == 0,
    {
        assert forall|j: int|
            0 <= j < self.pool_contributions@.len() implies pool_contrib_weight(pool_id)(
            #[trigger] self.pool_contributions@[j],
        ) == 0 by {}
        lemma_sum_by_zero(self.pool_contributions@, pool_contrib_weight(pool_id));
    }

    /// The first failing precondition of `save_pool`, or `None`. Checks run
    /// in this order: pause flag, authorization as the creator, name,
    /// target, deadline, metadata length caps, the multi-signature pair
    /// (both present and consistent, or both absent), and identifier-space
    /// exhaustion.
    pub open spec fn save_pool_error(
        self,
        auth: AuthContext,
        now: u64,
        name: Seq<u8>,
        metadata_description: Seq<u8>,
        metadata_url: Seq<u8>,
        metadata_hash: Seq<u8>,
        creator: AccountId,
        target_amount: i128,
        deadline: u64,
        required_signatures: Option<u32>,
        signers_len: Option<int>,
    ) -> Option<CrowdfundingError> {
        if self.paused {
            Some(CrowdfundingError::ContractPaused)
        } else if auth.id != creator {
            Some(CrowdfundingError::Unauthorized)
        } else if name.len() == 0 {
            Some(CrowdfundingError::InvalidPoolName)
        } else if target_amount <= 0 {
            Some(CrowdfundingError::InvalidPoolTarget)
        } else if deadline <= now {
            Some(CrowdfundingError::InvalidPoolDeadline)
        } else if metadata_description.len() > MAX_DESCRIPTION_LENGTH || metadata_url.len()
            > MAX_URL_LENGTH || metadata_hash.len() > MAX_HASH_LENGTH {
            Some(CrowdfundingError::InvalidMetadata)
        } else if required_signatures is Some && signers_len is Some && (
        required_signatures->Some_0 == 0 || required_signatures->Some_0 as int
            > signers_len->Some_0) {
            Some(CrowdfundingError::InvalidMultiSigConfig)
        } else if required_signatures is Some && signers_len is Some && signers_len->Some_0
            == 0 {
            Some(CrowdfundingError::InvalidSignerCount)
        } else if (required_signatures is Some) != (signers_len is Some) {
            Some(CrowdfundingError::InvalidMultiSigConfig)
        } else if self.next_pool_id == u64::MAX {
            Some(CrowdfundingError::PoolAlreadyExists)
        } else {
            None
        }
    }

    /// Creates a pool from its parts, assigning the next sequential
    /// identifier. The duration is derived from the requested deadline and
    /// `now`; the metadata is kept in the archival column; a multi-signature
    /// gate is stored when both parts are supplied together and consistent.
    pub fn save_pool(
        &mut self,
        auth: &AuthContext,
        now: u64,
        name: Vec<u8>,
        metadata: PoolMetadata,
        creator: AccountId,
        target_amount: i128,
        deadline: u64,
        required_signatures: Option<u32>,
        signers: Option<Vec<AccountId>>,
    ) -> (r: Result<u64, CrowdfundingError>)
        requires
            old(self).wf(),
        ensures
            final(self).wf(),
            match r {
                Err(e) => *final(self) == *old(self) && old(self).save_pool_error(
                    *auth,
                    now,
                    name@,
                    metadata.description@,
                    metadata.external_url@,
                    metadata.image_hash@,
                    creator,
                    target_amount,
                    deadline,
                    required_signatures,
                    (match signers {
                        Some(s) => Some(s@.len() as int),
                        None => None,
                    }),
                ) == Some(e),
                Ok(pool_id) => ({
                    let s0 = *old(self);
                    let n = s0.pool_configs@.len() as int;
                    &&& s0.save_pool_error(
                        *auth,
                        now,
                        name@,
                        metadata.description@,
                        metadata.external_url@,
                        metadata.image_hash@,
                        creator,
                        target_amount,
                        deadline,
                        required_signatures,
                        (match signers {
                            Some(s) => Some(s@.len() as int),
                            None => None,
                        }),
                    ) is None
                    &&& pool_id == s0.next_pool_id
                    &&& final(self).next_pool_id == s0.next_pool_id + 1
                    &&& final(self).pool_configs@.len() == n + 1
                    &&& final(self).pool_configs@.subrange(0, n) == s0.pool_configs@
                    &&& final(self).pool_configs@.last().name@ == name@
                    &&& final(self).pool_configs@.last().description@ == metadata.description@
                    &&& final(self).pool_configs@.last().target_amount == target_amount
                    &&& final(self).pool_configs@.last().is_private == false
                    &&& final(self).pool_configs@.last().created_at == now
                    &&& final(self).pool_configs@.last().duration == deadline - now
                    &&& final(self).pool_states@ == s0.pool_states@.push(PoolState::Active)
                    &&& final(self).pool_metrics@ == s0.pool_metrics@.push(
                        (PoolMetrics {
                            total_raised: 0i128,
                            contributor_count: 0u32,
                            last_donation_at: 0u64,
                        }),
                    )
                    &&& final(self).pool_metadata@ == s0.pool_metadata@.push(metadata)
                    &&& final(self).pool_multisig@ == s0.pool_multisig@.push(
                        (match (required_signatures, signers) {
                            (Some(rs), Some(sg)) => Some(
                                MultiSigConfig { required_signatures: rs, signers: sg },
                            ),
                            _ => None,
                        }),
                    )
                    &&& *final(self) == (CrowdfundingContract {
                        pool_configs: final(self).pool_configs,
                        pool_states: final(self).pool_states,
                        pool_metrics: final(self).pool_metrics,
                        pool_multisig: final(self).pool_multisig,
                        pool_metadata: final(self).pool_metadata,
                        next_pool_id: final(self).next_pool_id,
                        ..s0
                    })
                    &&& final(self).has_pool(pool_id)
                }),
            },
    {
        if self.paused {
            return Err(CrowdfundingError::ContractPaused);
        }
        if auth.id != creator {
            return Err(CrowdfundingError::Unauthorized);
        }
        if name.len() == 0 {
            return Err(CrowdfundingError::InvalidPoolName);
        }
        if target_amount <= 0 {
            return Err(CrowdfundingError::InvalidPoolTarget);
        }
        if deadline <= now {
            return Err(CrowdfundingError::InvalidPoolDeadline);
        }
        if metadata.description.len() > MAX_DESCRIPTION_LENGTH || metadata.external_url.len()
            > MAX_URL_LENGTH || metadata.image_hash.len() > MAX_HASH_LENGTH {
            return Err(CrowdfundingError::InvalidMetadata);
        }
        let multi_sig: Option<MultiSigConfig> = match (required_signatures, signers) {
            (Some(rs), Some(sg)) => {
                if rs == 0 || rs as usize > sg.len() {
                    return Err(CrowdfundingError::InvalidMultiSigConfig);
                }
                if sg.len() == 0 {
                    return Err(CrowdfundingError::InvalidSignerCount);
                }
                Some(MultiSigConfig { required_signatures: rs, signers: sg })
            },
            (None, None) => None,
            _ => {
                return Err(CrowdfundingError::InvalidMultiSigConfig);
            },
        };
        if self.next_pool_id == u64::MAX {
            return Err(CrowdfundingError::PoolAlreadyExists);
        }
        let ghost s0 = *self;
        let pool_id = self.next_pool_id;
        let duration = deadline - now;
        let description = copied_vec(&metadata.description);
        self.pool_configs.push(
            PoolConfig {
                name,
                description,
                target_amount,
                is_private: false,
                duration,
                created_at: now,
            },
        );
        self.pool_metadata.push(metadata);
        self.pool_multisig.push(multi_sig);
        self.pool_states.push(PoolState::Active);
        self.pool_metrics.push(PoolMetrics::new());
        self.next_pool_id = pool_id + 1;
        proof {
            assert(self.pool_configs@.subrange(0, s0.pool_configs@.len() as int)
                =~= s0.pool_configs@);
            assert(self.pool_metrics@.subrange(0, s0.pool_metrics@.len() as int)
                =~= s0.pool_metrics@);
            assert(self.pool_multisig@.subrange(0, s0.pool_multisig@.len() as int)
                =~= s0.pool_multisig@);
            s0.lemma_fresh_pool_sum_zero(pool_id);
            self.lemma_pool_push_wf(s0);
        }
        Ok(pool_id)
    }

    /// The stored configuration of a pool, or `None`.
    pub fn get_pool(&self, pool_id: u64) -> (r: Option<PoolConfig>)
        ensures
            match r {
                Some(c) => self.has_pool(pool_id) && pool_config_eq(c, self.pool_at(pool_id)),
                None => !self.has_pool(pool_id),
            },
    {
        match self.pool_index(pool_id) {
            None => None,
            Some(i) => Some(clone_pool_config(&self.pool_configs[i])),
        }
    }

    /// A pool's archival metadata (description, external URL, image hash),
    /// or three empty strings when the pool does not exist.
    pub fn get_pool_metadata(&self, pool_id: u64) -> (r: (Vec<u8>, Vec<u8>, Vec<u8>))
        requires
            self.wf(),
        ensures
            self.has_pool(pool_id) ==> ({
                let m = self.pool_metadata@[pool_id as int - 1];
                r.0@ == m.description@ && r.1@ == m.external_url@ && r.2@ == m.image_hash@
            }),
            !self.has_pool(pool_id) ==> r.0@.len() == 0 && r.1@.len() == 0 && r.2@.len() == 0,
    {
        match self.pool_index(pool_id) {
            None => (Vec::new(), Vec::new(), Vec::new()),
            Some(i) => {
                let m = &self.pool_metadata[i];
                (copied_vec(&m.description), copied_vec(&m.external_url), copied_vec(
                    &m.image_hash,
                ))
            },
        }
    }

    /// A pool's metrics, or `None` when the pool does not exist.
    pub fn get_pool_metrics(&self, pool_id: u64) -> (r: Option<PoolMetrics>)
        requires
            self.wf(),
        ensures
            match r {
                Some(m) => self.has_pool(pool_id) && m == self.pool_metrics_at(pool_id),
                None => !self.has_pool(pool_id),
            },
    {
        match self.pool_index(pool_id) {
            None => None,
            Some(i) => Some(self.pool_metrics[i]),
        }
    }

    /// The first failing precondition of `update_pool_state`, or `None`:
    /// the ledger must not be paused, the pool must exist, and `Completed`
    /// and `Cancelled` are terminal.
    pub open spec fn update_pool_state_error(self, pool_id: u64) -> Option<CrowdfundingError> {
        if self.paused {
            Some(CrowdfundingError::ContractPaused)
        } else if !self.has_pool(pool_id) {
            Some(CrowdfundingError::PoolNotFound)
        } else if self.pool_state_at(pool_id) == PoolState::Completed || self.pool_state_at(
            pool_id,
        ) == PoolState::Cancelled {
            Some(CrowdfundingError::InvalidPoolState)
        } else {
            None
        }
    }

    /// Moves a pool to `new_state`. Any transition is accepted except out
    /// of the terminal states `Completed` and `Cancelled`.
    pub fn update_pool_state(&mut self, pool_id: u64, new_state: PoolState) -> (r: Result<
        (),
        CrowdfundingError,
    >)
        requires
            old(self).wf(),
        ensures
            final(self).wf(),
            match r {
                Err(e) => *final(self) == *old(self) && old(self).update_pool_state_error(pool_id)
                    == Some(e),
                Ok(_) => ({
                    &&& old(self).update_pool_state_error(pool_id) is None
                    &&& final(self).pool_states@ == old(self).pool_states@.update(
                        pool_id as int - 1,
                        new_state,
                    )
                    &&& *final(self) == (CrowdfundingContract {
                        pool_states: final(self).pool_states,
                        ..*old(self)
                    })
                    &&& final(self).pool_state_at(pool_id) == new_state
                }),
            },
    {
        if self.paused {
            return Err(CrowdfundingError::ContractPaused);
        }
        let i = match self.pool_index(pool_id) {
            None => {
                return Err(CrowdfundingError::PoolNotFound);
            },
            Some(i) => i,
        };
        let current = self.pool_states[i];
        if current == PoolState::Completed || current == PoolState::Cancelled {
            return Err(CrowdfundingError::InvalidPoolState);
        }
        let ghost s0 = *self;
        self.pool_states.set(i, new_state);
        proof {
            assert forall|k: int|
                0 <= k < self.pool_configs@.len() implies #[trigger] pool_entry_ok(
                self.pool_configs@,
                self.pool_metrics@,
                self.pool_multisig@,
                self.pool_contributions@,
                k,
            ) by {
                assert(pool_entry_ok(
                    s0.pool_configs@,
                    s0.pool_metrics@,
                    s0.pool_multisig@,
                    s0.pool_contributions@,
                    k,
                ));
            }
        }
        Ok(())
    }

    /// The first failing precondition of `contribute`, or `None`. Checks
    /// run in this order: pause flag, authorization as the contributor,
    /// amount, pool existence, and the pool being `Active`.
    pub open spec fn contribute_error(
        self,
        auth: AuthContext,
        pool_id: u64,
        contributor: AccountId,
        amount: i128,
    ) -> Option<CrowdfundingError> {
        if self.paused {
            Some(CrowdfundingError::ContractPaused)
        } else if auth.id != contributor {
            Some(CrowdfundingError::Unauthorized)
        } else if amount <= 0 {
            Some(CrowdfundingError::InvalidAmount)
        } else if !self.has_pool(pool_id) {
            Some(CrowdfundingError::PoolNotFound)
        } else if self.pool_state_at(pool_id) != PoolState::Active {
            Some(CrowdfundingError::InvalidPoolState)
        } else {
            None
        }
    }

    /// Contributes `amount` of `asset` to an active pool. On success the
    /// returned transfer moves the amount from the contributor to the
    /// contract; the pool's raised total and last-donation time are brought
    /// up to date, the contributor count grows only when the contributor's
    /// prior recorded amount was exactly zero, and the contributor's record
    /// accumulates the amount under the asset used this time.
    ///
    /// The two `requires` bounds only rule out arithmetic beyond the
    /// machine's integer ranges. `_is_private` only reaches the
    /// notification the host emits; it plays no part in the ledger.
    pub fn contribute(
        &mut self,
        auth: &AuthContext,
        now: u64,
        pool_id: u64,
        contributor: AccountId,
        asset: AssetId,
        amount: i128,
        _is_private: bool,
    ) -> (r: Result<TransferEffect, CrowdfundingError>)
        requires
            old(self).wf(),
            old(self).contribute_error(*auth, pool_id, contributor, amount) is None ==> old(
                self,
            ).pool_metrics_at(pool_id).total_raised + amount <= i128::MAX,
            (old(self).contribute_error(*auth, pool_id, contributor, amount) is None && old(
                self,
            ).pool_contribution_amount(pool_id, contributor) == 0) ==> old(self).pool_metrics_at(
                pool_id,
            ).contributor_count < u32::MAX,
        ensures
            final(self).wf(),
            match r {
                Err(e) => *final(self) == *old(self) && old(self).contribute_error(
                    *auth,
                    pool_id,
                    contributor,
                    amount,
                ) == Some(e),
                Ok(t) => ({
                    let s0 = *old(self);
                    let i = pool_id as int - 1;
                    let m0 = s0.pool_metrics@[i];
                    let repeat = s0.has_pool_contribution(pool_id, contributor);
                    let prior = s0.pool_contribution_amount(pool_id, contributor);
                    let ci = s0.pool_contribution_index(pool_id, contributor);
                    &&& s0.contribute_error(*auth, pool_id, contributor, amount) is None
                    &&& final(self).pool_metrics@ == s0.pool_metrics@.update(
                        i,
                        (PoolMetrics {
                            total_raised: (m0.total_raised + amount) as i128,
                            contributor_count: (if prior == 0 {
                                (m0.contributor_count + 1) as u32
                            } else {
                                m0.contributor_count
                            }),
                            last_donation_at: now,
                        }),
                    )
                    &&& final(self).pool_contributions@ == (if repeat {
                        s0.pool_contributions@.update(
                            ci,
                            (PoolContribution {
                                pool_id,
                                contributor,
                                amount: (s0.pool_contributions@[ci].amount + amount) as i128,
                                asset,
                            }),
                        )
                    } else {
                        s0.pool_contributions@.push(
                            (PoolContribution { pool_id, contributor, amount, asset }),
                        )
                    })
                    &&& *final(self) == (CrowdfundingContract {
                        pool_metrics: final(self).pool_metrics,
                        pool_contributions: final(self).pool_contributions,
                        ..s0
                    })
                    &&& final(self).pool_contribution_amount(pool_id, contributor) == prior
                        + amount
                    &&& final(self).pool_metrics_at(pool_id).total_raised == m0.total_raised
                        + amount
                    &&& final(self).pool_metrics_at(pool_id).contributor_count == (if prior == 0 {
                        m0.contributor_count + 1
                    } else {
                        m0.contributor_count as int
                    })
                    &&& t == (TransferEffect {
                        from: Party::Account(contributor),
                        to: Party::Contract,
                        asset,
                        amount,
                    })
                }),
            },
    {
        if self.paused {
            return Err(CrowdfundingError::ContractPaused);
        }
        if auth.id != contributor {
            return Err(CrowdfundingError::Unauthorized);
        }
        if amount <= 0 {
            return Err(CrowdfundingError::InvalidAmount);
        }
        let i = match self.pool_index(pool_id) {
            None => {
                return Err(CrowdfundingError::PoolNotFound);
            },
            Some(i) => i,
        };
        if !(self.pool_states[i] == PoolState::Active) {
            return Err(CrowdfundingError::InvalidPoolState);
        }
        let ghost s0 = *self;
        let ghost ii = i as int;
        proof {
            assert(pool_entry_ok(
                s0.pool_configs@,
                s0.pool_metrics@,
                s0.pool_multisig@,
                s0.pool_contributions@,
                ii,
            ));
            assert forall|j: int|
                0 <= j < s0.pool_contributions@.len() implies pool_contrib_weight(pool_id)(
                #[trigger] s0.pool_contributions@[j],
            ) >= 0 by {}
        }
        let m = self.pool_metrics[i];
        let repeat: bool;
        let first_time: bool;
        match self.find_pool_contribution(pool_id, contributor) {
            Some(ci) => {
                proof {
                    self.lemma_pool_contribution_index_is(pool_id, contributor, ci as int);
                    lemma_sum_by_entry_bound(
                        s0.pool_contributions@,
                        pool_contrib_weight(pool_id),
                        ci as int,
                    );
                }
                let prev = self.pool_contributions[ci].amount;
                first_time = prev == 0;
                self.pool_contributions[ci] = PoolContribution {
                    pool_id,
                    contributor,
                    amount: prev + amount,
                    asset,
                };
                repeat = true;
            },
            None => {
                self.pool_contributions.push(
                    PoolContribution { pool_id, contributor, amount, asset },
                );
                first_time = true;
                repeat = false;
            },
        };
        self.pool_metrics.set(
            i,
            PoolMetrics {
                total_raised: m.total_raised + amount,
                contributor_count: if first_time {
                    m.contributor_count + 1
                } else {
                    m.contributor_count
                },
                last_donation_at: now,
            },
        );
        proof {
            let s1 = *self;
            let ghost ci = s0.pool_contribution_index(pool_id, contributor);
            if repeat {
                lemma_sum_by_update(
                    s0.pool_contributions@,
                    pool_contrib_weight(pool_id),
                    ci,
                    s1.pool_contributions@[ci],
                );
            } else {
                lemma_sum_by_push(
                    s0.pool_contributions@,
                    pool_contrib_weight(pool_id),
                    s1.pool_contributions@[s1.pool_contributions@.len() - 1],
                );
            }
            // Every pool keeps its entry invariant: only this pool's sum
            // moves, by exactly the contributed amount.
            assert forall|k: int|
                0 <= k < s1.pool_configs@.len() implies #[trigger] pool_entry_ok(
                s1.pool_configs@,
                s1.pool_metrics@,
                s1.pool_multisig@,
                s1.pool_contributions@,
                k,
            ) by {
                assert(pool_entry_ok(
                    s0.pool_configs@,
                    s0.pool_metrics@,
                    s0.pool_multisig@,
                    s0.pool_contributions@,
                    k,
                ));
                let kid = (k + 1) as u64;
                if k != ii {
                    assert(kid != pool_id);
                    if repeat {
                        lemma_sum_by_update(
                            s0.pool_contributions@,
                            pool_contrib_weight(kid),
                            ci,
                            s1.pool_contributions@[ci],
                        );
                    } else {
                        lemma_sum_by_push(
                            s0.pool_contributions@,
                            pool_contrib_weight(kid),
                            s1.pool_contributions@[s1.pool_contributions@.len() - 1],
                        );
                    }
                }
            }
            // Records stay non-negative, unique, and tied to existing pools.
            assert forall|a: int, b: int|
                0 <= a < b < s1.pool_contributions@.len() implies !((
            #[trigger] s1.pool_contributions@[a]).pool_id == (
            #[trigger] s1.pool_contributions@[b]).pool_id && s1.pool_contributions@[a].contributor
                == s1.pool_contributions@[b].contributor) by {
                if !repeat && b == s1.pool_contributions@.len() - 1 {
                    if s1.pool_contributions@[a].pool_id == pool_id
                        && s1.pool_contributions@[a].contributor == contributor {
                        assert(s0.has_pool_contribution(pool_id, contributor));
                    }
                }
            }
            // Index stability for the derived clauses.
            if repeat {
                self.lemma_pool_contribution_index_is(pool_id, contributor, ci);
            } else {
                self.lemma_pool_contribution_index_is(
                    pool_id,
                    contributor,
                    s1.pool_contributions@.len() - 1,
                );
            }
        }
        Ok(
            TransferEffect {
                from: Party::Account(contributor),
                to: Party::Contract,
                asset,
                amount,
            },
        )
    }

    /// The first failing precondition of `refund`, or `None`. Checks run in
    /// this order: pause flag, authorization as the contributor, pool
    /// existence, a pool with no deadline never refunds, the deadline must
    /// have passed, the pool must not be disbursed, the grace period after
    /// the deadline must have elapsed, and the contributor must hold a
    /// positive recorded amount.
    pub open spec fn refund_error(
        self,
        auth: AuthContext,
        now: u64,
        pool_id: u64,
        contributor: AccountId,
    ) -> Option<CrowdfundingError> {
        if self.paused {
            Some(CrowdfundingError::ContractPaused)
        } else if auth.id != contributor {
            Some(CrowdfundingError::Unauthorized)
        } else if !self.has_pool(pool_id) {
            Some(CrowdfundingError::PoolNotFound)
        } else if self.pool_at(pool_id).duration == 0 {
            Some(CrowdfundingError::RefundNotAvailable)
        } else if (now as int) < self.pool_deadline(pool_id) {
            Some(CrowdfundingError::PoolNotExpired)
        } else if self.pool_state_at(pool_id) == PoolState::Disbursed {
            Some(CrowdfundingError::PoolAlreadyDisbursed)
        } else if (now as int) < self.pool_deadline(pool_id) + REFUND_GRACE_PERIOD {
            Some(CrowdfundingError::RefundGracePeriodNotPassed)
        } else if self.pool_contribution_amount(pool_id, contributor) <= 0 {
            Some(CrowdfundingError::NoContributionToRefund)
        } else {
            None
        }
    }

    /// Refunds a contributor's whole recorded amount, in the asset it was
    /// contributed in, once the pool's deadline and the grace period after
    /// it have both passed and while the pool is not disbursed. The pool's
    /// raised total drops by the refunded amount; the contributor count is
    /// deliberately left alone; the record is zeroed, not removed, so a
    /// second refund finds `NoContributionToRefund`.
    pub fn refund(&mut self, auth: &AuthContext, now: u64, pool_id: u64, contributor: AccountId)
        -> (r: Result<TransferEffect, CrowdfundingError>)
        requires
            old(self).wf(),
        ensures
            final(self).wf(),
            match r {
                Err(e) => *final(self) == *old(self) && old(self).refund_error(
                    *auth,
                    now,
                    pool_id,
                    contributor,
                ) == Some(e),
                Ok(t) => ({
                    let s0 = *old(self);
                    let i = pool_id as int - 1;
                    let m0 = s0.pool_metrics@[i];
                    let ci = s0.pool_contribution_index(pool_id, contributor);
                    let rec = s0.pool_contributions@[ci];
                    &&& s0.refund_error(*auth, now, pool_id, contributor) is None
                    &&& final(self).pool_metrics@ == s0.pool_metrics@.update(
                        i,
                        (PoolMetrics {
                            total_raised: (m0.total_raised - rec.amount) as i128,
                            ..m0
                        }),
                    )
                    &&& final(self).pool_contributions@ == s0.pool_contributions@.update(
                        ci,
                        (PoolContribution { pool_id, contributor, amount: 0i128, asset: rec.asset }),
                    )
                    &&& *final(self) == (CrowdfundingContract {
                        pool_metrics: final(self).pool_metrics,
                        pool_contributions: final(self).pool_contributions,
                        ..s0
                    })
                    &&& final(self).pool_contribution_amount(pool_id, contributor) == 0
                    &&& final(self).pool_metrics_at(pool_id).total_raised == m0.total_raised
                        - rec.amount
                    &&& final(self).pool_metrics_at(pool_id).contributor_count
                        == m0.contributor_count
                    &&& t == (TransferEffect {
                        from: Party::Contract,
                        to: Party::Account(contributor),
                        asset: rec.asset,
                        amount: rec.amount,
                    })
                }),
            },
    {
        if self.paused {
            return Err(CrowdfundingError::ContractPaused);
        }
        if auth.id != contributor {
            return Err(CrowdfundingError::Unauthorized);
        }
        let i = match self.pool_index(pool_id) {
            None => {
                return Err(CrowdfundingError::PoolNotFound);
            },
            Some(i) => i,
        };
        proof {
            assert(pool_entry_ok(
                self.pool_configs@,
                self.pool_metrics@,
                self.pool_multisig@,
                self.pool_contributions@,
                i as int,
            ));
        }
        let pool_created_at = self.pool_configs[i].created_at;
        let pool_duration = self.pool_configs[i].duration;
        if pool_duration == 0 {
            return Err(CrowdfundingError::RefundNotAvailable);
        }
        let deadline = pool_created_at + pool_duration;
        if now < deadline {
            return Err(CrowdfundingError::PoolNotExpired);
        }
        if self.pool_states[i] == PoolState::Disbursed {
            return Err(CrowdfundingError::PoolAlreadyDisbursed);
        }
        if now - deadline < REFUND_GRACE_PERIOD {
            return Err(CrowdfundingError::RefundGracePeriodNotPassed);
        }
        let ci = match self.find_pool_contribution(pool_id, contributor) {
            None => {
                return Err(CrowdfundingError::NoContributionToRefund);
            },
            Some(ci) => ci,
        };
        proof {
            self.lemma_pool_contribution_index_is(pool_id, contributor, ci as int);
        }
        let rec_amount = self.pool_contributions[ci].amount;
        let rec_asset = self.pool_contributions[ci].asset;
        if rec_amount <= 0 {
            return Err(CrowdfundingError::NoContributionToRefund);
        }
        let ghost s0 = *self;
        let ghost ii = i as int;
        let ghost cii = ci as int;
        proof {
            assert forall|j: int|
                0 <= j < s0.pool_contributions@.len() implies pool_contrib_weight(pool_id)(
                #[trigger] s0.pool_contributions@[j],
            ) >= 0 by {}
            lemma_sum_by_entry_bound(
                s0.pool_contributions@,
                pool_contrib_weight(pool_id),
                cii,
            );
        }
        let m = self.pool_metrics[i];
        self.pool_contributions[ci] = PoolContribution {
            pool_id,
            contributor,
            amount: 0,
            asset: rec_asset,
        };
        self.pool_metrics.set(
            i,
            PoolMetrics { total_raised: m.total_raised - rec_amount, ..m },
        );
        proof {
            let s1 = *self;
            lemma_sum_by_update(
                s0.pool_contributions@,
                pool_contrib_weight(pool_id),
                cii,
                s1.pool_contributions@[cii],
            );
            assert forall|k: int|
                0 <= k < s1.pool_configs@.len() implies #[trigger] pool_entry_ok(
                s1.pool_configs@,
                s1.pool_metrics@,
                s1.pool_multisig@,
                s1.pool_contributions@,
                k,
            ) by {
                assert(pool_entry_ok(
                    s0.pool_configs@,
                    s0.pool_metrics@,
                    s0.pool_multisig@,
                    s0.pool_contributions@,
                    k,
                ));
                let kid = (k + 1) as u64;
                if k != ii {
                    assert(kid != pool_id);
                    lemma_sum_by_update(
                        s0.pool_contributions@,
                        pool_contrib_weight(kid),
                        cii,
                        s1.pool_contributions@[cii],
                    );
                }
            }
            self.lemma_pool_contribution_index_is(pool_id, contributor, cii);
        }
        Ok(
            TransferEffect {
                from: Party::Contract,
                to: Party::Account(contributor),
                asset: rec_asset,
                amount: rec_amount,
            },
        )
    }

    /// The first failing precondition of `close_pool`, or `None`. Checks
    /// run in this order: authorization as the caller, pool existence,
    /// already closed, a state other than `Disbursed` or `Cancelled`, a
    /// configured admin, and the caller being that admin.
    pub open spec fn close_pool_error(
        self,
        auth: AuthContext,
        pool_id: u64,
        caller: AccountId,
    ) -> Option<CrowdfundingError> {
        if auth.id != caller {
            Some(CrowdfundingError::Unauthorized)
        } else if !self.has_pool(pool_id) {
            Some(CrowdfundingError::PoolNotFound)
        } else if self.pool_state_at(pool_id) == PoolState::Closed {
            Some(CrowdfundingError::PoolAlreadyClosed)
        } else if self.pool_state_at(pool_id) != PoolState::Disbursed && self.pool_state_at(
            pool_id,
        ) != PoolState::Cancelled {
            Some(CrowdfundingError::PoolNotDisbursedOrRefunded)
        } else if self.admin is None {
            Some(CrowdfundingError::NotInitialized)
        } else if self.admin != Some(caller) {
            Some(CrowdfundingError::Unauthorized)
        } else {
            None
        }
    }

    /// Closes a disbursed or cancelled pool. Pools do not track their
    /// creator, so only the admin may close one.
    pub fn close_pool(&mut self, auth: &AuthContext, pool_id: u64, caller: AccountId) -> (r:
        Result<(), CrowdfundingError>)
        requires
            old(self).wf(),
        ensures
            final(self).wf(),
            match r {
                Err(e) => *final(self) == *old(self) && old(self).close_pool_error(
                    *auth,
                    pool_id,
                    caller,
                ) == Some(e),
                Ok(_) => ({
                    &&& old(self).close_pool_error(*auth, pool_id, caller) is None
                    &&& final(self).pool_states@ == old(self).pool_states@.update(
                        pool_id as int - 1,
                        PoolState::Closed,
                    )
                    &&& *final(self) == (CrowdfundingContract {
                        pool_states: final(self).pool_states,
                        ..*old(self)
                    })
                    &&& final(self).pool_state_at(pool_id) == PoolState::Closed
                }),
            },
    {
        if auth.id != caller {
            return Err(CrowdfundingError::Unauthorized);
        }
        let i = match self.pool_index(pool_id) {
            None => {
                return Err(CrowdfundingError::PoolNotFound);
            },
            Some(i) => i,
        };
        let current = self.pool_states[i];
        if current == PoolState::Closed {
            return Err(CrowdfundingError::PoolAlreadyClosed);
        }
        if current != PoolState::Disbursed && current != PoolState::Cancelled {
            return Err(CrowdfundingError::PoolNotDisbursedOrRefunded);
        }
        let admin = match self.admin {
            None => {
                return Err(CrowdfundingError::NotInitialized);
            },
            Some(a) => a,
        };
        if caller != admin {
            return Err(CrowdfundingError::Unauthorized);
        }
        let ghost s0 = *self;
        self.pool_states.set(i, PoolState::Closed);
        proof {
            assert forall|k: int|
                0 <= k < self.pool_configs@.len() implies #[trigger] pool_entry_ok(
                self.pool_configs@,
                self.pool_metrics@,
                self.pool_multisig@,
                self.pool_contributions@,
                k,
            ) by {
                assert(pool_entry_ok(
                    s0.pool_configs@,
                    s0.pool_metrics@,
                    s0.pool_multisig@,
                    s0.pool_contributions@,
                    k,
                ));
            }
        }
        Ok(())
    }

    /// Whether a pool is closed, or `PoolNotFound`.
    pub fn is_closed(&self, pool_id: u64) -> (r: Result<bool, CrowdfundingError>)
        requires
            self.wf(),
        ensures
            match r {
                Ok(b) => self.has_pool(pool_id) && b == (self.pool_state_at(pool_id)
                    == PoolState::Closed),
                Err(e) => !self.has_pool(pool_id) && e == CrowdfundingError::PoolNotFound,
            },
    {
        match self.pool_index(pool_id) {
            None => Err(CrowdfundingError::PoolNotFound),
            Some(i) => Ok(self.pool_states[i] == PoolState::Closed),
        }
    }
}

} // verus!
