//! The ledger state and its well-formedness invariant.
//!
//! One value of [`CrowdfundingContract`] holds the whole engine state: the
//! access gate (admin, pause flag, blacklist, fee configuration), the
//! campaign ledger, the pool ledger, and the emergency-withdrawal singleton.
//! Every operation requires a well-formed state and returns one; a failing
//! operation leaves the state untouched.
//!
//! The invariant is phrased over the individual columns, so an operation
//! that leaves a column untouched preserves that column's part for free.

use vstd::prelude::*;
use crate::sums::{
    count_contributions, sum_campaign_totals, sum_contributions, sum_pool_contributions,
};
use crate::types::{
    AccountId, AssetId, CampaignDetails, CampaignId, CampaignMetrics, Contribution,
    EmergencyWithdrawal, MultiSigConfig, PoolConfig, PoolContribution, PoolMetadata, PoolMetrics,
    PoolState,
};

verus! {

/// The crowdfunding ledger engine.
///
/// The fields mirror the engine's persisted key space: scalar access state,
/// the campaign records with their metrics, fee histories and cancellation
/// flags kept index-aligned, the per-(campaign, donor) contribution records,
/// the pool records (five index-aligned columns; the pool with identifier
/// `n` sits at index `n - 1`), the per-(pool, contributor) records, and the
/// emergency-withdrawal singleton.
pub struct CrowdfundingContract {
    /// The admin identity; `None` before initialization or after renouncement.
    pub admin: Option<AccountId>,
    /// While set, mutating campaign and pool operations are refused.
    pub paused: bool,
    /// The platform's default asset, set at initialization.
    pub crowdfunding_token: Option<AssetId>,
    /// The fee debited from a creator at campaign creation; never negative.
    pub creation_fee: i128,
    /// Creation fees accrued and not yet withdrawn; never negative.
    pub platform_fees: i128,
    /// The configured emergency contact, if any.
    pub emergency_contact: Option<AccountId>,
    /// Identities barred from creating campaigns and donating; no duplicates.
    pub blacklist: Vec<AccountId>,
    /// Identities marked as verified causes; no duplicates.
    pub verified_causes: Vec<AccountId>,
    /// The at-most-one outstanding emergency withdrawal request.
    pub emergency_request: Option<EmergencyWithdrawal>,
    /// Campaign records, in creation order; identifiers are unique.
    pub campaigns: Vec<CampaignDetails>,
    /// Metrics of the campaign at the same index.
    pub campaign_metrics: Vec<CampaignMetrics>,
    /// Cumulative fee skimmed from the campaign at the same index.
    pub campaign_fees: Vec<i128>,
    /// Cancellation flag of the campaign at the same index.
    pub campaign_cancelled: Vec<bool>,
    /// One record per (campaign, donor) pair; amounts are positive.
    pub contributions: Vec<Contribution>,
    /// Sum of all donations across all campaigns.
    pub global_total_raised: i128,
    /// The identifier the next created pool receives; starts at 1.
    pub next_pool_id: u64,
    /// Pool configurations; the pool with identifier `n` is at index `n - 1`.
    pub pool_configs: Vec<PoolConfig>,
    /// Lifecycle state of the pool at the same index.
    pub pool_states: Vec<PoolState>,
    /// Metrics of the pool at the same index.
    pub pool_metrics: Vec<PoolMetrics>,
    /// Multi-signature configuration of the pool at the same index, if any.
    pub pool_multisig: Vec<Option<MultiSigConfig>>,
    /// Archival metadata of the pool at the same index.
    pub pool_metadata: Vec<PoolMetadata>,
    /// One record per (pool, contributor) pair; amounts are non-negative,
    /// zero after a refund.
    pub pool_contributions: Vec<PoolContribution>,
}

// ----------------------------------------------------------------------
// Free lookup functions over the columns.
// ----------------------------------------------------------------------

/// Whether the campaign column holds a record with this identifier.
pub open spec fn has_campaign_in(campaigns: Seq<CampaignDetails>, id: CampaignId) -> bool {
    exists|i: int| 0 <= i < campaigns.len() && campaigns[i].id == id
}

/// The index of the record with this identifier (unique when well-formed).
pub open spec fn campaign_index_in(campaigns: Seq<CampaignDetails>, id: CampaignId) -> int {
    choose|i: int| 0 <= i < campaigns.len() && campaigns[i].id == id
}

/// Whether the contribution column holds a (campaign, donor) record.
pub open spec fn has_contribution_in(
    contributions: Seq<Contribution>,
    cid: CampaignId,
    donor: AccountId,
) -> bool {
    exists|i: int|
        0 <= i < contributions.len() && contributions[i].campaign_id == cid
            && contributions[i].contributor == donor
}

/// The index of the (campaign, donor) record (unique when well-formed).
pub open spec fn contribution_index_in(
    contributions: Seq<Contribution>,
    cid: CampaignId,
    donor: AccountId,
) -> int {
    choose|i: int|
        0 <= i < contributions.len() && contributions[i].campaign_id == cid
            && contributions[i].contributor == donor
}

/// Whether the pool contribution column holds a (pool, contributor) record.
pub open spec fn has_pool_contribution_in(
    records: Seq<PoolContribution>,
    pool_id: u64,
    who: AccountId,
) -> bool {
    exists|i: int|
        0 <= i < records.len() && records[i].pool_id == pool_id && records[i].contributor == who
}

/// The index of the (pool, contributor) record (unique when well-formed).
pub open spec fn pool_contribution_index_in(
    records: Seq<PoolContribution>,
    pool_id: u64,
    who: AccountId,
) -> int {
    choose|i: int|
        0 <= i < records.len() && records[i].pool_id == pool_id && records[i].contributor == who
}

// ----------------------------------------------------------------------
// Free well-formedness predicates over the columns.
// ----------------------------------------------------------------------

/// Everything the invariant demands of the campaign at index `i`: a
/// positive goal, a non-empty title, metrics that mirror the record, a
/// raised total equal to the sum of its donors' cumulative amounts, a donor
/// count equal to the number of donor records, and a skimmed fee between
/// zero and the raised total.
pub open spec fn campaign_entry_ok(
    campaigns: Seq<CampaignDetails>,
    metrics: Seq<CampaignMetrics>,
    fees: Seq<i128>,
    contributions: Seq<Contribution>,
    i: int,
) -> bool {
    let c = campaigns[i];
    let m = metrics[i];
    &&& c.goal > 0
    &&& c.title@.len() > 0
    &&& c.total_raised >= 0
    &&& m.total_raised == c.total_raised
    &&& 0 <= m.max_donation <= c.total_raised
    &&& ((m.top_contributor is None) <==> c.total_raised == 0)
    &&& (m.contributor_count == 0 <==> c.total_raised == 0)
    &&& 0 <= fees[i] <= c.total_raised
    &&& c.total_raised as int == sum_contributions(contributions, c.id)
    &&& m.contributor_count as int == count_contributions(contributions, c.id)
}

/// The campaign columns are index-aligned, identifiers are unique, and
/// every campaign satisfies its per-entry invariant.
pub open spec fn campaigns_ok(
    campaigns: Seq<CampaignDetails>,
    metrics: Seq<CampaignMetrics>,
    fees: Seq<i128>,
    cancelled: Seq<bool>,
    contributions: Seq<Contribution>,
) -> bool {
    &&& metrics.len() == campaigns.len()
    &&& fees.len() == campaigns.len()
    &&& cancelled.len() == campaigns.len()
    &&& forall|i: int, j: int|
        0 <= i < j < campaigns.len() ==> #[trigger] campaigns[i].id != #[trigger] campaigns[j].id
    &&& forall|i: int|
        0 <= i < campaigns.len() ==> #[trigger] campaign_entry_ok(
            campaigns,
            metrics,
            fees,
            contributions,
            i,
        )
}

/// Contribution records carry positive amounts, reference existing
/// campaigns, and no (campaign, donor) pair appears twice.
pub open spec fn contributions_ok(
    campaigns: Seq<CampaignDetails>,
    contributions: Seq<Contribution>,
) -> bool {
    &&& forall|i: int|
        0 <= i < contributions.len() ==> (#[trigger] contributions[i]).amount > 0
    &&& forall|i: int|
        0 <= i < contributions.len() ==> has_campaign_in(
            campaigns,
            (#[trigger] contributions[i]).campaign_id,
        )
    &&& forall|i: int, j: int|
        0 <= i < j < contributions.len() ==> !((#[trigger] contributions[i]).campaign_id
            == (#[trigger] contributions[j]).campaign_id && contributions[i].contributor
            == contributions[j].contributor)
}

/// Everything the invariant demands of the pool at index `i`: a positive
/// target, a non-empty name, a representable deadline, metrics whose total
/// equals the sum of the currently recorded contribution amounts, and a
/// consistent multi-signature configuration where one is present.
pub open spec fn pool_entry_ok(
    configs: Seq<PoolConfig>,
    metrics: Seq<PoolMetrics>,
    multisig: Seq<Option<MultiSigConfig>>,
    records: Seq<PoolContribution>,
    i: int,
) -> bool {
    let c = configs[i];
    let m = metrics[i];
    &&& c.target_amount > 0
    &&& c.name@.len() > 0
    &&& c.created_at + c.duration <= u64::MAX
    &&& m.total_raised >= 0
    &&& m.total_raised as int == sum_pool_contributions(records, (i + 1) as u64)
    &&& (multisig[i] matches Some(ms) ==> 1 <= ms.required_signatures
        && ms.required_signatures as int <= ms.signers@.len())
}

/// The pool columns are index-aligned, the next identifier continues the
/// sequence, and every pool satisfies its per-entry invariant.
pub open spec fn pools_ok(
    configs: Seq<PoolConfig>,
    states: Seq<PoolState>,
    metrics: Seq<PoolMetrics>,
    multisig: Seq<Option<MultiSigConfig>>,
    metadata: Seq<PoolMetadata>,
    next_pool_id: u64,
    records: Seq<PoolContribution>,
) -> bool {
    &&& states.len() == configs.len()
    &&& metrics.len() == configs.len()
    &&& multisig.len() == configs.len()
    &&& metadata.len() == configs.len()
    &&& next_pool_id as int == configs.len() + 1
    &&& forall|i: int|
        0 <= i < configs.len() ==> #[trigger] pool_entry_ok(configs, metrics, multisig, records, i)
}

/// Pool contribution records carry non-negative amounts, reference existing
/// pools, and no (pool, contributor) pair appears twice.
pub open spec fn pool_contributions_ok(
    configs: Seq<PoolConfig>,
    records: Seq<PoolContribution>,
) -> bool {
    &&& forall|i: int| 0 <= i < records.len() ==> (#[trigger] records[i]).amount >= 0
    &&& forall|i: int|
        0 <= i < records.len() ==> 1 <= (#[trigger] records[i]).pool_id && records[i].pool_id
            as int <= configs.len()
    &&& forall|i: int, j: int|
        0 <= i < j < records.len() ==> !((#[trigger] records[i]).pool_id
            == (#[trigger] records[j]).pool_id && records[i].contributor
            == records[j].contributor)
}

/// A list of identities holds no duplicates.
pub open spec fn distinct_accounts(accounts: Seq<AccountId>) -> bool {
    forall|i: int, j: int|
        0 <= i < j < accounts.len() ==> #[trigger] accounts[i] != #[trigger] accounts[j]
}

impl CrowdfundingContract {
    // ------------------------------------------------------------------
    // Spec-level views of the campaign ledger.
    // ------------------------------------------------------------------

    /// Whether a campaign with this identifier exists.
    pub open spec fn has_campaign(self, id: CampaignId) -> bool {
        has_campaign_in(self.campaigns@, id)
    }

    /// The index of the campaign with this identifier (unique in a
    /// well-formed state).
    pub open spec fn campaign_index(self, id: CampaignId) -> int {
        campaign_index_in(self.campaigns@, id)
    }

    /// The record of the campaign with this identifier.
    pub open spec fn campaign_at(self, id: CampaignId) -> CampaignDetails {
        self.campaigns@[self.campaign_index(id)]
    }

    /// The metrics of the campaign with this identifier.
    pub open spec fn metrics_at(self, id: CampaignId) -> CampaignMetrics {
        self.campaign_metrics@[self.campaign_index(id)]
    }

    /// The cumulative skimmed fee of the campaign with this identifier.
    pub open spec fn fee_history_at(self, id: CampaignId) -> int {
        self.campaign_fees@[self.campaign_index(id)] as int
    }

    /// The cancellation flag of the campaign with this identifier.
    pub open spec fn cancelled_at(self, id: CampaignId) -> bool {
        self.campaign_cancelled@[self.campaign_index(id)]
    }

    /// Whether a (campaign, donor) contribution record exists.
    pub open spec fn has_contribution(self, cid: CampaignId, donor: AccountId) -> bool {
        has_contribution_in(self.contributions@, cid, donor)
    }

    /// The index of the (campaign, donor) record (unique when well-formed).
    pub open spec fn contribution_index(self, cid: CampaignId, donor: AccountId) -> int {
        contribution_index_in(self.contributions@, cid, donor)
    }

    /// A donor's cumulative contribution to a campaign; zero without a record.
    pub open spec fn contribution_amount(self, cid: CampaignId, donor: AccountId) -> int {
        if self.has_contribution(cid, donor) {
            self.contributions@[self.contribution_index(cid, donor)].amount as int
        } else {
            0
        }
    }

    // ------------------------------------------------------------------
    // Spec-level views of the pool ledger.
    // ------------------------------------------------------------------

    /// Whether a pool with this identifier exists. Identifiers are handed
    /// out sequentially from 1, so existence is a range check.
    pub open spec fn has_pool(self, pool_id: u64) -> bool {
        1 <= pool_id && pool_id as int <= self.pool_configs@.len()
    }

    /// The configuration of the pool with this identifier.
    pub open spec fn pool_at(self, pool_id: u64) -> PoolConfig {
        self.pool_configs@[pool_id as int - 1]
    }

    /// The lifecycle state of the pool with this identifier.
    pub open spec fn pool_state_at(self, pool_id: u64) -> PoolState {
        self.pool_states@[pool_id as int - 1]
    }

    /// The metrics of the pool with this identifier.
    pub open spec fn pool_metrics_at(self, pool_id: u64) -> PoolMetrics {
        self.pool_metrics@[pool_id as int - 1]
    }

    /// The deadline of the pool with this identifier, as an unbounded
    /// integer (a well-formed state keeps it within the time type's range).
    pub open spec fn pool_deadline(self, pool_id: u64) -> int {
        self.pool_at(pool_id).created_at + self.pool_at(pool_id).duration
    }

    /// Whether a (pool, contributor) record exists.
    pub open spec fn has_pool_contribution(self, pool_id: u64, contributor: AccountId) -> bool {
        has_pool_contribution_in(self.pool_contributions@, pool_id, contributor)
    }

    /// The index of the (pool, contributor) record (unique when well-formed).
    pub open spec fn pool_contribution_index(self, pool_id: u64, contributor: AccountId) -> int {
        pool_contribution_index_in(self.pool_contributions@, pool_id, contributor)
    }

    /// A contributor's currently recorded amount in a pool; zero without a
    /// record (and zero again after a refund).
    pub open spec fn pool_contribution_amount(self, pool_id: u64, contributor: AccountId) -> int {
        if self.has_pool_contribution(pool_id, contributor) {
            self.pool_contributions@[self.pool_contribution_index(pool_id, contributor)].amount
                as int
        } else {
            0
        }
    }

    // ------------------------------------------------------------------
    // Spec-level views of the access gate.
    // ------------------------------------------------------------------

    /// Whether an identity is on the blacklist.
    pub open spec fn blacklisted(self, a: AccountId) -> bool {
        self.blacklist@.contains(a)
    }

    /// Whether an identity is marked as a verified cause.
    pub open spec fn cause_verified(self, a: AccountId) -> bool {
        self.verified_causes@.contains(a)
    }

    // ------------------------------------------------------------------
    // Well-formedness.
    // ------------------------------------------------------------------

    /// The whole well-formedness invariant: every operation demands it and
    /// re-establishes it.
    pub open spec fn wf(self) -> bool {
        &&& campaigns_ok(
            self.campaigns@,
            self.campaign_metrics@,
            self.campaign_fees@,
            self.campaign_cancelled@,
            self.contributions@,
        )
        &&& contributions_ok(self.campaigns@, self.contributions@)
        &&& pools_ok(
            self.pool_configs@,
            self.pool_states@,
            self.pool_metrics@,
            self.pool_multisig@,
            self.pool_metadata@,
            self.next_pool_id,
            self.pool_contributions@,
        )
        &&& pool_contributions_ok(self.pool_configs@, self.pool_contributions@)
        &&& self.creation_fee >= 0
        &&& self.platform_fees >= 0
        &&& distinct_accounts(self.blacklist@)
        &&& distinct_accounts(self.verified_causes@)
        &&& (self.emergency_request matches Some(r) ==> !r.executed)
        &&& self.global_total_raised as int == sum_campaign_totals(self.campaigns@)
    }

    // ------------------------------------------------------------------
    // Uniqueness of lookups.
    // ------------------------------------------------------------------

    /// In a well-formed state, any index holding a campaign with identifier
    /// `id` is the one `campaign_index` denotes.
    pub proof fn lemma_campaign_index_is(self, id: CampaignId, j: int)
        requires
            forall|i: int, k: int|
                0 <= i < k < self.campaigns@.len() ==> #[trigger] self.campaigns@[i].id
                    != #[trigger] self.campaigns@[k].id,
            0 <= j < self.campaigns@.len(),
            self.campaigns@[j].id == id,
        ensures
            self.has_campaign(id),
            self.campaign_index(id) == j,
    {
        assert(self.has_campaign(id));
        let k = self.campaign_index(id);
        if k < j {
            assert(self.campaigns@[k].id != self.campaigns@[j].id);
        } else if k > j {
            assert(self.campaigns@[j].id != self.campaigns@[k].id);
        }
    }

    /// In a well-formed state, any index holding the (campaign, donor)
    /// record is the one `contribution_index` denotes.
    pub proof fn lemma_contribution_index_is(self, cid: CampaignId, donor: AccountId, j: int)
        requires
            contributions_ok(self.campaigns@, self.contributions@),
            0 <= j < self.contributions@.len(),
            self.contributions@[j].campaign_id == cid,
            self.contributions@[j].contributor == donor,
        ensures
            self.has_contribution(cid, donor),
            self.contribution_index(cid, donor) == j,
    {
        assert(self.has_contribution(cid, donor));
        let k = self.contribution_index(cid, donor);
        if k < j {
            assert(!(self.contributions@[k].campaign_id == self.contributions@[j].campaign_id
                && self.contributions@[k].contributor == self.contributions@[j].contributor));
        } else if k > j {
            assert(!(self.contributions@[j].campaign_id == self.contributions@[k].campaign_id
                && self.contributions@[j].contributor == self.contributions@[k].contributor));
        }
    }

    /// In a well-formed state, any index holding the (pool, contributor)
    /// record is the one `pool_contribution_index` denotes.
    pub proof fn lemma_pool_contribution_index_is(self, pool_id: u64, who: AccountId, j: int)
        requires
            pool_contributions_ok(self.pool_configs@, self.pool_contributions@),
            0 <= j < self.pool_contributions@.len(),
            self.pool_contributions@[j].pool_id == pool_id,
            self.pool_contributions@[j].contributor == who,
        ensures
            self.has_pool_contribution(pool_id, who),
            self.pool_contribution_index(pool_id, who) == j,
    {
        assert(self.has_pool_contribution(pool_id, who));
        let k = self.pool_contribution_index(pool_id, who);
        if k < j {
            assert(!(self.pool_contributions@[k].pool_id == self.pool_contributions@[j].pool_id
                && self.pool_contributions@[k].contributor
                == self.pool_contributions@[j].contributor));
        } else if k > j {
            assert(!(self.pool_contributions@[j].pool_id == self.pool_contributions@[k].pool_id
                && self.pool_contributions@[j].contributor
                == self.pool_contributions@[k].contributor));
        }
    }

    // ------------------------------------------------------------------
    // Executable lookups.
    // ------------------------------------------------------------------

    /// Finds the index of the campaign with this identifier.
    pub(crate) fn find_campaign(&self, id: CampaignId) -> (r: Option<usize>)
        ensures
            (r is Some) <==> self.has_campaign(id),
            r matches Some(i) ==> i < self.campaigns@.len() && self.campaigns@[i as int].id == id,
    {
        let mut i: usize = 0;
        while i < self.campaigns.len()
            invariant
                i <= self.campaigns@.len(),
                forall|j: int| 0 <= j < i ==> (#[trigger] self.campaigns@[j]).id != id,
            decreases self.campaigns@.len() - i,
        {
            if self.campaigns[i].id == id {
                return Some(i);
            }
            i = i + 1;
        }
        None
    }

    /// Finds the index of the (campaign, donor) contribution record.
    pub(crate) fn find_contribution(&self, cid: CampaignId, donor: AccountId) -> (r: Option<
        usize,
    >)
        ensures
            (r is Some) <==> self.has_contribution(cid, donor),
            r matches Some(i) ==> i < self.contributions@.len()
                && self.contributions@[i as int].campaign_id == cid
                && self.contributions@[i as int].contributor == donor,
    {
        let mut i: usize = 0;
        while i < self.contributions.len()
            invariant
                i <= self.contributions@.len(),
                forall|j: int|
                    0 <= j < i ==> !((#[trigger] self.contributions@[j]).campaign_id == cid
                        && self.contributions@[j].contributor == donor),
            decreases self.contributions@.len() - i,
        {
            if self.contributions[i].campaign_id == cid && self.contributions[i].contributor
                == donor {
                return Some(i);
            }
            i = i + 1;
        }
        None
    }

    /// Finds the index of the (pool, contributor) contribution record.
    pub(crate) fn find_pool_contribution(&self, pool_id: u64, who: AccountId) -> (r: Option<
        usize,
    >)
        ensures
            (r is Some) <==> self.has_pool_contribution(pool_id, who),
            r matches Some(i) ==> i < self.pool_contributions@.len()
                && self.pool_contributions@[i as int].pool_id == pool_id
                && self.pool_contributions@[i as int].contributor == who,
    {
        let mut i: usize = 0;
        while i < self.pool_contributions.len()
            invariant
                i <= self.pool_contributions@.len(),
                forall|j: int|
                    0 <= j < i ==> !((#[trigger] self.pool_contributions@[j]).pool_id == pool_id
                        && self.pool_contributions@[j].contributor == who),
            decreases self.pool_contributions@.len() - i,
        {
            if self.pool_contributions[i].pool_id == pool_id
                && self.pool_contributions[i].contributor == who {
                return Some(i);
            }
            i = i + 1;
        }
        None
    }

    // ------------------------------------------------------------------
    // Construction.
    // ------------------------------------------------------------------

    /// A fresh, uninitialized ledger: no admin, unpaused, nothing recorded.
    pub fn new() -> (r: CrowdfundingContract)
        ensures
            r.wf(),
            r.admin is None,
            !r.paused,
            r.crowdfunding_token is None,
            r.creation_fee == 0,
            r.platform_fees == 0,
            r.emergency_contact is None,
            r.blacklist@ == Seq::<AccountId>::empty(),
            r.verified_causes@ == Seq::<AccountId>::empty(),
            r.emergency_request is None,
            r.campaigns@ == Seq::<CampaignDetails>::empty(),
            r.campaign_metrics@ == Seq::<CampaignMetrics>::empty(),
            r.campaign_fees@ == Seq::<i128>::empty(),
            r.campaign_cancelled@ == Seq::<bool>::empty(),
            r.contributions@ == Seq::<Contribution>::empty(),
            r.global_total_raised == 0,
            r.next_pool_id == 1,
            r.pool_configs@ == Seq::<PoolConfig>::empty(),
            r.pool_states@ == Seq::<PoolState>::empty(),
            r.pool_metrics@ == Seq::<PoolMetrics>::empty(),
            r.pool_multisig@ == Seq::<Option<MultiSigConfig>>::empty(),
            r.pool_metadata@ == Seq::<PoolMetadata>::empty(),
            r.pool_contributions@ == Seq::<PoolContribution>::empty(),
    {
        CrowdfundingContract {
            admin: None,
            paused: false,
            crowdfunding_token: None,
            creation_fee: 0,
            platform_fees: 0,
            emergency_contact: None,
            blacklist: Vec::new(),
            verified_causes: Vec::new(),
            emergency_request: None,
            campaigns: Vec::new(),
            campaign_metrics: Vec::new(),
            campaign_fees: Vec::new(),
            campaign_cancelled: Vec::new(),
            contributions: Vec::new(),
            global_total_raised: 0,
            next_pool_id: 1,
            pool_configs: Vec::new(),
            pool_states: Vec::new(),
            pool_metrics: Vec::new(),
            pool_multisig: Vec::new(),
            pool_metadata: Vec::new(),
            pool_contributions: Vec::new(),
        }
    }
}

} // verus!
