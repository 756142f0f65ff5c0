//! Weighted sums over sequences.
//!
//! The ledger's invariants tie stored totals to sums over contribution
//! records: a campaign's `total_raised` is the sum of its donors' cumulative
//! amounts, the global total is the sum of all campaign totals, and the
//! contributor counts are sums of indicator weights. This module gives one
//! generic weighted sum and the small algebra the operations need: how a sum
//! moves under `push` and `update`, and the bounds a sum of non-negative
//! weights obeys.

use vstd::prelude::*;
use crate::types::{CampaignDetails, CampaignId, Contribution, PoolContribution};

verus! {

/// The sum of `f` over all elements of `s`.
pub open spec fn sum_by<T>(s: Seq<T>, f: spec_fn(T) -> int) -> int
    decreases s.len(),
{
    if s.len() == 0 {
        0
    } else {
        sum_by(s.drop_last(), f) + f(s.last())
    }
}

/// Appending an element adds its weight to the sum.
pub proof fn lemma_sum_by_push<T>(s: Seq<T>, f: spec_fn(T) -> int, x: T)
    ensures
        sum_by(s.push(x), f) == sum_by(s, f) + f(x),
{
    assert(s.push(x).drop_last() =~= s);
}

/// Replacing one element moves the sum by the difference of the weights.
pub proof fn lemma_sum_by_update<T>(s: Seq<T>, f: spec_fn(T) -> int, i: int, x: T)
    requires
        0 <= i < s.len(),
    ensures
        sum_by(s.update(i, x), f) == sum_by(s, f) - f(s[i]) + f(x),
    decreases s.len(),
{
    let t = s.update(i, x);
    if i == s.len() - 1 {
        assert(t.drop_last() =~= s.drop_last());
    } else {
        assert(t.drop_last() =~= s.drop_last().update(i, x));
        lemma_sum_by_update(s.drop_last(), f, i, x);
    }
}

/// A sum of non-negative weights is non-negative.
pub proof fn lemma_sum_by_nonneg<T>(s: Seq<T>, f: spec_fn(T) -> int)
    requires
        forall|j: int| 0 <= j < s.len() ==> f(#[trigger] s[j]) >= 0,
    ensures
        sum_by(s, f) >= 0,
    decreases s.len(),
{
    if s.len() > 0 {
        lemma_sum_by_nonneg(s.drop_last(), f);
    }
}

/// With non-negative weights, each single weight is at most the whole sum.
pub proof fn lemma_sum_by_entry_bound<T>(s: Seq<T>, f: spec_fn(T) -> int, i: int)
    requires
        0 <= i < s.len(),
        forall|j: int| 0 <= j < s.len() ==> f(#[trigger] s[j]) >= 0,
    ensures
        f(s[i]) <= sum_by(s, f),
    decreases s.len(),
{
    if i == s.len() - 1 {
        lemma_sum_by_nonneg(s.drop_last(), f);
    } else {
        lemma_sum_by_entry_bound(s.drop_last(), f, i);
    }
}

/// A sum of all-zero weights is zero.
pub proof fn lemma_sum_by_zero<T>(s: Seq<T>, f: spec_fn(T) -> int)
    requires
        forall|j: int| 0 <= j < s.len() ==> f(#[trigger] s[j]) == 0,
    ensures
        sum_by(s, f) == 0,
    decreases s.len(),
{
    if s.len() > 0 {
        lemma_sum_by_zero(s.drop_last(), f);
    }
}

/// A sum of weights that all lie in `{0, 1}` lies between `0` and the length.
pub proof fn lemma_sum_by_le_len<T>(s: Seq<T>, f: spec_fn(T) -> int)
    requires
        forall|j: int| 0 <= j < s.len() ==> 0 <= f(#[trigger] s[j]) <= 1,
    ensures
        0 <= sum_by(s, f) <= s.len(),
    decreases s.len(),
{
    if s.len() > 0 {
        lemma_sum_by_le_len(s.drop_last(), f);
    }
}

/// Weight of a campaign contribution record towards one campaign's total:
/// its amount when it belongs to that campaign, zero otherwise.
pub open spec fn contrib_weight(cid: CampaignId) -> spec_fn(Contribution) -> int {
    |c: Contribution| if c.campaign_id == cid { c.amount as int } else { 0 }
}

/// Indicator of a campaign contribution record belonging to one campaign.
pub open spec fn contrib_indicator(cid: CampaignId) -> spec_fn(Contribution) -> int {
    |c: Contribution| if c.campaign_id == cid { 1int } else { 0int }
}

/// The sum of the cumulative donor amounts recorded for one campaign.
pub open spec fn sum_contributions(s: Seq<Contribution>, cid: CampaignId) -> int {
    sum_by(s, contrib_weight(cid))
}

/// The number of donor records (distinct donors) for one campaign.
pub open spec fn count_contributions(s: Seq<Contribution>, cid: CampaignId) -> int {
    sum_by(s, contrib_indicator(cid))
}

/// Weight of a pool contribution record towards one pool's total.
pub open spec fn pool_contrib_weight(pool_id: u64) -> spec_fn(PoolContribution) -> int {
    |c: PoolContribution| if c.pool_id == pool_id { c.amount as int } else { 0 }
}

/// Indicator of a pool contribution record belonging to one pool.
pub open spec fn pool_contrib_indicator(pool_id: u64) -> spec_fn(PoolContribution) -> int {
    |c: PoolContribution| if c.pool_id == pool_id { 1int } else { 0int }
}

/// The sum of the currently recorded contribution amounts of one pool.
pub open spec fn sum_pool_contributions(s: Seq<PoolContribution>, pool_id: u64) -> int {
    sum_by(s, pool_contrib_weight(pool_id))
}

/// The number of contribution records (distinct contributors) of one pool.
pub open spec fn count_pool_contributions(s: Seq<PoolContribution>, pool_id: u64) -> int {
    sum_by(s, pool_contrib_indicator(pool_id))
}

/// Weight of a campaign towards the global raised total: its own total.
pub open spec fn total_raised_weight() -> spec_fn(CampaignDetails) -> int {
    |c: CampaignDetails| c.total_raised as int
}

/// The sum of all campaigns' raised totals.
pub open spec fn sum_campaign_totals(s: Seq<CampaignDetails>) -> int {
    sum_by(s, total_raised_weight())
}

} // verus!
