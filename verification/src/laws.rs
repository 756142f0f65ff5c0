//! Laws of the ledger, stated and proved once over the operations'
//! contracts.
//!
//! Every operation requires a well-formed state and ensures one, so a
//! property of all well-formed states holds after any sequence of
//! operations; the lemmas here spell the advertised properties out in that
//! form. Lemmas about a state an operation leaves behind take that state's
//! documented relation to the starting state as hypotheses, exactly as the
//! operation's `ensures` provides them.

use vstd::prelude::*;
use crate::errors::CrowdfundingError;
use crate::state::{campaign_entry_ok, pool_entry_ok, CrowdfundingContract};
use crate::sums::{
    count_pool_contributions, lemma_sum_by_entry_bound, lemma_sum_by_push, lemma_sum_by_update,
    lemma_sum_by_zero, pool_contrib_indicator, pool_contrib_weight, sum_contributions,
};
use crate::types::{
    AccountId, AssetId, AuthContext, CampaignId, PoolContribution, PoolMetrics, PoolState,
    EMERGENCY_WITHDRAWAL_TIMELOCK,
};

verus! {

/// A campaign's raised total always equals the sum of its donors'
/// cumulative contribution records. Donations are the only operation that
/// touches either side, and they require and re-establish well-formedness,
/// so the equality holds after any sequence of successful donations.
pub proof fn lemma_total_raised_is_contribution_sum(s: CrowdfundingContract, id: CampaignId)
    requires
        s.wf(),
        s.has_campaign(id),
    ensures
        s.campaign_at(id).total_raised as int == sum_contributions(s.contributions@, id),
{
    let idx = s.campaign_index(id);
    assert(campaign_entry_ok(
        s.campaigns@,
        s.campaign_metrics@,
        s.campaign_fees@,
        s.contributions@,
        idx,
    ));
}

/// Donating at or after a campaign's deadline fails with
/// `CampaignExpired`, whatever the gap to the goal: the deadline check
/// comes before the goal and asset checks, so neither is consulted.
pub proof fn lemma_donate_after_deadline_expires(
    s: CrowdfundingContract,
    auth: AuthContext,
    now: u64,
    id: CampaignId,
    donor: AccountId,
    asset: AssetId,
    amount: i128,
)
    requires
        !s.paused,
        auth.id == donor,
        !s.blacklisted(donor),
        amount > 0,
        s.has_campaign(id),
        now >= s.campaign_at(id).deadline,
    ensures
        s.donate_error(auth, now, id, donor, asset, amount) == Some(
            CrowdfundingError::CampaignExpired,
        ),
{
}

/// A refund is idempotent. `refund` ensures the state it leaves behind
/// zeroes the (pool, contributor) record and touches nothing but the pool
/// metrics and the contribution records; this lemma takes exactly that
/// description and shows a second refund of the same pair, at any later
/// time, fails with `NoContributionToRefund`.
pub proof fn lemma_second_refund_fails(
    s0: CrowdfundingContract,
    s1: CrowdfundingContract,
    auth: AuthContext,
    now: u64,
    now2: u64,
    pool_id: u64,
    who: AccountId,
)
    requires
        s0.refund_error(auth, now, pool_id, who) is None,
        s1.pool_contribution_amount(pool_id, who) == 0,
        s1.paused == s0.paused,
        s1.pool_configs@ == s0.pool_configs@,
        s1.pool_states@ == s0.pool_states@,
        now2 >= now,
    ensures
        s1.refund_error(auth, now2, pool_id, who) == Some(
            CrowdfundingError::NoContributionToRefund,
        ),
{
}

/// Any state in which a contributor's recorded amount is not positive
/// refuses to refund that contributor: at best the attempt reaches the
/// record check and fails with `NoContributionToRefund`, and every earlier
/// gate only produces a different error.
pub proof fn lemma_refund_demands_positive_record(
    s: CrowdfundingContract,
    auth: AuthContext,
    now: u64,
    pool_id: u64,
    who: AccountId,
)
    requires
        s.pool_contribution_amount(pool_id, who) <= 0,
    ensures
        s.refund_error(auth, now, pool_id, who) is Some,
{
}

/// The exact-count discipline of the pool ledger: every pool's contributor
/// count equals its number of contribution records, and every record holds
/// a positive amount. A fresh ledger satisfies it, and creating pools and
/// contributing preserve it (the lemmas below); a refund keeps the counts
/// and record set but zeroes one record's amount, after which a returning
/// contributor is counted a second time.
pub open spec fn pool_counts_exact(s: CrowdfundingContract) -> bool {
    &&& forall|i: int|
        0 <= i < s.pool_metrics@.len() ==> (#[trigger] s.pool_metrics@[i]).contributor_count
            as int == count_pool_contributions(s.pool_contributions@, (i + 1) as u64)
    &&& forall|i: int|
        0 <= i < s.pool_contributions@.len() ==> (#[trigger] s.pool_contributions@[i]).amount > 0
}

/// Under the exact-count discipline, a pool's contributor count equals its
/// number of contribution records — one record per distinct contributor
/// identity, each holding a positive amount — so the count never exceeds
/// the number of distinct identities that have held a positive amount.
pub proof fn lemma_contributor_count_is_record_count(s: CrowdfundingContract, pool_id: u64)
    requires
        s.wf(),
        pool_counts_exact(s),
        s.has_pool(pool_id),
    ensures
        s.pool_metrics_at(pool_id).contributor_count as int == count_pool_contributions(
            s.pool_contributions@,
            pool_id,
        ),
{
    assert(s.pool_metrics@[pool_id as int - 1].contributor_count as int
        == count_pool_contributions(s.pool_contributions@, pool_id));
}

/// Creating a pool preserves the exact-count discipline: the new pool
/// starts with a zero count and no records, and the hypotheses are exactly
/// what `create_pool` and `save_pool` ensure about the state they leave.
pub proof fn lemma_pool_creation_preserves_counts_exact(
    s0: CrowdfundingContract,
    s1: CrowdfundingContract,
)
    requires
        s0.wf(),
        pool_counts_exact(s0),
        s1.pool_metrics@ == s0.pool_metrics@.push(
            (PoolMetrics { total_raised: 0i128, contributor_count: 0u32, last_donation_at: 0u64 }),
        ),
        s1.pool_contributions@ == s0.pool_contributions@,
        s1.pool_configs@.len() == s0.pool_configs@.len() + 1,
        s0.pool_metrics@.len() == s0.pool_configs@.len(),
    ensures
        pool_counts_exact(s1),
{
    let n = s0.pool_metrics@.len() as int;
    assert forall|i: int|
        0 <= i < s1.pool_metrics@.len() implies (
    #[trigger] s1.pool_metrics@[i]).contributor_count as int == count_pool_contributions(
        s1.pool_contributions@,
        (i + 1) as u64,
    ) by {
        if i < n {
            assert(s1.pool_metrics@[i] == s0.pool_metrics@[i]);
        } else {
            assert forall|j: int|
                0 <= j < s1.pool_contributions@.len() implies pool_contrib_indicator(
                (i + 1) as u64,
            )(#[trigger] s1.pool_contributions@[j]) == 0 by {
                assert(s0.pool_contributions@[j].pool_id as int <= s0.pool_configs@.len());
            }
            lemma_sum_by_zero(s1.pool_contributions@, pool_contrib_indicator((i + 1) as u64));
        }
    }
}

/// Contributing preserves the exact-count discipline. The hypotheses are
/// exactly what `contribute` ensures about the state it leaves: when the
/// contributor's prior amount was zero — under the discipline, only when
/// there was no record at all — a new record is pushed and the count grows
/// by one; otherwise an existing record grows and the count stands.
pub proof fn lemma_contribute_preserves_counts_exact(
    s0: CrowdfundingContract,
    s1: CrowdfundingContract,
    pool_id: u64,
    contributor: AccountId,
    asset: AssetId,
    amount: i128,
)
    requires
        s0.wf(),
        pool_counts_exact(s0),
        s0.has_pool(pool_id),
        amount > 0,
        ({
            let i = pool_id as int - 1;
            let m0 = s0.pool_metrics@[i];
            let repeat = s0.has_pool_contribution(pool_id, contributor);
            let prior = s0.pool_contribution_amount(pool_id, contributor);
            let ci = s0.pool_contribution_index(pool_id, contributor);
            &&& m0.contributor_count as int + 1 <= u32::MAX
            &&& m0.total_raised + amount <= i128::MAX
            &&& s1.pool_metrics@ == s0.pool_metrics@.update(
                i,
                (PoolMetrics {
                    total_raised: (m0.total_raised + amount) as i128,
                    contributor_count: (if prior == 0 {
                        (m0.contributor_count + 1) as u32
                    } else {
                        m0.contributor_count
                    }),
                    last_donation_at: s1.pool_metrics@[i].last_donation_at,
                }),
            )
            &&& s1.pool_contributions@ == (if repeat {
                s0.pool_contributions@.update(
                    ci,
                    (PoolContribution {
                        pool_id,
                        contributor,
                        amount: (s0.pool_contributions@[ci].amount + amount) as i128,
                        asset,
                    }),
                )
            } else {
                s0.pool_contributions@.push(
                    (PoolContribution { pool_id, contributor, amount, asset }),
                )
            })
        }),
    ensures
        pool_counts_exact(s1),
{
    let i = pool_id as int - 1;
    let repeat = s0.has_pool_contribution(pool_id, contributor);
    let prior = s0.pool_contribution_amount(pool_id, contributor);
    let ci = s0.pool_contribution_index(pool_id, contributor);
    if repeat {
        assert(s0.pool_contributions@[ci].amount > 0);
        assert(prior > 0);
        assert(pool_entry_ok(
            s0.pool_configs@,
            s0.pool_metrics@,
            s0.pool_multisig@,
            s0.pool_contributions@,
            i,
        ));
        assert forall|j: int|
            0 <= j < s0.pool_contributions@.len() implies pool_contrib_weight(pool_id)(
            #[trigger] s0.pool_contributions@[j],
        ) >= 0 by {}
        lemma_sum_by_entry_bound(s0.pool_contributions@, pool_contrib_weight(pool_id), ci);
        assert(s0.pool_contributions@[ci].amount <= s0.pool_metrics@[i].total_raised);
    }
    assert forall|j: int|
        0 <= j < s1.pool_contributions@.len() implies (
    #[trigger] s1.pool_contributions@[j]).amount > 0 by {
        if repeat {
            if j != ci {
                assert(s1.pool_contributions@[j] == s0.pool_contributions@[j]);
            }
        } else if j < s0.pool_contributions@.len() {
            assert(s1.pool_contributions@[j] == s0.pool_contributions@[j]);
        }
    }
    assert forall|k: int|
        0 <= k < s1.pool_metrics@.len() implies (
    #[trigger] s1.pool_metrics@[k]).contributor_count as int == count_pool_contributions(
        s1.pool_contributions@,
        (k + 1) as u64,
    ) by {
        let kid = (k + 1) as u64;
        if repeat {
            lemma_sum_by_update(
                s0.pool_contributions@,
                pool_contrib_indicator(kid),
                ci,
                s1.pool_contributions@[ci],
            );
        } else {
            lemma_sum_by_push(
                s0.pool_contributions@,
                pool_contrib_indicator(kid),
                s1.pool_contributions@[s1.pool_contributions@.len() - 1],
            );
        }
    }
}

/// A pool with no deadline (`duration == 0`) never refunds, whatever the
/// elapsed time: the attempt fails, and once the earlier checks pass it
/// fails precisely with `RefundNotAvailable`.
pub proof fn lemma_zero_duration_pool_never_refunds(
    s: CrowdfundingContract,
    auth: AuthContext,
    now: u64,
    pool_id: u64,
    who: AccountId,
)
    requires
        s.has_pool(pool_id),
        s.pool_at(pool_id).duration == 0,
    ensures
        s.refund_error(auth, now, pool_id, who) is Some,
        (!s.paused && auth.id == who) ==> s.refund_error(auth, now, pool_id, who) == Some(
            CrowdfundingError::RefundNotAvailable,
        ),
{
}

/// `Completed` and `Cancelled` are terminal: an unpaused ledger refuses
/// every transition out of them — the target state is never even
/// consulted — with `InvalidPoolState`.
pub proof fn lemma_terminal_pool_state_rejects_update(s: CrowdfundingContract, pool_id: u64)
    requires
        !s.paused,
        s.has_pool(pool_id),
        s.pool_state_at(pool_id) == PoolState::Completed || s.pool_state_at(pool_id)
            == PoolState::Cancelled,
    ensures
        s.update_pool_state_error(pool_id) == Some(CrowdfundingError::InvalidPoolState),
{
}

/// Executing an emergency withdrawal before the timelock has elapsed
/// always fails; when the admin gates pass, precisely with
/// `EmergencyWithdrawalPeriodNotPassed`.
pub proof fn lemma_emergency_execute_before_timelock_fails(
    s: CrowdfundingContract,
    auth: AuthContext,
    now: u64,
)
    requires
        s.wf(),
        s.emergency_request is Some,
        (now as int) < s.emergency_request->Some_0.requested_at + EMERGENCY_WITHDRAWAL_TIMELOCK,
    ensures
        s.execute_emergency_error(auth, now) is Some,
        s.admin == Some(auth.id) ==> s.execute_emergency_error(auth, now) == Some(
            CrowdfundingError::EmergencyWithdrawalPeriodNotPassed,
        ),
{
}

/// With an outstanding request and the timelock fully elapsed, execution
/// by the admin is owed: no precondition fails.
pub proof fn lemma_emergency_execute_after_timelock_succeeds(
    s: CrowdfundingContract,
    auth: AuthContext,
    now: u64,
)
    requires
        s.wf(),
        s.admin == Some(auth.id),
        s.emergency_request is Some,
        (now as int) >= s.emergency_request->Some_0.requested_at + EMERGENCY_WITHDRAWAL_TIMELOCK,
    ensures
        s.execute_emergency_error(auth, now) is None,
{
}

/// An emergency withdrawal executes exactly once: execution removes the
/// singleton request (`execute_emergency_withdraw` ensures exactly the
/// hypotheses below), so a second execution, at any time, fails with
/// `EmergencyWithdrawalNotRequested`.
pub proof fn lemma_emergency_executes_once(
    s0: CrowdfundingContract,
    s1: CrowdfundingContract,
    auth: AuthContext,
    now: u64,
    now2: u64,
)
    requires
        s0.execute_emergency_error(auth, now) is None,
        s1.emergency_request is None,
        s1.admin == s0.admin,
    ensures
        s1.execute_emergency_error(auth, now2) == Some(
            CrowdfundingError::EmergencyWithdrawalNotRequested,
        ),
{
}

} // verus!
