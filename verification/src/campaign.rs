//! The campaign ledger: creation, donations, deadline extension and the
//! pure reads derived from the records.
//!
//! Every mutating operation checks the access gate first (pause flag,
//! authorization, blacklist), then validates its inputs in a fixed order;
//! the first failing check decides the error and nothing is written.

use vstd::prelude::*;
use crate::errors::CrowdfundingError;
use crate::state::{campaign_entry_ok, has_campaign_in, CrowdfundingContract};
use crate::sums::{
    contrib_indicator, contrib_weight, lemma_sum_by_entry_bound, lemma_sum_by_le_len,
    lemma_sum_by_push, lemma_sum_by_update, lemma_sum_by_zero, sum_by, sum_campaign_totals,
    sum_contributions, total_raised_weight,
};
use crate::types::{
    copied_vec, AccountId, AssetId, AuthContext, CampaignDetails, CampaignId,
    CampaignLifecycleStatus, CampaignMetrics, Contribution, Party, TransferEffect,
    FEE_DIVISOR, MAX_DEADLINE_EXTENSION,
};

verus! {

/// Field-wise equality of campaign records (titles compared by contents).
pub open spec fn details_eq(a: CampaignDetails, b: CampaignDetails) -> bool {
    &&& a.id == b.id
    &&& a.title@ == b.title@
    &&& a.creator == b.creator
    &&& a.goal == b.goal
    &&& a.deadline == b.deadline
    &&& a.total_raised == b.total_raised
    &&& a.token_address == b.token_address
}

/// A field-wise copy of a campaign record.
fn clone_details(c: &CampaignDetails) -> (r: CampaignDetails)
    ensures
        details_eq(r, *c),
{
    CampaignDetails {
        id: c.id,
        title: copied_vec(&c.title),
        creator: c.creator,
        goal: c.goal,
        deadline: c.deadline,
        total_raised: c.total_raised,
        token_address: c.token_address,
    }
}

/// The weight a campaign adds to the active-campaign count at time `now`.
pub open spec fn active_weight(now: u64) -> spec_fn(CampaignDetails) -> int {
    |c: CampaignDetails| if c.deadline > now { 1int } else { 0int }
}

impl CrowdfundingContract {
    /// The first failing precondition of `create_campaign`, or `None` when
    /// the creation succeeds. Checks run in this order: pause flag,
    /// authorization as the creator, blacklist, title, goal, deadline,
    /// platform initialization, the creator's balance against the creation
    /// fee, and identifier freshness.
    pub open spec fn create_campaign_error(
        self,
        auth: AuthContext,
        now: u64,
        id: CampaignId,
        title: Seq<u8>,
        creator: AccountId,
        goal: i128,
        deadline: u64,
        creator_balance: i128,
    ) -> Option<CrowdfundingError> {
        if self.paused {
            Some(CrowdfundingError::ContractPaused)
        } else if auth.id != creator {
            Some(CrowdfundingError::Unauthorized)
        } else if self.blacklisted(creator) {
            Some(CrowdfundingError::UserBlacklisted)
        } else if title.len() == 0 {
            Some(CrowdfundingError::InvalidTitle)
        } else if goal <= 0 {
            Some(CrowdfundingError::InvalidGoal)
        } else if deadline <= now {
            Some(CrowdfundingError::InvalidDeadline)
        } else if self.crowdfunding_token is None {
            Some(CrowdfundingError::NotInitialized)
        } else if self.creation_fee > 0 && creator_balance < self.creation_fee {
            Some(CrowdfundingError::InsufficientBalance)
        } else if self.has_campaign(id) {
            Some(CrowdfundingError::CampaignAlreadyExists)
        } else {
            None
        }
    }

    /// Creates a campaign. When a positive creation fee is configured it is
    /// debited from the creator (the returned transfer) and accrued into the
    /// platform fees, atomically with the creation itself: a failing check
    /// leaves nothing behind. `creator_balance` is the creator's balance in
    /// the platform asset, read by the host just before the call.
    pub fn create_campaign(
        &mut self,
        auth: &AuthContext,
        now: u64,
        id: CampaignId,
        title: Vec<u8>,
        creator: AccountId,
        goal: i128,
        deadline: u64,
        creator_balance: i128,
    ) -> (r: Result<Option<TransferEffect>, CrowdfundingError>)
        requires
            old(self).wf(),
            old(self).create_campaign_error(
                *auth,
                now,
                id,
                title@,
                creator,
                goal,
                deadline,
                creator_balance,
            ) is None ==> old(self).platform_fees + old(self).creation_fee <= i128::MAX,
        ensures
            final(self).wf(),
            match r {
                Err(e) => *final(self) == *old(self) && old(self).create_campaign_error(
                    *auth,
                    now,
                    id,
                    title@,
                    creator,
                    goal,
                    deadline,
                    creator_balance,
                ) == Some(e),
                Ok(fee_transfer) => ({
                    let s0 = *old(self);
                    &&& s0.create_campaign_error(
                        *auth,
                        now,
                        id,
                        title@,
                        creator,
                        goal,
                        deadline,
                        creator_balance,
                    ) is None
                    &&& final(self).campaigns@ == s0.campaigns@.push(
                        CampaignDetails {
                            id,
                            title,
                            creator,
                            goal,
                            deadline,
                            total_raised: 0i128,
                            token_address: s0.crowdfunding_token->Some_0,
                        },
                    )
                    &&& final(self).campaign_metrics@ == s0.campaign_metrics@.push(
                        CampaignMetrics {
                            total_raised: 0i128,
                            contributor_count: 0u32,
                            max_donation: 0i128,
                            top_contributor: None,
                            last_donation_at: 0u64,
                        },
                    )
                    &&& final(self).campaign_fees@ == s0.campaign_fees@.push(0i128)
                    &&& final(self).campaign_cancelled@ == s0.campaign_cancelled@.push(false)
                    &&& final(self).platform_fees == s0.platform_fees + (if s0.creation_fee > 0 {
                        s0.creation_fee
                    } else {
                        0i128
                    })
                    &&& *final(self) == (CrowdfundingContract {
                        campaigns: final(self).campaigns,
                        campaign_metrics: final(self).campaign_metrics,
                        campaign_fees: final(self).campaign_fees,
                        campaign_cancelled: final(self).campaign_cancelled,
                        platform_fees: final(self).platform_fees,
                        ..s0
                    })
                    &&& final(self).has_campaign(id)
                    &&& fee_transfer == (if s0.creation_fee > 0 {
                        Some(
                            TransferEffect {
                                from: Party::Account(creator),
                                to: Party::Contract,
                                asset: s0.crowdfunding_token->Some_0,
                                amount: s0.creation_fee,
                            },
                        )
                    } else {
                        None::<TransferEffect>
                    })
                }),
            },
    {
        if self.paused {
            return Err(CrowdfundingError::ContractPaused);
        }
        if auth.id != creator {
            return Err(CrowdfundingError::Unauthorized);
        }
        if self.is_blacklisted(creator) {
            return Err(CrowdfundingError::UserBlacklisted);
        }
        if title.len() == 0 {
            return Err(CrowdfundingError::InvalidTitle);
        }
        if goal <= 0 {
            return Err(CrowdfundingError::InvalidGoal);
        }
        if deadline <= now {
            return Err(CrowdfundingError::InvalidDeadline);
        }
        let token = match self.crowdfunding_token {
            None => {
                return Err(CrowdfundingError::NotInitialized);
            },
            Some(t) => t,
        };
        let fee_transfer: Option<TransferEffect> = if self.creation_fee > 0 {
            if creator_balance < self.creation_fee {
                return Err(CrowdfundingError::InsufficientBalance);
            }
            Some(
                TransferEffect {
                    from: Party::Account(creator),
                    to: Party::Contract,
                    asset: token,
                    amount: self.creation_fee,
                },
            )
        } else {
            None
        };
        if self.find_campaign(id).is_some() {
            return Err(CrowdfundingError::CampaignAlreadyExists);
        }
        let ghost s0 = *self;
        if self.creation_fee > 0 {
            self.platform_fees = self.platform_fees + self.creation_fee;
        }
        self.campaigns.push(
            CampaignDetails {
                id,
                title,
                creator,
                goal,
                deadline,
                total_raised: 0,
                token_address: token,
            },
        );
        self.campaign_metrics.push(CampaignMetrics::new());
        self.campaign_fees.push(0);
        self.campaign_cancelled.push(false);
        proof {
            let s1 = *self;
            let n = s0.campaigns@.len() as int;
            let newc = s1.campaigns@[n];
            // The new identifier is fresh, so every existing contribution
            // record belongs to some other campaign and the new campaign's
            // sums are zero.
            assert forall|j: int|
                0 <= j < s1.contributions@.len() implies contrib_weight(id)(
                #[trigger] s1.contributions@[j],
            ) == 0 && contrib_indicator(id)(s1.contributions@[j]) == 0 by {
                if s1.contributions@[j].campaign_id == id {
                    assert(has_campaign_in(s0.campaigns@, id));
                }
            }
            lemma_sum_by_zero(s1.contributions@, contrib_weight(id));
            lemma_sum_by_zero(s1.contributions@, contrib_indicator(id));
            // Each previously existing campaign keeps its entry invariant.
            assert forall|i: int|
                0 <= i < s1.campaigns@.len() implies #[trigger] campaign_entry_ok(
                s1.campaigns@,
                s1.campaign_metrics@,
                s1.campaign_fees@,
                s1.contributions@,
                i,
            ) by {
                if i < n {
                    assert(campaign_entry_ok(
                        s0.campaigns@,
                        s0.campaign_metrics@,
                        s0.campaign_fees@,
                        s0.contributions@,
                        i,
                    ));
                    assert(s1.campaigns@[i] == s0.campaigns@[i]);
                } else {
                    assert(campaign_entry_ok(
                        s1.campaigns@,
                        s1.campaign_metrics@,
                        s1.campaign_fees@,
                        s1.contributions@,
                        n,
                    ));
                }
            }
            // Existing contribution records still point at existing
            // campaigns.
            assert forall|i: int|
                0 <= i < s1.contributions@.len() implies has_campaign_in(
                s1.campaigns@,
                (#[trigger] s1.contributions@[i]).campaign_id,
            ) by {
                let d = s1.contributions@[i].campaign_id;
                assert(has_campaign_in(s0.campaigns@, d));
                let k = choose|k: int| 0 <= k < s0.campaigns@.len() && s0.campaigns@[k].id == d;
                assert(s1.campaigns@[k].id == d);
            }
            // The global total gains the new campaign's zero.
            lemma_sum_by_push(s0.campaigns@, total_raised_weight(), newc);
            assert(s1.campaigns@ == s0.campaigns@.push(newc));
            // The new campaign exists.
            assert(s1.campaigns@[n].id == id);
            assert(s1.has_campaign(id));
        }
        Ok(fee_transfer)
    }

    /// The first failing precondition of `donate`, or `None` when the
    /// donation succeeds. Checks run in this order: pause flag,
    /// authorization as the donor, blacklist, amount, campaign existence,
    /// deadline, goal, and the offered asset.
    pub open spec fn donate_error(
        self,
        auth: AuthContext,
        now: u64,
        campaign_id: CampaignId,
        donor: AccountId,
        asset: AssetId,
        amount: i128,
    ) -> Option<CrowdfundingError> {
        if self.paused {
            Some(CrowdfundingError::ContractPaused)
        } else if auth.id != donor {
            Some(CrowdfundingError::Unauthorized)
        } else if self.blacklisted(donor) {
            Some(CrowdfundingError::UserBlacklisted)
        } else if amount <= 0 {
            Some(CrowdfundingError::InvalidDonationAmount)
        } else if !self.has_campaign(campaign_id) {
            Some(CrowdfundingError::CampaignNotFound)
        } else if now >= self.campaign_at(campaign_id).deadline {
            Some(CrowdfundingError::CampaignExpired)
        } else if self.campaign_at(campaign_id).total_raised >= self.campaign_at(
            campaign_id,
        ).goal {
            Some(CrowdfundingError::CampaignAlreadyFunded)
        } else if asset != self.campaign_at(campaign_id).token_address {
            Some(CrowdfundingError::TokenTransferFailed)
        } else {
            None
        }
    }

    /// Donates `amount` of `asset` to a campaign. On success the returned
    /// transfer moves the amount from the donor to the contract, and as one
    /// unit: the campaign's raised total, its metrics (largest donation and
    /// its donor on a strict improvement only, donor count on a first-seen
    /// donor only), the donor's cumulative record, the global raised total
    /// and the campaign's skimmed-fee history (one percent, truncated) are
    /// all brought up to date.
    ///
    /// The two `requires` bounds only rule out arithmetic beyond the
    /// machine's integer ranges.
    pub fn donate(
        &mut self,
        auth: &AuthContext,
        now: u64,
        campaign_id: CampaignId,
        donor: AccountId,
        asset: AssetId,
        amount: i128,
    ) -> (r: Result<TransferEffect, CrowdfundingError>)
        requires
            old(self).wf(),
            old(self).donate_error(*auth, now, campaign_id, donor, asset, amount) is None ==> old(
                self,
            ).global_total_raised + amount <= i128::MAX,
            (old(self).donate_error(*auth, now, campaign_id, donor, asset, amount) is None && !old(
                self,
            ).has_contribution(campaign_id, donor)) ==> old(self).metrics_at(
                campaign_id,
            ).contributor_count < u32::MAX,
        ensures
            final(self).wf(),
            match r {
                Err(e) => *final(self) == *old(self) && old(self).donate_error(
                    *auth,
                    now,
                    campaign_id,
                    donor,
                    asset,
                    amount,
                ) == Some(e),
                Ok(t) => ({
                    let s0 = *old(self);
                    let idx = s0.campaign_index(campaign_id);
                    let c0 = s0.campaigns@[idx];
                    let m0 = s0.campaign_metrics@[idx];
                    let repeat = s0.has_contribution(campaign_id, donor);
                    let ci = s0.contribution_index(campaign_id, donor);
                    &&& s0.donate_error(*auth, now, campaign_id, donor, asset, amount) is None
                    &&& final(self).campaigns@ == s0.campaigns@.update(
                        idx,
                        (CampaignDetails { total_raised: (c0.total_raised + amount) as i128, ..c0 }),
                    )
                    &&& final(self).campaign_metrics@ == s0.campaign_metrics@.update(
                        idx,
                        (CampaignMetrics {
                            total_raised: (c0.total_raised + amount) as i128,
                            contributor_count: (if repeat {
                                m0.contributor_count
                            } else {
                                (m0.contributor_count + 1) as u32
                            }),
                            max_donation: (if amount > m0.max_donation {
                                amount
                            } else {
                                m0.max_donation
                            }),
                            top_contributor: (if amount > m0.max_donation {
                                Some(donor)
                            } else {
                                m0.top_contributor
                            }),
                            last_donation_at: now,
                        }),
                    )
                    &&& final(self).campaign_fees@ == s0.campaign_fees@.update(
                        idx,
                        (s0.campaign_fees@[idx] + amount / FEE_DIVISOR) as i128,
                    )
                    &&& final(self).contributions@ == (if repeat {
                        s0.contributions@.update(
                            ci,
                            (Contribution {
                                campaign_id,
                                contributor: donor,
                                amount: (s0.contributions@[ci].amount + amount) as i128,
                            }),
                        )
                    } else {
                        s0.contributions@.push(
                            (Contribution { campaign_id, contributor: donor, amount }),
                        )
                    })
                    &&& final(self).global_total_raised == s0.global_total_raised + amount
                    &&& *final(self) == (CrowdfundingContract {
                        campaigns: final(self).campaigns,
                        campaign_metrics: final(self).campaign_metrics,
                        campaign_fees: final(self).campaign_fees,
                        contributions: final(self).contributions,
                        global_total_raised: final(self).global_total_raised,
                        ..s0
                    })
                    &&& final(self).contribution_amount(campaign_id, donor) == s0
                        .contribution_amount(campaign_id, donor) + amount
                    &&& final(self).campaign_at(campaign_id).total_raised == c0.total_raised
                        + amount
                    &&& final(self).fee_history_at(campaign_id) == s0.fee_history_at(campaign_id)
                        + amount / FEE_DIVISOR
                    &&& t == (TransferEffect {
                        from: Party::Account(donor),
                        to: Party::Contract,
                        asset,
                        amount,
                    })
                }),
            },
    {
        if self.paused {
            return Err(CrowdfundingError::ContractPaused);
        }
        if auth.id != donor {
            return Err(CrowdfundingError::Unauthorized);
        }
        if self.is_blacklisted(donor) {
            return Err(CrowdfundingError::UserBlacklisted);
        }
        if amount <= 0 {
            return Err(CrowdfundingError::InvalidDonationAmount);
        }
        let idx = match self.find_campaign(campaign_id) {
            None => {
                return Err(CrowdfundingError::CampaignNotFound);
            },
            Some(i) => i,
        };
        proof {
            self.lemma_campaign_index_is(campaign_id, idx as int);
        }
        if now >= self.campaigns[idx].deadline {
            return Err(CrowdfundingError::CampaignExpired);
        }
        if self.campaigns[idx].total_raised >= self.campaigns[idx].goal {
            return Err(CrowdfundingError::CampaignAlreadyFunded);
        }
        if asset != self.campaigns[idx].token_address {
            return Err(CrowdfundingError::TokenTransferFailed);
        }
        let ghost s0 = *self;
        let ghost idxi = idx as int;
        proof {
            // Bounds that keep every addition below inside `i128`.
            assert(campaign_entry_ok(
                s0.campaigns@,
                s0.campaign_metrics@,
                s0.campaign_fees@,
                s0.contributions@,
                idxi,
            ));
            assert forall|j: int|
                0 <= j < s0.campaigns@.len() implies total_raised_weight()(
                #[trigger] s0.campaigns@[j],
            ) >= 0 by {
                assert(campaign_entry_ok(
                    s0.campaigns@,
                    s0.campaign_metrics@,
                    s0.campaign_fees@,
                    s0.contributions@,
                    j,
                ));
            }
            lemma_sum_by_entry_bound(s0.campaigns@, total_raised_weight(), idxi);
            assert(amount / FEE_DIVISOR <= amount && amount / FEE_DIVISOR >= 0) by (nonlinear_arith)
                requires
                    amount > 0,
            ;
        }
        let old_total = self.campaigns[idx].total_raised;
        let m = self.campaign_metrics[idx];
        // The donor's cumulative record: grown in place, or created.
        let repeat: bool = match self.find_contribution(campaign_id, donor) {
            Some(ci) => {
                proof {
                    self.lemma_contribution_index_is(campaign_id, donor, ci as int);
                    assert forall|j: int|
                        0 <= j < s0.contributions@.len() implies contrib_weight(campaign_id)(
                        #[trigger] s0.contributions@[j],
                    ) >= 0 by {}
                    lemma_sum_by_entry_bound(
                        s0.contributions@,
                        contrib_weight(campaign_id),
                        ci as int,
                    );
                }
                let prev = self.contributions[ci].amount;
                self.contributions[ci] = Contribution {
                    campaign_id,
                    contributor: donor,
                    amount: prev + amount,
                };
                true
            },
            None => {
                self.contributions.push(
                    Contribution { campaign_id, contributor: donor, amount },
                );
                false
            },
        };
        self.campaigns[idx].total_raised = old_total + amount;
        self.campaign_metrics[idx] = CampaignMetrics {
            total_raised: old_total + amount,
            contributor_count: if repeat {
                m.contributor_count
            } else {
                m.contributor_count + 1
            },
            max_donation: if amount > m.max_donation {
                amount
            } else {
                m.max_donation
            },
            top_contributor: if amount > m.max_donation {
                Some(donor)
            } else {
                m.top_contributor
            },
            last_donation_at: now,
        };
        let fee_earned = amount / FEE_DIVISOR;
        if fee_earned > 0 {
            let prev_fees = self.campaign_fees[idx];
            self.campaign_fees[idx] = prev_fees + fee_earned;
        } else {
            let prev_fees = self.campaign_fees[idx];
            self.campaign_fees[idx] = prev_fees;
        }
        self.global_total_raised = self.global_total_raised + amount;
        proof {
            let s1 = *self;
            let cid = campaign_id;
            let ghost ci = s0.contribution_index(cid, donor);
            // The campaign columns at all other indices are untouched, and
            // identifiers are everywhere what they were.
            assert(s1.campaigns@ =~= s0.campaigns@.update(
                idxi,
                (CampaignDetails {
                    total_raised: (old_total + amount) as i128,
                    ..s0.campaigns@[idxi]
                }),
            ));
            assert(s1.campaign_fees@ =~= s0.campaign_fees@.update(
                idxi,
                (s0.campaign_fees@[idxi] + amount / FEE_DIVISOR) as i128,
            ));
            // Sums over the changed columns.
            lemma_sum_by_update(
                s0.campaigns@,
                total_raised_weight(),
                idxi,
                s1.campaigns@[idxi],
            );
            if repeat {
                lemma_sum_by_update(
                    s0.contributions@,
                    contrib_weight(cid),
                    ci,
                    s1.contributions@[ci],
                );
                lemma_sum_by_update(
                    s0.contributions@,
                    contrib_indicator(cid),
                    ci,
                    s1.contributions@[ci],
                );
                lemma_sum_by_entry_bound(s0.contributions@, contrib_indicator(cid), ci);
                assert forall|j: int|
                    0 <= j < s0.contributions@.len() implies contrib_indicator(cid)(
                    #[trigger] s0.contributions@[j],
                ) >= 0 by {}
            } else {
                lemma_sum_by_push(
                    s0.contributions@,
                    contrib_weight(cid),
                    s1.contributions@[s1.contributions@.len() - 1],
                );
                lemma_sum_by_push(
                    s0.contributions@,
                    contrib_indicator(cid),
                    s1.contributions@[s1.contributions@.len() - 1],
                );
            }
            // Every campaign keeps its entry invariant.
            assert forall|i: int|
                0 <= i < s1.campaigns@.len() implies #[trigger] campaign_entry_ok(
                s1.campaigns@,
                s1.campaign_metrics@,
                s1.campaign_fees@,
                s1.contributions@,
                i,
            ) by {
                assert(campaign_entry_ok(
                    s0.campaigns@,
                    s0.campaign_metrics@,
                    s0.campaign_fees@,
                    s0.contributions@,
                    i,
                ));
                let d = s0.campaigns@[i].id;
                if i != idxi {
                    // A different campaign: its identifier differs, so the
                    // changed record contributes nothing to its sums.
                    assert(d != cid);
                    if repeat {
                        lemma_sum_by_update(
                            s0.contributions@,
                            contrib_weight(d),
                            ci,
                            s1.contributions@[ci],
                        );
                        lemma_sum_by_update(
                            s0.contributions@,
                            contrib_indicator(d),
                            ci,
                            s1.contributions@[ci],
                        );
                    } else {
                        lemma_sum_by_push(
                            s0.contributions@,
                            contrib_weight(d),
                            s1.contributions@[s1.contributions@.len() - 1],
                        );
                        lemma_sum_by_push(
                            s0.contributions@,
                            contrib_indicator(d),
                            s1.contributions@[s1.contributions@.len() - 1],
                        );
                    }
                }
            }
            // Contribution records stay positive, unique and tied to
            // existing campaigns.
            assert forall|i: int|
                0 <= i < s1.contributions@.len() implies (#[trigger] s1.contributions@[i]).amount
                > 0 && has_campaign_in(s1.campaigns@, s1.contributions@[i].campaign_id) by {
                if i < s0.contributions@.len() && (!repeat || i != ci) {
                    assert(s1.contributions@[i] == s0.contributions@[i]);
                }
                let d = s1.contributions@[i].campaign_id;
                if d == cid {
                    assert(s1.campaigns@[idxi].id == cid);
                } else {
                    assert(has_campaign_in(s0.campaigns@, d));
                    let k = choose|k: int|
                        0 <= k < s0.campaigns@.len() && s0.campaigns@[k].id == d;
                    assert(s1.campaigns@[k].id == d);
                }
            }
            assert forall|i: int, j: int|
                0 <= i < j < s1.contributions@.len() implies !((
            #[trigger] s1.contributions@[i]).campaign_id == (
            #[trigger] s1.contributions@[j]).campaign_id && s1.contributions@[i].contributor
                == s1.contributions@[j].contributor) by {
                if !repeat && j == s1.contributions@.len() - 1 {
                    if s1.contributions@[i].campaign_id == cid && s1.contributions@[i].contributor
                        == donor {
                        assert(s0.has_contribution(cid, donor));
                    }
                }
            }
            // Index stability for the derived clauses.
            self.lemma_campaign_index_is(cid, idxi);
            if repeat {
                self.lemma_contribution_index_is(cid, donor, ci);
            } else {
                self.lemma_contribution_index_is(
                    cid,
                    donor,
                    s1.contributions@.len() - 1,
                );
            }
        }
        Ok(
            TransferEffect {
                from: Party::Account(donor),
                to: Party::Contract,
                asset,
                amount,
            },
        )
    }

    /// Pushes a not-yet-funded campaign's deadline forward; only the
    /// creator may do so, only to a strictly later time, and never further
    /// than the extension cap from the moment of the call.
    pub open spec fn extend_deadline_error(
        self,
        auth: AuthContext,
        now: u64,
        campaign_id: CampaignId,
        new_deadline: u64,
    ) -> Option<CrowdfundingError> {
        if self.paused {
            Some(CrowdfundingError::ContractPaused)
        } else if !self.has_campaign(campaign_id) {
            Some(CrowdfundingError::CampaignNotFound)
        } else if auth.id != self.campaign_at(campaign_id).creator {
            Some(CrowdfundingError::Unauthorized)
        } else if self.campaign_at(campaign_id).total_raised >= self.campaign_at(
            campaign_id,
        ).goal {
            Some(CrowdfundingError::CampaignAlreadyFunded)
        } else if new_deadline <= self.campaign_at(campaign_id).deadline {
            Some(CrowdfundingError::InvalidDeadline)
        } else if new_deadline > now && new_deadline - now > MAX_DEADLINE_EXTENSION {
            Some(CrowdfundingError::InvalidDeadline)
        } else {
            None
        }
    }

    /// Moves a campaign's deadline to `new_deadline`; see
    /// `extend_deadline_error` for the order of the checks.
    pub fn extend_campaign_deadline(
        &mut self,
        auth: &AuthContext,
        now: u64,
        campaign_id: CampaignId,
        new_deadline: u64,
    ) -> (r: Result<(), CrowdfundingError>)
        requires
            old(self).wf(),
        ensures
            final(self).wf(),
            match r {
                Err(e) => *final(self) == *old(self) && old(self).extend_deadline_error(
                    *auth,
                    now,
                    campaign_id,
                    new_deadline,
                ) == Some(e),
                Ok(_) => ({
                    let s0 = *old(self);
                    let idx = s0.campaign_index(campaign_id);
                    &&& s0.extend_deadline_error(*auth, now, campaign_id, new_deadline) is None
                    &&& final(self).campaigns@ == s0.campaigns@.update(
                        idx,
                        (CampaignDetails { deadline: new_deadline, ..s0.campaigns@[idx] }),
                    )
                    &&& *final(self) == (CrowdfundingContract {
                        campaigns: final(self).campaigns,
                        ..s0
                    })
                    &&& final(self).campaign_at(campaign_id).deadline == new_deadline
                }),
            },
    {
        if self.paused {
            return Err(CrowdfundingError::ContractPaused);
        }
        let idx = match self.find_campaign(campaign_id) {
            None => {
                return Err(CrowdfundingError::CampaignNotFound);
            },
            Some(i) => i,
        };
        proof {
            self.lemma_campaign_index_is(campaign_id, idx as int);
        }
        if auth.id != self.campaigns[idx].creator {
            return Err(CrowdfundingError::Unauthorized);
        }
        if self.campaigns[idx].total_raised >= self.campaigns[idx].goal {
            return Err(CrowdfundingError::CampaignAlreadyFunded);
        }
        if new_deadline <= self.campaigns[idx].deadline {
            return Err(CrowdfundingError::InvalidDeadline);
        }
        if new_deadline > now && new_deadline - now > MAX_DEADLINE_EXTENSION {
            return Err(CrowdfundingError::InvalidDeadline);
        }
        let ghost s0 = *self;
        let ghost idxi = idx as int;
        self.campaigns[idx].deadline = new_deadline;
        proof {
            let s1 = *self;
            lemma_sum_by_update(
                s0.campaigns@,
                total_raised_weight(),
                idxi,
                s1.campaigns@[idxi],
            );
            assert forall|i: int|
                0 <= i < s1.campaigns@.len() implies #[trigger] campaign_entry_ok(
                s1.campaigns@,
                s1.campaign_metrics@,
                s1.campaign_fees@,
                s1.contributions@,
                i,
            ) by {
                assert(campaign_entry_ok(
                    s0.campaigns@,
                    s0.campaign_metrics@,
                    s0.campaign_fees@,
                    s0.contributions@,
                    i,
                ));
            }
            assert forall|i: int|
                0 <= i < s1.contributions@.len() implies has_campaign_in(
                s1.campaigns@,
                (#[trigger] s1.contributions@[i]).campaign_id,
            ) by {
                let d = s1.contributions@[i].campaign_id;
                assert(has_campaign_in(s0.campaigns@, d));
                let k = choose|k: int| 0 <= k < s0.campaigns@.len() && s0.campaigns@[k].id == d;
                assert(s1.campaigns@[k].id == d);
            }
            self.lemma_campaign_index_is(campaign_id, idxi);
        }
        Ok(())
    }

    /// The stored record of a campaign, or `CampaignNotFound`.
    pub fn get_campaign(&self, id: CampaignId) -> (r: Result<CampaignDetails, CrowdfundingError>)
        requires
            self.wf(),
        ensures
            match r {
                Ok(c) => self.has_campaign(id) && details_eq(c, self.campaign_at(id)),
                Err(e) => !self.has_campaign(id) && e == CrowdfundingError::CampaignNotFound,
            },
    {
        match self.find_campaign(id) {
            None => Err(CrowdfundingError::CampaignNotFound),
            Some(i) => {
                proof {
                    self.lemma_campaign_index_is(id, i as int);
                }
                Ok(clone_details(&self.campaigns[i]))
            },
        }
    }

    /// The identifiers of all campaigns, in creation order.
    pub fn get_all_campaigns(&self) -> (r: Vec<CampaignId>)
        ensures
            r@.len() == self.campaigns@.len(),
            forall|i: int| 0 <= i < r@.len() ==> r@[i] == self.campaigns@[i].id,
    {
        let mut r: Vec<CampaignId> = Vec::new();
        let mut i: usize = 0;
        while i < self.campaigns.len()
            invariant
                i <= self.campaigns@.len(),
                r@.len() == i,
                forall|j: int| 0 <= j < i ==> r@[j] == self.campaigns@[j].id,
            decreases self.campaigns@.len() - i,
        {
            r.push(self.campaigns[i].id);
            i = i + 1;
        }
        r
    }

    /// The identifiers among `ids` that name an existing campaign, kept in
    /// order.
    pub open spec fn selected_campaigns(self, ids: Seq<CampaignId>) -> Seq<CampaignId>
        decreases ids.len(),
    {
        if ids.len() == 0 {
            Seq::empty()
        } else {
            let rest = self.selected_campaigns(ids.drop_last());
            if self.has_campaign(ids.last()) {
                rest.push(ids.last())
            } else {
                rest
            }
        }
    }

    /// The records of the existing campaigns among `ids`, in order; missing
    /// identifiers are skipped.
    pub fn get_campaigns(&self, ids: &Vec<CampaignId>) -> (r: Vec<CampaignDetails>)
        requires
            self.wf(),
        ensures
            r@.len() == self.selected_campaigns(ids@).len(),
            forall|k: int|
                0 <= k < r@.len() ==> details_eq(
                    #[trigger] r@[k],
                    self.campaign_at(self.selected_campaigns(ids@)[k]),
                ),
    {
        let mut r: Vec<CampaignDetails> = Vec::new();
        let mut i: usize = 0;
        while i < ids.len()
            invariant
                self.wf(),
                i <= ids@.len(),
                r@.len() == self.selected_campaigns(ids@.subrange(0, i as int)).len(),
                forall|k: int|
                    0 <= k < r@.len() ==> details_eq(
                        #[trigger] r@[k],
                        self.campaign_at(
                            self.selected_campaigns(ids@.subrange(0, i as int))[k],
                        ),
                    ),
            decreases ids@.len() - i,
        {
            proof {
                assert(ids@.subrange(0, i + 1).drop_last() =~= ids@.subrange(0, i as int));
                assert(ids@.subrange(0, i + 1).last() == ids@[i as int]);
            }
            match self.find_campaign(ids[i]) {
                None => {},
                Some(ci) => {
                    proof {
                        self.lemma_campaign_index_is(ids@[i as int], ci as int);
                    }
                    r.push(clone_details(&self.campaigns[ci]));
                },
            }
            i = i + 1;
        }
        proof {
            assert(ids@.subrange(0, ids@.len() as int) =~= ids@);
        }
        r
    }

    /// How many campaigns still have their deadline ahead of `now`.
    pub fn get_active_campaign_count(&self, now: u64) -> (r: u32)
        requires
            self.campaigns@.len() <= u32::MAX,
        ensures
            r as int == sum_by(self.campaigns@, active_weight(now)),
    {
        let mut count: u32 = 0;
        let mut i: usize = 0;
        while i < self.campaigns.len()
            invariant
                i <= self.campaigns@.len(),
                self.campaigns@.len() <= u32::MAX,
                count as int == sum_by(
                    self.campaigns@.subrange(0, i as int),
                    active_weight(now),
                ),
                count <= i,
            decreases self.campaigns@.len() - i,
        {
            proof {
                assert(self.campaigns@.subrange(0, i + 1).drop_last() =~= self.campaigns@.subrange(
                    0,
                    i as int,
                ));
                assert(self.campaigns@.subrange(0, i + 1).last() == self.campaigns@[i as int]);
                lemma_sum_by_le_len(self.campaigns@.subrange(0, i as int), active_weight(now));
            }
            if self.campaigns[i].deadline > now {
                count = count + 1;
            }
            i = i + 1;
        }
        proof {
            assert(self.campaigns@.subrange(0, self.campaigns@.len() as int) =~= self.campaigns@);
        }
        count
    }

    /// The number of distinct donors of a campaign, or `CampaignNotFound`.
    pub fn get_donor_count(&self, id: CampaignId) -> (r: Result<u32, CrowdfundingError>)
        requires
            self.wf(),
        ensures
            match r {
                Ok(n) => self.has_campaign(id) && n == self.metrics_at(id).contributor_count,
                Err(e) => !self.has_campaign(id) && e == CrowdfundingError::CampaignNotFound,
            },
    {
        match self.find_campaign(id) {
            None => Err(CrowdfundingError::CampaignNotFound),
            Some(i) => {
                proof {
                    self.lemma_campaign_index_is(id, i as int);
                }
                Ok(self.campaign_metrics[i].contributor_count)
            },
        }
    }

    /// The raised total from a campaign's metrics, or `CampaignNotFound`.
    pub fn get_campaign_balance(&self, id: CampaignId) -> (r: Result<i128, CrowdfundingError>)
        requires
            self.wf(),
        ensures
            match r {
                Ok(v) => self.has_campaign(id) && v == self.metrics_at(id).total_raised,
                Err(e) => !self.has_campaign(id) && e == CrowdfundingError::CampaignNotFound,
            },
    {
        match self.find_campaign(id) {
            None => Err(CrowdfundingError::CampaignNotFound),
            Some(i) => {
                proof {
                    self.lemma_campaign_index_is(id, i as int);
                }
                Ok(self.campaign_metrics[i].total_raised)
            },
        }
    }

    /// The raised total from a campaign's record, or `CampaignNotFound`.
    pub fn get_total_raised(&self, id: CampaignId) -> (r: Result<i128, CrowdfundingError>)
        requires
            self.wf(),
        ensures
            match r {
                Ok(v) => self.has_campaign(id) && v == self.campaign_at(id).total_raised,
                Err(e) => !self.has_campaign(id) && e == CrowdfundingError::CampaignNotFound,
            },
    {
        match self.find_campaign(id) {
            None => Err(CrowdfundingError::CampaignNotFound),
            Some(i) => {
                proof {
                    self.lemma_campaign_index_is(id, i as int);
                }
                Ok(self.campaigns[i].total_raised)
            },
        }
    }

    /// A donor's cumulative contribution to a campaign (zero when the donor
    /// never donated), or `CampaignNotFound`.
    pub fn get_contribution(&self, id: CampaignId, donor: AccountId) -> (r: Result<
        i128,
        CrowdfundingError,
    >)
        requires
            self.wf(),
        ensures
            match r {
                Ok(v) => self.has_campaign(id) && v as int == self.contribution_amount(id, donor),
                Err(e) => !self.has_campaign(id) && e == CrowdfundingError::CampaignNotFound,
            },
    {
        match self.find_campaign(id) {
            None => Err(CrowdfundingError::CampaignNotFound),
            Some(_) => {
                match self.find_contribution(id, donor) {
                    None => Ok(0),
                    Some(ci) => {
                        proof {
                            self.lemma_contribution_index_is(id, donor, ci as int);
                        }
                        Ok(self.contributions[ci].amount)
                    },
                }
            },
        }
    }

    /// A campaign's goal, or `CampaignNotFound`.
    pub fn get_campaign_goal(&self, id: CampaignId) -> (r: Result<i128, CrowdfundingError>)
        requires
            self.wf(),
        ensures
            match r {
                Ok(v) => self.has_campaign(id) && v == self.campaign_at(id).goal,
                Err(e) => !self.has_campaign(id) && e == CrowdfundingError::CampaignNotFound,
            },
    {
        match self.find_campaign(id) {
            None => Err(CrowdfundingError::CampaignNotFound),
            Some(i) => {
                proof {
                    self.lemma_campaign_index_is(id, i as int);
                }
                Ok(self.campaigns[i].goal)
            },
        }
    }

    /// Whether a campaign has reached its goal, or `CampaignNotFound`.
    pub fn is_campaign_completed(&self, id: CampaignId) -> (r: Result<bool, CrowdfundingError>)
        requires
            self.wf(),
        ensures
            match r {
                Ok(b) => self.has_campaign(id) && b == (self.campaign_at(id).total_raised
                    >= self.campaign_at(id).goal),
                Err(e) => !self.has_campaign(id) && e == CrowdfundingError::CampaignNotFound,
            },
    {
        match self.find_campaign(id) {
            None => Err(CrowdfundingError::CampaignNotFound),
            Some(i) => {
                proof {
                    self.lemma_campaign_index_is(id, i as int);
                }
                Ok(self.campaigns[i].total_raised >= self.campaigns[i].goal)
            },
        }
    }

    /// A campaign's derived lifecycle status at time `now`, or
    /// `CampaignNotFound`.
    pub fn get_campaign_status(&self, id: CampaignId, now: u64) -> (r: Result<
        CampaignLifecycleStatus,
        CrowdfundingError,
    >)
        requires
            self.wf(),
        ensures
            match r {
                Ok(s) => self.has_campaign(id) && s == CampaignLifecycleStatus::spec_status(
                    self.campaign_at(id).total_raised,
                    self.campaign_at(id).goal,
                    self.campaign_at(id).deadline,
                    now,
                    self.cancelled_at(id),
                ),
                Err(e) => !self.has_campaign(id) && e == CrowdfundingError::CampaignNotFound,
            },
    {
        match self.find_campaign(id) {
            None => Err(CrowdfundingError::CampaignNotFound),
            Some(i) => {
                proof {
                    self.lemma_campaign_index_is(id, i as int);
                }
                Ok(
                    CampaignLifecycleStatus::get_status(
                        self.campaigns[i].total_raised,
                        self.campaigns[i].goal,
                        self.campaigns[i].deadline,
                        now,
                        self.campaign_cancelled[i],
                    ),
                )
            },
        }
    }

    /// The cumulative platform fee skimmed from a campaign's donations, or
    /// `CampaignNotFound`.
    pub fn get_campaign_fee_history(&self, id: CampaignId) -> (r: Result<
        i128,
        CrowdfundingError,
    >)
        requires
            self.wf(),
        ensures
            match r {
                Ok(v) => self.has_campaign(id) && v as int == self.fee_history_at(id),
                Err(e) => !self.has_campaign(id) && e == CrowdfundingError::CampaignNotFound,
            },
    {
        match self.find_campaign(id) {
            None => Err(CrowdfundingError::CampaignNotFound),
            Some(i) => {
                proof {
                    self.lemma_campaign_index_is(id, i as int);
                }
                Ok(self.campaign_fees[i])
            },
        }
    }

    /// The donor of the largest single donation to a campaign;
    /// `CampaignNotFound` when the campaign does not exist or has no
    /// donations yet.
    pub fn get_top_contributor_for_campaign(&self, id: CampaignId) -> (r: Result<
        AccountId,
        CrowdfundingError,
    >)
        requires
            self.wf(),
        ensures
            match r {
                Ok(a) => self.has_campaign(id) && self.metrics_at(id).top_contributor == Some(a),
                Err(e) => e == CrowdfundingError::CampaignNotFound && (!self.has_campaign(id)
                    || self.metrics_at(id).top_contributor is None),
            },
    {
        match self.find_campaign(id) {
            None => Err(CrowdfundingError::CampaignNotFound),
            Some(i) => {
                proof {
                    self.lemma_campaign_index_is(id, i as int);
                }
                match self.campaign_metrics[i].top_contributor {
                    None => Err(CrowdfundingError::CampaignNotFound),
                    Some(a) => Ok(a),
                }
            },
        }
    }

    /// The sum of all donations across all campaigns.
    pub fn get_global_raised_total(&self) -> (r: i128)
        ensures
            r == self.global_total_raised,
    {
        self.global_total_raised
    }
}

} // verus!
