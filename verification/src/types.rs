//! The data model of the ledger engine.
//!
//! Identities and asset references are opaque to the engine: it only ever
//! compares them for equality, so they are carried as plain 64-bit handles.
//! Text fields (titles, names, metadata) are byte strings. All monetary
//! amounts are 128-bit signed integers in the asset's smallest unit; zero and
//! negative amounts are invalid wherever an amount is an input.

use vstd::prelude::*;

verus! {

/// An identity (a campaign creator, donor, pool contributor or admin),
/// referenced but never owned by the ledger.
pub type AccountId = u64;

/// A reference to an asset whose units the ledger counts.
pub type AssetId = u64;

/// Fixed grace period after a pool's deadline before refunds open: 7 days.
pub const REFUND_GRACE_PERIOD: u64 = 604800;

/// Mandatory delay between requesting and executing an emergency
/// withdrawal: 24 hours.
pub const EMERGENCY_WITHDRAWAL_TIMELOCK: u64 = 86400;

/// A campaign deadline may never be pushed further than this far from the
/// moment of extension: 90 days.
pub const MAX_DEADLINE_EXTENSION: u64 = 90 * 24 * 60 * 60;

/// Cap on the length of a pool's metadata description, in bytes.
pub const MAX_DESCRIPTION_LENGTH: usize = 500;

/// Cap on the length of a pool's external URL, in bytes.
pub const MAX_URL_LENGTH: usize = 200;

/// Cap on the length of a pool's image hash, in bytes.
pub const MAX_HASH_LENGTH: usize = 64;

/// The denominator of the platform's donation fee: 1% of every donation,
/// truncated, is recorded as skimmed.
pub const FEE_DIVISOR: i128 = 100;

/// A 32-byte opaque campaign identifier, carried as four 64-bit words.
#[derive(Clone, Copy, Debug, PartialEq, Eq, Structural)]
pub struct CampaignId {
    pub w0: u64,
    pub w1: u64,
    pub w2: u64,
    pub w3: u64,
}

impl CampaignId {
    /// Builds an identifier from its four 64-bit words.
    pub fn new(w0: u64, w1: u64, w2: u64, w3: u64) -> (r: CampaignId)
        ensures
            r == (CampaignId { w0, w1, w2, w3 }),
    {
        CampaignId { w0, w1, w2, w3 }
    }
}

/// The identity the surrounding environment has proven to control this call.
///
/// The party-authorization mechanism itself is outside the engine: the host
/// verifies a signature (or equivalent) and passes the asserted identity in.
/// An operation that demands authorization as some identity fails with
/// `Unauthorized` when this context carries a different one.
#[derive(Clone, Copy, Debug, PartialEq, Eq, Structural)]
pub struct AuthContext {
    /// The identity whose authorization has been established for this call.
    pub id: AccountId,
}

impl AuthContext {
    /// An authorization context for the given identity.
    pub fn for_account(id: AccountId) -> (r: AuthContext)
        ensures
            r == (AuthContext { id }),
    {
        AuthContext { id }
    }
}

/// One side of a transfer: an external account, or the ledger's own holdings.
#[derive(Clone, Copy, Debug, PartialEq, Eq, Structural)]
pub enum Party {
    /// The contract's own balance.
    Contract,
    /// An external account.
    Account(AccountId),
}

/// A movement of value the host must carry out, all-or-nothing, as part of
/// the operation that returned it. The engine never moves value itself.
#[derive(Clone, Copy, Debug, PartialEq, Eq, Structural)]
pub struct TransferEffect {
    pub from: Party,
    pub to: Party,
    pub asset: AssetId,
    pub amount: i128,
}

/// A single-beneficiary campaign: one goal, one deadline, one accepted asset.
#[derive(Debug)]
pub struct CampaignDetails {
    /// Unique identifier, chosen by the creator at creation.
    pub id: CampaignId,
    /// Non-empty display title, as bytes.
    pub title: Vec<u8>,
    /// The identity that created the campaign and may extend its deadline.
    pub creator: AccountId,
    /// Funding goal; always positive.
    pub goal: i128,
    /// Absolute time after which donations are refused.
    pub deadline: u64,
    /// Sum of all donations so far; only ever grows.
    pub total_raised: i128,
    /// The single asset the campaign accepts.
    pub token_address: AssetId,
}

/// Running metrics kept alongside each campaign, updated on every donation.
#[derive(Clone, Copy, Debug, PartialEq, Eq, Structural)]
pub struct CampaignMetrics {
    /// Mirrors the campaign's `total_raised`.
    pub total_raised: i128,
    /// Number of distinct donor identities seen; never decreases.
    pub contributor_count: u32,
    /// The largest single donation so far.
    pub max_donation: i128,
    /// The donor of the largest single donation; ties keep the earlier one.
    pub top_contributor: Option<AccountId>,
    /// Time of the most recent donation.
    pub last_donation_at: u64,
}

impl CampaignMetrics {
    /// Metrics of a campaign that has received nothing yet.
    pub fn new() -> (r: CampaignMetrics)
        ensures
            r == (CampaignMetrics {
                total_raised: 0i128,
                contributor_count: 0u32,
                max_donation: 0i128,
                top_contributor: None::<AccountId>,
                last_donation_at: 0u64,
            }),
    {
        CampaignMetrics {
            total_raised: 0,
            contributor_count: 0,
            max_donation: 0,
            top_contributor: None,
            last_donation_at: 0,
        }
    }
}

/// A donor's cumulative contribution to one campaign. One record per
/// (campaign, donor) pair; the amount only grows.
#[derive(Clone, Copy, Debug, PartialEq, Eq, Structural)]
pub struct Contribution {
    pub campaign_id: CampaignId,
    pub contributor: AccountId,
    /// Cumulative donated amount; always positive.
    pub amount: i128,
}

/// The derived lifecycle of a campaign. Cancellation beats everything, then
/// reaching the goal, then expiry; otherwise the campaign is active.
#[derive(Clone, Copy, Debug, PartialEq, Eq, Structural)]
pub enum CampaignLifecycleStatus {
    Active,
    Funded,
    Expired,
    Cancelled,
}

impl CampaignLifecycleStatus {
    /// Derives a campaign's lifecycle status from its raised amount, goal,
    /// deadline, the current time and its cancellation flag.
    pub fn get_status(
        total_raised: i128,
        goal: i128,
        deadline: u64,
        current_time: u64,
        is_cancelled: bool,
    ) -> (r: CampaignLifecycleStatus)
        ensures
            r == CampaignLifecycleStatus::spec_status(
                total_raised,
                goal,
                deadline,
                current_time,
                is_cancelled,
            ),
    {
        if is_cancelled {
            CampaignLifecycleStatus::Cancelled
        } else if total_raised >= goal {
            CampaignLifecycleStatus::Funded
        } else if current_time >= deadline {
            CampaignLifecycleStatus::Expired
        } else {
            CampaignLifecycleStatus::Active
        }
    }

    /// What `get_status` returns: cancellation first, then goal reached,
    /// then deadline passed, else active.
    pub open spec fn spec_status(
        total_raised: i128,
        goal: i128,
        deadline: u64,
        current_time: u64,
        is_cancelled: bool,
    ) -> CampaignLifecycleStatus {
        if is_cancelled {
            CampaignLifecycleStatus::Cancelled
        } else if total_raised >= goal {
            CampaignLifecycleStatus::Funded
        } else if current_time >= deadline {
            CampaignLifecycleStatus::Expired
        } else {
            CampaignLifecycleStatus::Active
        }
    }
}

/// A shared funding pool's configuration, fixed at creation.
#[derive(Debug)]
pub struct PoolConfig {
    /// Non-empty display name, as bytes.
    pub name: Vec<u8>,
    /// Free-text description, as bytes.
    pub description: Vec<u8>,
    /// Funding target; always positive.
    pub target_amount: i128,
    /// Whether the pool is private.
    pub is_private: bool,
    /// Seconds from creation to the deadline; zero means no deadline, and a
    /// pool without a deadline never opens its refund window.
    pub duration: u64,
    /// Absolute creation time; the deadline is `created_at + duration`.
    pub created_at: u64,
}

/// The lifecycle of a pool. `Completed` and `Cancelled` are terminal;
/// `Disbursed` may still move to `Closed`, which is terminal.
#[derive(Clone, Copy, Debug, PartialEq, Eq, Structural)]
pub enum PoolState {
    Active,
    Completed,
    Cancelled,
    Disbursed,
    Closed,
}

/// Running metrics kept alongside each pool.
#[derive(Clone, Copy, Debug, PartialEq, Eq, Structural)]
pub struct PoolMetrics {
    /// Sum of the currently recorded contribution amounts; refunds subtract.
    pub total_raised: i128,
    /// Incremented each time a contributor's recorded amount moves from zero
    /// to positive; never decremented.
    pub contributor_count: u32,
    /// Time of the most recent contribution.
    pub last_donation_at: u64,
}

impl PoolMetrics {
    /// Metrics of a pool that has received nothing yet.
    pub fn new() -> (r: PoolMetrics)
        ensures
            r == (PoolMetrics {
                total_raised: 0i128,
                contributor_count: 0u32,
                last_donation_at: 0u64,
            }),
    {
        PoolMetrics { total_raised: 0, contributor_count: 0, last_donation_at: 0 }
    }
}

/// Multi-signature control over a pool: absence means single-authority
/// control; presence demands `1 <= required_signatures <= signers.len()`.
#[derive(Debug)]
pub struct MultiSigConfig {
    pub required_signatures: u32,
    pub signers: Vec<AccountId>,
}

/// Larger descriptive payloads of a pool, kept in the archival tier.
#[derive(Debug)]
pub struct PoolMetadata {
    pub description: Vec<u8>,
    pub external_url: Vec<u8>,
    pub image_hash: Vec<u8>,
}

/// A contributor's current recorded amount in one pool, with the asset used.
/// A refund zeroes the amount but keeps the record, so a second refund finds
/// nothing to pay out.
#[derive(Clone, Copy, Debug, PartialEq, Eq, Structural)]
pub struct PoolContribution {
    pub pool_id: u64,
    pub contributor: AccountId,
    /// Current recorded amount; never negative, zero after a refund.
    pub amount: i128,
    /// The asset the contribution was made in, used again for the refund.
    pub asset: AssetId,
}

/// The platform-wide singleton emergency withdrawal request. At most one may
/// be outstanding at a time.
#[derive(Clone, Copy, Debug, PartialEq, Eq, Structural)]
pub struct EmergencyWithdrawal {
    /// The admin at the time of the request, who receives the funds.
    pub recipient: AccountId,
    pub amount: i128,
    pub token: AssetId,
    /// When the request was filed; execution waits out the timelock from
    /// this moment.
    pub requested_at: u64,
    /// Whether the request has been executed; an outstanding request is
    /// always unexecuted, since execution removes it.
    pub executed: bool,
}

/// Copies a vector of plain values element by element.
pub fn copied_vec<T: Copy>(v: &Vec<T>) -> (r: Vec<T>)
    ensures
        r@ == v@,
{
    let mut r: Vec<T> = Vec::new();
    let mut i: usize = 0;
    while i < v.len()
        invariant
            i <= v@.len(),
            r@ == v@.subrange(0, i as int),
        decreases v@.len() - i,
    {
        r.push(v[i]);
        i = i + 1;
    }
    proof {
        assert(r@ =~= v@);
    }
    r
}

} // verus!
