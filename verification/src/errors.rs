//! The typed failure values of the ledger engine.
//!
//! Every operation reports failure as one of these variants; no operation
//! panics. The first failing precondition decides the variant, and a failing
//! operation leaves the state exactly as it was.

use vstd::prelude::*;

verus! {

/// Every way an operation of the ledger engine can fail.
#[derive(Clone, Copy, Debug, PartialEq, Eq, Structural)]
pub enum CrowdfundingError {
    /// The access state has no admin (or no token) configured yet.
    NotInitialized,
    /// `initialize` was called while an admin is already set.
    ContractAlreadyInitialized,
    /// The pause flag is set; mutating ledger operations are refused.
    ContractPaused,
    /// `pause` was called while already paused.
    ContractAlreadyPaused,
    /// `unpause` was called while not paused.
    ContractAlreadyUnpaused,
    /// The caller is not the identity the operation demands.
    Unauthorized,
    /// The acting identity is on the blacklist.
    UserBlacklisted,
    /// A campaign title must not be empty.
    InvalidTitle,
    /// A campaign goal must be positive.
    InvalidGoal,
    /// A campaign deadline must lie in the future, move forward, and stay
    /// within the extension cap.
    InvalidDeadline,
    /// A creation fee rate must not be negative.
    InvalidFee,
    /// A campaign with this identifier already exists.
    CampaignAlreadyExists,
    /// No campaign with this identifier exists.
    CampaignNotFound,
    /// The donation arrived at or after the campaign's deadline.
    CampaignExpired,
    /// The campaign has already reached its goal.
    CampaignAlreadyFunded,
    /// The offered asset is not the campaign's accepted asset.
    TokenTransferFailed,
    /// A donation amount must be positive.
    InvalidDonationAmount,
    /// The creator's balance does not cover the creation fee.
    InsufficientBalance,
    /// A pool name must not be empty.
    InvalidPoolName,
    /// A pool target amount must be positive.
    InvalidPoolTarget,
    /// A pool deadline must lie in the future and be representable.
    InvalidPoolDeadline,
    /// A metadata field exceeds its length cap.
    InvalidMetadata,
    /// Required signatures and signers must be given together and agree.
    InvalidMultiSigConfig,
    /// A multi-signature signer list must not be empty.
    InvalidSignerCount,
    /// The next pool identifier is already taken (the sequence is exhausted).
    PoolAlreadyExists,
    /// No pool with this identifier exists.
    PoolNotFound,
    /// The pool's lifecycle state refuses this operation.
    InvalidPoolState,
    /// An amount must be positive.
    InvalidAmount,
    /// The pool has no deadline (zero duration), so refunds never open.
    RefundNotAvailable,
    /// The pool's deadline has not passed yet.
    PoolNotExpired,
    /// The pool's funds were already disbursed; refunds are closed.
    PoolAlreadyDisbursed,
    /// The grace period after the pool's deadline has not elapsed yet.
    RefundGracePeriodNotPassed,
    /// The contributor holds no positive recorded amount to refund.
    NoContributionToRefund,
    /// The pool is already closed.
    PoolAlreadyClosed,
    /// Only a disbursed or cancelled pool can be closed.
    PoolNotDisbursedOrRefunded,
    /// The accrued platform fees do not cover the requested amount.
    InsufficientFees,
    /// An emergency withdrawal request is already outstanding.
    EmergencyWithdrawalAlreadyRequested,
    /// No emergency withdrawal request is outstanding.
    EmergencyWithdrawalNotRequested,
    /// The timelock since the emergency request has not elapsed yet.
    EmergencyWithdrawalPeriodNotPassed,
}

} // verus!
