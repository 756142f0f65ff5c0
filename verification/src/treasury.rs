//! Platform fee withdrawal and the two-phase emergency withdrawal.
//!
//! Creation fees accrue into a platform balance the admin may withdraw. The
//! emergency path is deliberately split in two: a request records the
//! intent, and execution is refused until a fixed timelock has elapsed;
//! executing removes the singleton request, so a further execution finds
//! none and a new request may be filed.

use vstd::prelude::*;
use crate::errors::CrowdfundingError;
use crate::state::CrowdfundingContract;
use crate::types::{
    AccountId, AssetId, AuthContext, EmergencyWithdrawal, Party, TransferEffect,
    EMERGENCY_WITHDRAWAL_TIMELOCK,
};

verus! {

impl CrowdfundingContract {
    /// The first failing precondition of `withdraw_platform_fees`, or
    /// `None`. Checks run in this order: a configured admin, the named
    /// identity being that admin, authorization as it, a positive amount,
    /// sufficient accrued fees, and a configured platform asset.
    pub open spec fn withdraw_platform_fees_error(
        self,
        auth: AuthContext,
        admin: AccountId,
        amount: i128,
    ) -> Option<CrowdfundingError> {
        if self.admin is None {
            Some(CrowdfundingError::NotInitialized)
        } else if self.admin != Some(admin) {
            Some(CrowdfundingError::Unauthorized)
        } else if auth.id != admin {
            Some(CrowdfundingError::Unauthorized)
        } else if amount <= 0 {
            Some(CrowdfundingError::InvalidAmount)
        } else if amount > self.platform_fees {
            Some(CrowdfundingError::InsufficientFees)
        } else if self.crowdfunding_token is None {
            Some(CrowdfundingError::NotInitialized)
        } else {
            None
        }
    }

    /// Pays `amount` of the accrued platform fees out to the admin, in the
    /// platform asset; the accrued balance drops by the amount.
    pub fn withdraw_platform_fees(&mut self, auth: &AuthContext, admin: AccountId, amount: i128)
        -> (r: Result<TransferEffect, CrowdfundingError>)
        requires
            old(self).wf(),
        ensures
            final(self).wf(),
            match r {
                Err(e) => *final(self) == *old(self) && old(self).withdraw_platform_fees_error(
                    *auth,
                    admin,
                    amount,
                ) == Some(e),
                Ok(t) => ({
                    &&& old(self).withdraw_platform_fees_error(*auth, admin, amount) is None
                    &&& final(self).platform_fees == old(self).platform_fees - amount
                    &&& *final(self) == (CrowdfundingContract {
                        platform_fees: final(self).platform_fees,
                        ..*old(self)
                    })
                    &&& t == (TransferEffect {
                        from: Party::Contract,
                        to: Party::Account(admin),
                        asset: old(self).crowdfunding_token->Some_0,
                        amount,
                    })
                }),
            },
    {
        let stored_admin = match self.admin {
            None => {
                return Err(CrowdfundingError::NotInitialized);
            },
            Some(a) => a,
        };
        if admin != stored_admin {
            return Err(CrowdfundingError::Unauthorized);
        }
        if auth.id != admin {
            return Err(CrowdfundingError::Unauthorized);
        }
        if amount <= 0 {
            return Err(CrowdfundingError::InvalidAmount);
        }
        if amount > self.platform_fees {
            return Err(CrowdfundingError::InsufficientFees);
        }
        let token = match self.crowdfunding_token {
            None => {
                return Err(CrowdfundingError::NotInitialized);
            },
            Some(t) => t,
        };
        self.platform_fees = self.platform_fees - amount;
        Ok(
            TransferEffect {
                from: Party::Contract,
                to: Party::Account(admin),
                asset: token,
                amount,
            },
        )
    }

    /// The first failing precondition of `request_emergency_withdraw`, or
    /// `None`. The stored-admin lookup reports its absence as
    /// `CampaignNotFound`; at most one request may be outstanding.
    pub open spec fn request_emergency_error(
        self,
        auth: AuthContext,
    ) -> Option<CrowdfundingError> {
        if self.admin is None {
            Some(CrowdfundingError::CampaignNotFound)
        } else if self.admin != Some(auth.id) {
            Some(CrowdfundingError::Unauthorized)
        } else if self.emergency_request is Some {
            Some(CrowdfundingError::EmergencyWithdrawalAlreadyRequested)
        } else {
            None
        }
    }

    /// Files the singleton emergency withdrawal request, to the admin, at
    /// time `now`; execution becomes possible only a full timelock later.
    pub fn request_emergency_withdraw(
        &mut self,
        auth: &AuthContext,
        now: u64,
        token: AssetId,
        amount: i128,
    ) -> (r: Result<(), CrowdfundingError>)
        requires
            old(self).wf(),
        ensures
            final(self).wf(),
            match r {
                Err(e) => *final(self) == *old(self) && old(self).request_emergency_error(*auth)
                    == Some(e),
                Ok(_) => ({
                    &&& old(self).request_emergency_error(*auth) is None
                    &&& *final(self) == (CrowdfundingContract {
                        emergency_request: Some(
                            EmergencyWithdrawal {
                                recipient: old(self).admin->Some_0,
                                amount,
                                token,
                                requested_at: now,
                                executed: false,
                            },
                        ),
                        ..*old(self)
                    })
                }),
            },
    {
        let admin = match self.admin {
            None => {
                return Err(CrowdfundingError::CampaignNotFound);
            },
            Some(a) => a,
        };
        if auth.id != admin {
            return Err(CrowdfundingError::Unauthorized);
        }
        if self.emergency_request.is_some() {
            return Err(CrowdfundingError::EmergencyWithdrawalAlreadyRequested);
        }
        self.emergency_request = Some(
            EmergencyWithdrawal {
                recipient: admin,
                amount,
                token,
                requested_at: now,
                executed: false,
            },
        );
        Ok(())
    }

    /// The first failing precondition of `execute_emergency_withdraw`, or
    /// `None`. The stored-admin lookup reports its absence as
    /// `CampaignNotFound`; execution demands an outstanding, unexecuted
    /// request whose timelock has fully elapsed.
    pub open spec fn execute_emergency_error(
        self,
        auth: AuthContext,
        now: u64,
    ) -> Option<CrowdfundingError> {
        if self.admin is None {
            Some(CrowdfundingError::CampaignNotFound)
        } else if self.admin != Some(auth.id) {
            Some(CrowdfundingError::Unauthorized)
        } else if self.emergency_request is None {
            Some(CrowdfundingError::EmergencyWithdrawalNotRequested)
        } else if self.emergency_request->Some_0.executed {
            Some(CrowdfundingError::EmergencyWithdrawalAlreadyRequested)
        } else if (now as int) < self.emergency_request->Some_0.requested_at
            + EMERGENCY_WITHDRAWAL_TIMELOCK {
            Some(CrowdfundingError::EmergencyWithdrawalPeriodNotPassed)
        } else {
            None
        }
    }

    /// Executes the outstanding emergency withdrawal once the timelock has
    /// elapsed: the recorded amount of the recorded token moves from the
    /// contract to the admin, and the request is removed, so a second
    /// execution fails and a new request may be filed.
    pub fn execute_emergency_withdraw(&mut self, auth: &AuthContext, now: u64) -> (r: Result<
        TransferEffect,
        CrowdfundingError,
    >)
        requires
            old(self).wf(),
        ensures
            final(self).wf(),
            match r {
                Err(e) => *final(self) == *old(self) && old(self).execute_emergency_error(
                    *auth,
                    now,
                ) == Some(e),
                Ok(t) => ({
                    let req = old(self).emergency_request->Some_0;
                    &&& old(self).execute_emergency_error(*auth, now) is None
                    &&& *final(self) == (CrowdfundingContract {
                        emergency_request: None,
                        ..*old(self)
                    })
                    &&& t == (TransferEffect {
                        from: Party::Contract,
                        to: Party::Account(old(self).admin->Some_0),
                        asset: req.token,
                        amount: req.amount,
                    })
                }),
            },
    {
        let admin = match self.admin {
            None => {
                return Err(CrowdfundingError::CampaignNotFound);
            },
            Some(a) => a,
        };
        if auth.id != admin {
            return Err(CrowdfundingError::Unauthorized);
        }
        let request = match self.emergency_request {
            None => {
                return Err(CrowdfundingError::EmergencyWithdrawalNotRequested);
            },
            Some(req) => req,
        };
        if request.executed {
            return Err(CrowdfundingError::EmergencyWithdrawalAlreadyRequested);
        }
        if now < request.requested_at || now - request.requested_at
            < EMERGENCY_WITHDRAWAL_TIMELOCK {
            return Err(CrowdfundingError::EmergencyWithdrawalPeriodNotPassed);
        }
        self.emergency_request = None;
        Ok(
            TransferEffect {
                from: Party::Contract,
                to: Party::Account(admin),
                asset: request.token,
                amount: request.amount,
            },
        )
    }
}

} // verus!
