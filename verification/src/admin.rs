//! The access gate: initialization, admin identity, pause flag, blacklist,
//! verified causes, fee configuration and the emergency contact.
//!
//! Every mutating ledger operation consults this state first. The mutators
//! here are themselves admin-only: they fail with `NotInitialized` when no admin is
//! set and with `Unauthorized` when the call is not authorized as the admin.

use vstd::prelude::*;
use crate::errors::CrowdfundingError;
use crate::state::CrowdfundingContract;
use crate::types::{AccountId, AssetId, AuthContext};

verus! {

/// Whether a list of identities contains the given one.
pub(crate) fn contains_account(v: &Vec<AccountId>, x: AccountId) -> (r: bool)
    ensures
        r == v@.contains(x),
{
    let mut i: usize = 0;
    while i < v.len()
        invariant
            i <= v@.len(),
            forall|j: int| 0 <= j < i ==> v@[j] != x,
        decreases v@.len() - i,
    {
        if v[i] == x {
            return true;
        }
        i = i + 1;
    }
    false
}

/// Finds the first position of an identity in a list.
pub(crate) fn find_account(v: &Vec<AccountId>, x: AccountId) -> (r: Option<usize>)
    ensures
        (r is Some) <==> v@.contains(x),
        r matches Some(i) ==> i < v@.len() && v@[i as int] == x,
{
    let mut i: usize = 0;
    while i < v.len()
        invariant
            i <= v@.len(),
            forall|j: int| 0 <= j < i ==> v@[j] != x,
        decreases v@.len() - i,
    {
        if v[i] == x {
            return Some(i);
        }
        i = i + 1;
    }
    None
}

impl CrowdfundingContract {
    /// Sets the admin, the platform asset, the creation fee and the unpaused
    /// state, exactly once: fails with `ContractAlreadyInitialized` while an
    /// admin is set, and with `InvalidFee` on a negative fee rate.
    pub fn initialize(&mut self, admin: AccountId, token: AssetId, creation_fee: i128) -> (r:
        Result<(), CrowdfundingError>)
        requires
            old(self).wf(),
        ensures
            final(self).wf(),
            match r {
                Ok(_) => old(self).admin is None && creation_fee >= 0 && *final(self)
                    == (CrowdfundingContract {
                    admin: Some(admin),
                    crowdfunding_token: Some(token),
                    creation_fee: creation_fee,
                    paused: false,
                    ..*old(self)
                }),
                Err(e) => *final(self) == *old(self) && (if old(self).admin is Some {
                    e == CrowdfundingError::ContractAlreadyInitialized
                } else {
                    creation_fee < 0 && e == CrowdfundingError::InvalidFee
                }),
            },
    {
        if self.admin.is_some() {
            return Err(CrowdfundingError::ContractAlreadyInitialized);
        }
        if creation_fee < 0 {
            return Err(CrowdfundingError::InvalidFee);
        }
        self.admin = Some(admin);
        self.crowdfunding_token = Some(token);
        self.creation_fee = creation_fee;
        self.paused = false;
        Ok(())
    }

    /// Sets the pause flag; admin-only, fails with `ContractAlreadyPaused`
    /// when already paused.
    pub fn pause(&mut self, auth: &AuthContext) -> (r: Result<(), CrowdfundingError>)
        requires
            old(self).wf(),
        ensures
            final(self).wf(),
            match r {
                Ok(_) => old(self).admin == Some(auth.id) && !old(self).paused && *final(self)
                    == (CrowdfundingContract { paused: true, ..*old(self) }),
                Err(e) => *final(self) == *old(self) && (if old(self).admin is None {
                    e == CrowdfundingError::NotInitialized
                } else if old(self).admin != Some(auth.id) {
                    e == CrowdfundingError::Unauthorized
                } else {
                    old(self).paused && e == CrowdfundingError::ContractAlreadyPaused
                }),
            },
    {
        match self.admin {
            None => Err(CrowdfundingError::NotInitialized),
            Some(a) => {
                if auth.id != a {
                    Err(CrowdfundingError::Unauthorized)
                } else if self.paused {
                    Err(CrowdfundingError::ContractAlreadyPaused)
                } else {
                    self.paused = true;
                    Ok(())
                }
            },
        }
    }

    /// Clears the pause flag; admin-only, fails with
    /// `ContractAlreadyUnpaused` when not paused.
    pub fn unpause(&mut self, auth: &AuthContext) -> (r: Result<(), CrowdfundingError>)
        requires
            old(self).wf(),
        ensures
            final(self).wf(),
            match r {
                Ok(_) => old(self).admin == Some(auth.id) && old(self).paused && *final(self)
                    == (CrowdfundingContract { paused: false, ..*old(self) }),
                Err(e) => *final(self) == *old(self) && (if old(self).admin is None {
                    e == CrowdfundingError::NotInitialized
                } else if old(self).admin != Some(auth.id) {
                    e == CrowdfundingError::Unauthorized
                } else {
                    !old(self).paused && e == CrowdfundingError::ContractAlreadyUnpaused
                }),
            },
    {
        match self.admin {
            None => Err(CrowdfundingError::NotInitialized),
            Some(a) => {
                if auth.id != a {
                    Err(CrowdfundingError::Unauthorized)
                } else if !self.paused {
                    Err(CrowdfundingError::ContractAlreadyUnpaused)
                } else {
                    self.paused = false;
                    Ok(())
                }
            },
        }
    }

    /// Removes the admin. No later call can restore one; only a fresh
    /// initialization can set an admin again.
    pub fn renounce_admin(&mut self, auth: &AuthContext) -> (r: Result<(), CrowdfundingError>)
        requires
            old(self).wf(),
        ensures
            final(self).wf(),
            match r {
                Ok(_) => old(self).admin == Some(auth.id) && *final(self)
                    == (CrowdfundingContract { admin: None, ..*old(self) }),
                Err(e) => *final(self) == *old(self) && (if old(self).admin is None {
                    e == CrowdfundingError::NotInitialized
                } else {
                    old(self).admin != Some(auth.id) && e == CrowdfundingError::Unauthorized
                }),
            },
    {
        match self.admin {
            None => Err(CrowdfundingError::NotInitialized),
            Some(a) => {
                if auth.id != a {
                    Err(CrowdfundingError::Unauthorized)
                } else {
                    self.admin = None;
                    Ok(())
                }
            },
        }
    }

    /// Whether the ledger is paused.
    pub fn is_paused(&self) -> (r: bool)
        ensures
            r == self.paused,
    {
        self.paused
    }

    /// Replaces the platform asset; admin-only.
    pub fn set_crowdfunding_token(&mut self, auth: &AuthContext, token: AssetId) -> (r: Result<
        (),
        CrowdfundingError,
    >)
        requires
            old(self).wf(),
        ensures
            final(self).wf(),
            match r {
                Ok(_) => old(self).admin == Some(auth.id) && *final(self)
                    == (CrowdfundingContract { crowdfunding_token: Some(token), ..*old(self) }),
                Err(e) => *final(self) == *old(self) && (if old(self).admin is None {
                    e == CrowdfundingError::NotInitialized
                } else {
                    old(self).admin != Some(auth.id) && e == CrowdfundingError::Unauthorized
                }),
            },
    {
        match self.admin {
            None => Err(CrowdfundingError::NotInitialized),
            Some(a) => {
                if auth.id != a {
                    Err(CrowdfundingError::Unauthorized)
                } else {
                    self.crowdfunding_token = Some(token);
                    Ok(())
                }
            },
        }
    }

    /// The platform asset, or `NotInitialized` before one is set.
    pub fn get_crowdfunding_token(&self) -> (r: Result<AssetId, CrowdfundingError>)
        ensures
            match r {
                Ok(t) => self.crowdfunding_token == Some(t),
                Err(e) => self.crowdfunding_token is None && e
                    == CrowdfundingError::NotInitialized,
            },
    {
        match self.crowdfunding_token {
            Some(t) => Ok(t),
            None => Err(CrowdfundingError::NotInitialized),
        }
    }

    /// Replaces the creation fee rate; admin-only, fails with `InvalidFee`
    /// on a negative rate.
    pub fn set_creation_fee(&mut self, auth: &AuthContext, fee: i128) -> (r: Result<
        (),
        CrowdfundingError,
    >)
        requires
            old(self).wf(),
        ensures
            final(self).wf(),
            match r {
                Ok(_) => old(self).admin == Some(auth.id) && fee >= 0 && *final(self)
                    == (CrowdfundingContract { creation_fee: fee, ..*old(self) }),
                Err(e) => *final(self) == *old(self) && (if old(self).admin is None {
                    e == CrowdfundingError::NotInitialized
                } else if old(self).admin != Some(auth.id) {
                    e == CrowdfundingError::Unauthorized
                } else {
                    fee < 0 && e == CrowdfundingError::InvalidFee
                }),
            },
    {
        match self.admin {
            None => Err(CrowdfundingError::NotInitialized),
            Some(a) => {
                if auth.id != a {
                    Err(CrowdfundingError::Unauthorized)
                } else if fee < 0 {
                    Err(CrowdfundingError::InvalidFee)
                } else {
                    self.creation_fee = fee;
                    Ok(())
                }
            },
        }
    }

    /// The configured creation fee rate (zero before initialization).
    pub fn get_creation_fee(&self) -> (r: Result<i128, CrowdfundingError>)
        ensures
            r == Ok::<i128, CrowdfundingError>(self.creation_fee),
    {
        Ok(self.creation_fee)
    }

    /// Puts an identity on the blacklist; admin-only, idempotent.
    pub fn blacklist_address(&mut self, auth: &AuthContext, address: AccountId) -> (r: Result<
        (),
        CrowdfundingError,
    >)
        requires
            old(self).wf(),
        ensures
            final(self).wf(),
            match r {
                Ok(_) => old(self).admin == Some(auth.id) && final(self).blacklisted(address)
                    && (forall|b: AccountId|
                    b != address ==> final(self).blacklisted(b) == old(self).blacklisted(b))
                    && *final(self) == (CrowdfundingContract {
                    blacklist: final(self).blacklist,
                    ..*old(self)
                }),
                Err(e) => *final(self) == *old(self) && (if old(self).admin is None {
                    e == CrowdfundingError::NotInitialized
                } else {
                    old(self).admin != Some(auth.id) && e == CrowdfundingError::Unauthorized
                }),
            },
    {
        match self.admin {
            None => Err(CrowdfundingError::NotInitialized),
            Some(a) => {
                if auth.id != a {
                    Err(CrowdfundingError::Unauthorized)
                } else {
                    if !contains_account(&self.blacklist, address) {
                        self.blacklist.push(address);
                        proof {
                            let s0 = old(self).blacklist@;
                            let s1 = self.blacklist@;
                            assert(s1[s0.len() as int] == address);
                            assert(s1.contains(address));
                            assert forall|b: AccountId| b != address implies s1.contains(b)
                                == s0.contains(b) by {
                                if s0.contains(b) {
                                    let k = choose|k: int| 0 <= k < s0.len() && s0[k] == b;
                                    assert(s1[k] == b);
                                }
                                if s1.contains(b) {
                                    let k = choose|k: int| 0 <= k < s1.len() && s1[k] == b;
                                    assert(k < s0.len());
                                    assert(s0[k] == b);
                                }
                            }
                        }
                    }
                    Ok(())
                }
            },
        }
    }

    /// Takes an identity off the blacklist; admin-only, idempotent.
    pub fn unblacklist_address(&mut self, auth: &AuthContext, address: AccountId) -> (r: Result<
        (),
        CrowdfundingError,
    >)
        requires
            old(self).wf(),
        ensures
            final(self).wf(),
            match r {
                Ok(_) => old(self).admin == Some(auth.id) && !final(self).blacklisted(address)
                    && (forall|b: AccountId|
                    b != address ==> final(self).blacklisted(b) == old(self).blacklisted(b))
                    && *final(self) == (CrowdfundingContract {
                    blacklist: final(self).blacklist,
                    ..*old(self)
                }),
                Err(e) => *final(self) == *old(self) && (if old(self).admin is None {
                    e == CrowdfundingError::NotInitialized
                } else {
                    old(self).admin != Some(auth.id) && e == CrowdfundingError::Unauthorized
                }),
            },
    {
        match self.admin {
            None => Err(CrowdfundingError::NotInitialized),
            Some(a) => {
                if auth.id != a {
                    Err(CrowdfundingError::Unauthorized)
                } else {
                    let found = find_account(&self.blacklist, address);
                    match found {
                        None => Ok(()),
                        Some(i) => {
                            self.blacklist.remove(i);
                            proof {
                                let s0 = old(self).blacklist@;
                                let s1 = self.blacklist@;
                                let iv = i as int;
                                assert(s1 =~= s0.subrange(0, iv) + s0.subrange(
                                    iv + 1,
                                    s0.len() as int,
                                ));
                                assert forall|b: AccountId|
                                    b != address implies s1.contains(b) == s0.contains(b) by {
                                    if s0.contains(b) {
                                        let k = choose|k: int| 0 <= k < s0.len() && s0[k] == b;
                                        if k < iv {
                                            assert(s1[k] == b);
                                        } else {
                                            assert(s1[k - 1] == b);
                                        }
                                        assert(s1.contains(b));
                                    }
                                    if s1.contains(b) {
                                        let k = choose|k: int| 0 <= k < s1.len() && s1[k] == b;
                                        if k < iv {
                                            assert(s0[k] == b);
                                        } else {
                                            assert(s0[k + 1] == b);
                                        }
                                        assert(s0.contains(b));
                                    }
                                }
                                assert forall|k: int|
                                    0 <= k < s1.len() implies s1[k] != address by {
                                    if k < iv {
                                        assert(s1[k] == s0[k]);
                                    } else {
                                        assert(s1[k] == s0[k + 1]);
                                    }
                                }
                                assert(!s1.contains(address));
                            }
                            Ok(())
                        },
                    }
                }
            },
        }
    }

    /// Whether an identity is on the blacklist; a pure read.
    pub fn is_blacklisted(&self, address: AccountId) -> (r: bool)
        ensures
            r == self.blacklisted(address),
    {
        contains_account(&self.blacklist, address)
    }

    /// Marks an identity as a verified cause; admin-only, idempotent.
    pub fn verify_cause(&mut self, auth: &AuthContext, cause: AccountId) -> (r: Result<
        (),
        CrowdfundingError,
    >)
        requires
            old(self).wf(),
        ensures
            final(self).wf(),
            match r {
                Ok(_) => old(self).admin == Some(auth.id) && final(self).cause_verified(cause)
                    && (forall|b: AccountId|
                    b != cause ==> final(self).cause_verified(b) == old(self).cause_verified(b))
                    && *final(self) == (CrowdfundingContract {
                    verified_causes: final(self).verified_causes,
                    ..*old(self)
                }),
                Err(e) => *final(self) == *old(self) && (if old(self).admin is None {
                    e == CrowdfundingError::NotInitialized
                } else {
                    old(self).admin != Some(auth.id) && e == CrowdfundingError::Unauthorized
                }),
            },
    {
        match self.admin {
            None => Err(CrowdfundingError::NotInitialized),
            Some(a) => {
                if auth.id != a {
                    Err(CrowdfundingError::Unauthorized)
                } else {
                    if !contains_account(&self.verified_causes, cause) {
                        self.verified_causes.push(cause);
                        proof {
                            let s0 = old(self).verified_causes@;
                            let s1 = self.verified_causes@;
                            assert(s1[s0.len() as int] == cause);
                            assert(s1.contains(cause));
                            assert forall|b: AccountId| b != cause implies s1.contains(b)
                                == s0.contains(b) by {
                                if s0.contains(b) {
                                    let k = choose|k: int| 0 <= k < s0.len() && s0[k] == b;
                                    assert(s1[k] == b);
                                }
                                if s1.contains(b) {
                                    let k = choose|k: int| 0 <= k < s1.len() && s1[k] == b;
                                    assert(k < s0.len());
                                    assert(s0[k] == b);
                                }
                            }
                        }
                    }
                    Ok(())
                }
            },
        }
    }

    /// Whether an identity is marked as a verified cause; a pure read.
    pub fn is_cause_verified(&self, cause: AccountId) -> (r: bool)
        ensures
            r == self.cause_verified(cause),
    {
        contains_account(&self.verified_causes, cause)
    }

    /// Replaces the emergency contact; admin-only.
    pub fn set_emergency_contact(&mut self, auth: &AuthContext, contact: AccountId) -> (r: Result<
        (),
        CrowdfundingError,
    >)
        requires
            old(self).wf(),
        ensures
            final(self).wf(),
            match r {
                Ok(_) => old(self).admin == Some(auth.id) && *final(self)
                    == (CrowdfundingContract {
                    emergency_contact: Some(contact),
                    ..*old(self)
                }),
                Err(e) => *final(self) == *old(self) && (if old(self).admin is None {
                    e == CrowdfundingError::NotInitialized
                } else {
                    old(self).admin != Some(auth.id) && e == CrowdfundingError::Unauthorized
                }),
            },
    {
        match self.admin {
            None => Err(CrowdfundingError::NotInitialized),
            Some(a) => {
                if auth.id != a {
                    Err(CrowdfundingError::Unauthorized)
                } else {
                    self.emergency_contact = Some(contact);
                    Ok(())
                }
            },
        }
    }

    /// The emergency contact, or `NotInitialized` before one is set.
    pub fn get_emergency_contact(&self) -> (r: Result<AccountId, CrowdfundingError>)
        ensures
            match r {
                Ok(c) => self.emergency_contact == Some(c),
                Err(e) => self.emergency_contact is None && e == CrowdfundingError::NotInitialized,
            },
    {
        match self.emergency_contact {
            Some(c) => Ok(c),
            None => Err(CrowdfundingError::NotInitialized),
        }
    }

    /// The engine's version string, as bytes.
    pub fn get_contract_version(&self) -> (r: Vec<u8>)
        ensures
            r@ == seq![49u8, 46u8, 50u8, 46u8, 48u8],
    {
        let r: Vec<u8> = vec![49u8, 46u8, 50u8, 46u8, 48u8];
        proof {
            assert(r@ =~= seq![49u8, 46u8, 50u8, 46u8, 48u8]);
        }
        r
    }
}

} // verus!
