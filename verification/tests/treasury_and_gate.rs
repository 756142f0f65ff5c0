//! The access gate's own operations and the fee/emergency subsystem.

use crowdfunding::errors::CrowdfundingError;
use crowdfunding::state::CrowdfundingContract;
use crowdfunding::types::{AuthContext, Party, TransferEffect};

const ADMIN: u64 = 1;
const TOKEN: u64 = 90;
const DAY: u64 = 86400;

fn auth(id: u64) -> AuthContext {
    AuthContext::for_account(id)
}

fn initialized() -> CrowdfundingContract {
    let mut c = CrowdfundingContract::new();
    assert!(c.initialize(ADMIN, TOKEN, 0).is_ok());
    c
}

#[test]
fn initialization_happens_exactly_once() {
    let mut c = CrowdfundingContract::new();
    assert_eq!(
        c.initialize(ADMIN, TOKEN, -1),
        Err(CrowdfundingError::InvalidFee)
    );
    assert!(c.initialize(ADMIN, TOKEN, 5).is_ok());
    assert_eq!(
        c.initialize(7, TOKEN, 0),
        Err(CrowdfundingError::ContractAlreadyInitialized)
    );
    assert_eq!(c.get_creation_fee(), Ok(5));
    assert_eq!(c.get_crowdfunding_token(), Ok(TOKEN));
}

#[test]
fn pause_and_unpause_are_admin_only_and_not_redundant() {
    let mut fresh = CrowdfundingContract::new();
    assert_eq!(fresh.pause(&auth(ADMIN)), Err(CrowdfundingError::NotInitialized));

    let mut c = initialized();
    assert_eq!(c.pause(&auth(2)), Err(CrowdfundingError::Unauthorized));
    assert_eq!(c.unpause(&auth(ADMIN)), Err(CrowdfundingError::ContractAlreadyUnpaused));
    assert!(!c.is_paused());
    assert!(c.pause(&auth(ADMIN)).is_ok());
    assert!(c.is_paused());
    assert_eq!(c.pause(&auth(ADMIN)), Err(CrowdfundingError::ContractAlreadyPaused));
    assert!(c.unpause(&auth(ADMIN)).is_ok());
    assert!(!c.is_paused());
}

#[test]
fn renouncing_the_admin_is_final_for_the_gate() {
    let mut c = initialized();
    assert_eq!(c.renounce_admin(&auth(2)), Err(CrowdfundingError::Unauthorized));
    assert!(c.renounce_admin(&auth(ADMIN)).is_ok());
    assert_eq!(c.pause(&auth(ADMIN)), Err(CrowdfundingError::NotInitialized));
    assert_eq!(
        c.blacklist_address(&auth(ADMIN), 9),
        Err(CrowdfundingError::NotInitialized)
    );
}

#[test]
fn token_fee_contact_and_causes_are_admin_settings() {
    let mut c = initialized();
    assert_eq!(c.set_crowdfunding_token(&auth(2), 91), Err(CrowdfundingError::Unauthorized));
    assert!(c.set_crowdfunding_token(&auth(ADMIN), 91).is_ok());
    assert_eq!(c.get_crowdfunding_token(), Ok(91));

    assert_eq!(c.set_creation_fee(&auth(ADMIN), -2), Err(CrowdfundingError::InvalidFee));
    assert!(c.set_creation_fee(&auth(ADMIN), 7).is_ok());
    assert_eq!(c.get_creation_fee(), Ok(7));

    assert_eq!(c.get_emergency_contact(), Err(CrowdfundingError::NotInitialized));
    assert!(c.set_emergency_contact(&auth(ADMIN), 55).is_ok());
    assert_eq!(c.get_emergency_contact(), Ok(55));

    assert!(!c.is_cause_verified(70));
    assert_eq!(c.verify_cause(&auth(2), 70), Err(CrowdfundingError::Unauthorized));
    assert!(c.verify_cause(&auth(ADMIN), 70).is_ok());
    assert!(c.is_cause_verified(70));
    assert!(!c.is_cause_verified(71));
}

#[test]
fn platform_fee_withdrawal_is_gated_and_bounded() {
    let mut c = CrowdfundingContract::new();
    assert!(c.initialize(ADMIN, TOKEN, 40).is_ok());
    let creator: u64 = 2;
    let id = crowdfunding::types::CampaignId::new(1, 0, 0, 0);
    assert!(
        c.create_campaign(&auth(creator), 0, id, b"x".to_vec(), creator, 100, 100, 40).is_ok()
    );

    assert_eq!(
        c.withdraw_platform_fees(&auth(2), 2, 10),
        Err(CrowdfundingError::Unauthorized)
    );
    assert_eq!(
        c.withdraw_platform_fees(&auth(2), ADMIN, 10),
        Err(CrowdfundingError::Unauthorized)
    );
    assert_eq!(
        c.withdraw_platform_fees(&auth(ADMIN), ADMIN, 0),
        Err(CrowdfundingError::InvalidAmount)
    );
    assert_eq!(
        c.withdraw_platform_fees(&auth(ADMIN), ADMIN, 41),
        Err(CrowdfundingError::InsufficientFees)
    );
    let t = c.withdraw_platform_fees(&auth(ADMIN), ADMIN, 30).unwrap();
    assert_eq!(
        t,
        TransferEffect { from: Party::Contract, to: Party::Account(ADMIN), asset: TOKEN, amount: 30 }
    );
    assert_eq!(
        c.withdraw_platform_fees(&auth(ADMIN), ADMIN, 11),
        Err(CrowdfundingError::InsufficientFees)
    );
    assert!(c.withdraw_platform_fees(&auth(ADMIN), ADMIN, 10).is_ok());
}

#[test]
fn emergency_withdrawal_waits_out_the_timelock_and_runs_once() {
    let mut c = initialized();

    assert_eq!(
        c.execute_emergency_withdraw(&auth(ADMIN), 0),
        Err(CrowdfundingError::EmergencyWithdrawalNotRequested)
    );
    assert_eq!(
        c.request_emergency_withdraw(&auth(2), 0, TOKEN, 1000),
        Err(CrowdfundingError::Unauthorized)
    );
    assert!(c.request_emergency_withdraw(&auth(ADMIN), 100, TOKEN, 1000).is_ok());
    assert_eq!(
        c.request_emergency_withdraw(&auth(ADMIN), 200, TOKEN, 1),
        Err(CrowdfundingError::EmergencyWithdrawalAlreadyRequested)
    );

    // Before the 24-hour mark execution always fails.
    assert_eq!(
        c.execute_emergency_withdraw(&auth(ADMIN), 100),
        Err(CrowdfundingError::EmergencyWithdrawalPeriodNotPassed)
    );
    assert_eq!(
        c.execute_emergency_withdraw(&auth(ADMIN), 100 + DAY - 1),
        Err(CrowdfundingError::EmergencyWithdrawalPeriodNotPassed)
    );

    // At the mark it succeeds exactly once.
    let t = c.execute_emergency_withdraw(&auth(ADMIN), 100 + DAY).unwrap();
    assert_eq!(
        t,
        TransferEffect { from: Party::Contract, to: Party::Account(ADMIN), asset: TOKEN, amount: 1000 }
    );
    assert_eq!(
        c.execute_emergency_withdraw(&auth(ADMIN), 100 + DAY + 1),
        Err(CrowdfundingError::EmergencyWithdrawalNotRequested)
    );

    // The singleton is free again for a new request.
    assert!(c.request_emergency_withdraw(&auth(ADMIN), 300 + DAY, TOKEN, 5).is_ok());
}

#[test]
fn emergency_paths_need_a_configured_admin() {
    let mut c = CrowdfundingContract::new();
    assert_eq!(
        c.request_emergency_withdraw(&auth(ADMIN), 0, TOKEN, 1),
        Err(CrowdfundingError::CampaignNotFound)
    );
    assert_eq!(
        c.execute_emergency_withdraw(&auth(ADMIN), 0),
        Err(CrowdfundingError::CampaignNotFound)
    );
}
