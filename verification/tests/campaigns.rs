//! Campaign lifecycle: creation, donations, fees, deadline extension and
//! the derived reads.

use crowdfunding::errors::CrowdfundingError;
use crowdfunding::state::CrowdfundingContract;
use crowdfunding::types::{
    AuthContext, CampaignId, CampaignLifecycleStatus, Party, TransferEffect,
};

const ADMIN: u64 = 1;
const TOKEN: u64 = 90;
const CREATOR: u64 = 2;

fn auth(id: u64) -> AuthContext {
    AuthContext::for_account(id)
}

fn initialized() -> CrowdfundingContract {
    let mut c = CrowdfundingContract::new();
    assert!(c.initialize(ADMIN, TOKEN, 0).is_ok());
    c
}

fn with_campaign(goal: i128, deadline: u64) -> (CrowdfundingContract, CampaignId) {
    let mut c = initialized();
    let id = CampaignId::new(1, 0, 0, 0);
    assert!(
        c.create_campaign(&auth(CREATOR), 0, id, b"Prairie library".to_vec(), CREATOR, goal, deadline, 0)
            .is_ok()
    );
    (c, id)
}

#[test]
fn funding_scenario_runs_to_the_goal_and_no_further() {
    let (mut c, id) = with_campaign(1000, 100);

    let donor_a: u64 = 10;
    let t = c.donate(&auth(donor_a), 10, id, donor_a, TOKEN, 400).unwrap();
    assert_eq!(
        t,
        TransferEffect { from: Party::Account(donor_a), to: Party::Contract, asset: TOKEN, amount: 400 }
    );
    assert_eq!(c.get_total_raised(id), Ok(400));
    assert_eq!(c.get_campaign_status(id, 10), Ok(CampaignLifecycleStatus::Active));

    let donor_b: u64 = 11;
    assert!(c.donate(&auth(donor_b), 20, id, donor_b, TOKEN, 600).is_ok());
    assert_eq!(c.get_total_raised(id), Ok(1000));
    assert_eq!(c.get_campaign_status(id, 20), Ok(CampaignLifecycleStatus::Funded));
    assert_eq!(c.is_campaign_completed(id), Ok(true));

    let r = c.donate(&auth(donor_a), 30, id, donor_a, TOKEN, 1);
    assert_eq!(r, Err(CrowdfundingError::CampaignAlreadyFunded));
    assert_eq!(c.get_total_raised(id), Ok(1000));
}

#[test]
fn totals_equal_the_sum_of_cumulative_contributions() {
    let (mut c, id) = with_campaign(10_000, 100);
    let donor_a: u64 = 10;
    let donor_b: u64 = 11;
    assert!(c.donate(&auth(donor_a), 1, id, donor_a, TOKEN, 300).is_ok());
    assert!(c.donate(&auth(donor_b), 2, id, donor_b, TOKEN, 500).is_ok());
    assert!(c.donate(&auth(donor_a), 3, id, donor_a, TOKEN, 200).is_ok());

    assert_eq!(c.get_contribution(id, donor_a), Ok(500));
    assert_eq!(c.get_contribution(id, donor_b), Ok(500));
    assert_eq!(c.get_contribution(id, 12), Ok(0));
    assert_eq!(c.get_total_raised(id), Ok(1000));
    assert_eq!(c.get_campaign_balance(id), Ok(1000));
    assert_eq!(c.get_global_raised_total(), 1000);
    assert_eq!(c.get_donor_count(id), Ok(2));
}

#[test]
fn donating_at_or_after_the_deadline_expires() {
    let (mut c, id) = with_campaign(1000, 100);
    let donor: u64 = 10;
    // Exactly at the deadline, and well past it; the remaining goal gap is
    // irrelevant.
    assert_eq!(
        c.donate(&auth(donor), 100, id, donor, TOKEN, 999),
        Err(CrowdfundingError::CampaignExpired)
    );
    assert_eq!(
        c.donate(&auth(donor), 5000, id, donor, TOKEN, 1),
        Err(CrowdfundingError::CampaignExpired)
    );
    assert_eq!(c.get_campaign_status(id, 100), Ok(CampaignLifecycleStatus::Expired));
}

#[test]
fn fee_skim_truncates_one_percent() {
    let (mut c, id) = with_campaign(100_000, 1000);
    let donor: u64 = 10;

    assert!(c.donate(&auth(donor), 1, id, donor, TOKEN, 250).is_ok());
    assert_eq!(c.get_campaign_fee_history(id), Ok(2));

    assert!(c.donate(&auth(donor), 2, id, donor, TOKEN, 99).is_ok());
    assert_eq!(c.get_campaign_fee_history(id), Ok(2));
}

#[test]
fn whale_tracking_keeps_the_earlier_donor_on_ties() {
    let (mut c, id) = with_campaign(100_000, 1000);
    let donor_a: u64 = 10;
    let donor_b: u64 = 11;

    assert_eq!(
        c.get_top_contributor_for_campaign(id),
        Err(CrowdfundingError::CampaignNotFound)
    );
    assert!(c.donate(&auth(donor_a), 1, id, donor_a, TOKEN, 500).is_ok());
    assert_eq!(c.get_top_contributor_for_campaign(id), Ok(donor_a));

    // An equal donation does not displace the incumbent.
    assert!(c.donate(&auth(donor_b), 2, id, donor_b, TOKEN, 500).is_ok());
    assert_eq!(c.get_top_contributor_for_campaign(id), Ok(donor_a));

    // A strictly larger one does.
    assert!(c.donate(&auth(donor_b), 3, id, donor_b, TOKEN, 501).is_ok());
    assert_eq!(c.get_top_contributor_for_campaign(id), Ok(donor_b));
}

#[test]
fn creation_validates_inputs_in_order() {
    let mut c = initialized();
    let id = CampaignId::new(1, 0, 0, 0);

    assert_eq!(
        c.create_campaign(&auth(CREATOR), 0, id, Vec::new(), CREATOR, 1000, 100, 0),
        Err(CrowdfundingError::InvalidTitle)
    );
    assert_eq!(
        c.create_campaign(&auth(CREATOR), 0, id, b"x".to_vec(), CREATOR, 0, 100, 0),
        Err(CrowdfundingError::InvalidGoal)
    );
    assert_eq!(
        c.create_campaign(&auth(CREATOR), 50, id, b"x".to_vec(), CREATOR, 1000, 50, 0),
        Err(CrowdfundingError::InvalidDeadline)
    );
    assert_eq!(
        c.create_campaign(&auth(3), 0, id, b"x".to_vec(), CREATOR, 1000, 100, 0),
        Err(CrowdfundingError::Unauthorized)
    );

    assert!(c.create_campaign(&auth(CREATOR), 0, id, b"x".to_vec(), CREATOR, 1000, 100, 0).is_ok());
    assert_eq!(
        c.create_campaign(&auth(CREATOR), 0, id, b"y".to_vec(), CREATOR, 1000, 100, 0),
        Err(CrowdfundingError::CampaignAlreadyExists)
    );
}

#[test]
fn creation_fee_is_debited_and_accrued() {
    let mut c = CrowdfundingContract::new();
    assert!(c.initialize(ADMIN, TOKEN, 25).is_ok());
    let id = CampaignId::new(9, 0, 0, 0);

    // Too poor for the fee: nothing is created.
    assert_eq!(
        c.create_campaign(&auth(CREATOR), 0, id, b"x".to_vec(), CREATOR, 1000, 100, 24),
        Err(CrowdfundingError::InsufficientBalance)
    );
    assert!(c.get_campaign(id).is_err());

    // With a sufficient balance the fee transfer is returned and the fee is
    // withdrawable by the admin.
    let t = c
        .create_campaign(&auth(CREATOR), 0, id, b"x".to_vec(), CREATOR, 1000, 100, 25)
        .unwrap();
    assert_eq!(
        t,
        Some(TransferEffect {
            from: Party::Account(CREATOR),
            to: Party::Contract,
            asset: TOKEN,
            amount: 25
        })
    );
    assert_eq!(
        c.withdraw_platform_fees(&auth(ADMIN), ADMIN, 26),
        Err(CrowdfundingError::InsufficientFees)
    );
    assert!(c.withdraw_platform_fees(&auth(ADMIN), ADMIN, 25).is_ok());
}

#[test]
fn wrong_asset_and_bad_amounts_are_refused() {
    let (mut c, id) = with_campaign(1000, 100);
    let donor: u64 = 10;
    assert_eq!(
        c.donate(&auth(donor), 1, id, donor, TOKEN, 0),
        Err(CrowdfundingError::InvalidDonationAmount)
    );
    assert_eq!(
        c.donate(&auth(donor), 1, id, donor, TOKEN + 1, 10),
        Err(CrowdfundingError::TokenTransferFailed)
    );
    assert_eq!(
        c.donate(&auth(donor), 1, CampaignId::new(2, 0, 0, 0), donor, TOKEN, 10),
        Err(CrowdfundingError::CampaignNotFound)
    );
    assert_eq!(
        c.donate(&auth(11), 1, id, donor, TOKEN, 10),
        Err(CrowdfundingError::Unauthorized)
    );
}

#[test]
fn paused_ledger_refuses_donations() {
    let (mut c, id) = with_campaign(1000, 100);
    assert!(c.pause(&auth(ADMIN)).is_ok());
    let donor: u64 = 10;
    assert_eq!(
        c.donate(&auth(donor), 1, id, donor, TOKEN, 10),
        Err(CrowdfundingError::ContractPaused)
    );
    assert!(c.unpause(&auth(ADMIN)).is_ok());
    assert!(c.donate(&auth(donor), 1, id, donor, TOKEN, 10).is_ok());
}

#[test]
fn deadline_extension_moves_only_forward_within_the_cap() {
    let (mut c, id) = with_campaign(1000, 100);

    assert_eq!(
        c.extend_campaign_deadline(&auth(CREATOR), 10, id, 100),
        Err(CrowdfundingError::InvalidDeadline)
    );
    // 90 days from the moment of extension is the cap.
    assert_eq!(
        c.extend_campaign_deadline(&auth(CREATOR), 10, id, 10 + 90 * 24 * 60 * 60 + 1),
        Err(CrowdfundingError::InvalidDeadline)
    );
    assert_eq!(
        c.extend_campaign_deadline(&auth(5), 10, id, 200),
        Err(CrowdfundingError::Unauthorized)
    );
    assert!(c.extend_campaign_deadline(&auth(CREATOR), 10, id, 200).is_ok());
    assert_eq!(c.get_campaign(id).unwrap().deadline, 200);

    // A funded campaign's deadline is frozen.
    let donor: u64 = 10;
    assert!(c.donate(&auth(donor), 20, id, donor, TOKEN, 1000).is_ok());
    assert_eq!(
        c.extend_campaign_deadline(&auth(CREATOR), 30, id, 300),
        Err(CrowdfundingError::CampaignAlreadyFunded)
    );
}

#[test]
fn index_reads_cover_all_campaigns() {
    let mut c = initialized();
    let a = CampaignId::new(1, 0, 0, 0);
    let b = CampaignId::new(2, 0, 0, 0);
    assert!(c.create_campaign(&auth(CREATOR), 0, a, b"a".to_vec(), CREATOR, 10, 100, 0).is_ok());
    assert!(c.create_campaign(&auth(CREATOR), 0, b, b"b".to_vec(), CREATOR, 10, 500, 0).is_ok());

    let ids = c.get_all_campaigns();
    assert_eq!(ids, vec![a, b]);

    // At 200, only the second deadline is still ahead.
    assert_eq!(c.get_active_campaign_count(200), 1);
    assert_eq!(c.get_active_campaign_count(0), 2);
    assert_eq!(c.get_active_campaign_count(500), 0);

    let both = c.get_campaigns(&vec![b, CampaignId::new(3, 0, 0, 0), a]);
    assert_eq!(both.len(), 2);
    assert_eq!(both[0].id, b);
    assert_eq!(both[1].id, a);

    assert_eq!(c.get_campaign_goal(a), Ok(10));
    assert_eq!(c.get_contract_version(), b"1.2.0".to_vec());
}

#[test]
fn lifecycle_status_precedence() {
    // Cancellation beats everything, then the goal, then expiry.
    assert_eq!(
        CampaignLifecycleStatus::get_status(1000, 1000, 100, 200, true),
        CampaignLifecycleStatus::Cancelled
    );
    assert_eq!(
        CampaignLifecycleStatus::get_status(1000, 1000, 100, 200, false),
        CampaignLifecycleStatus::Funded
    );
    assert_eq!(
        CampaignLifecycleStatus::get_status(999, 1000, 100, 200, false),
        CampaignLifecycleStatus::Expired
    );
    assert_eq!(
        CampaignLifecycleStatus::get_status(999, 1000, 100, 99, false),
        CampaignLifecycleStatus::Active
    );
}
