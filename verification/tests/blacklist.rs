//! Blacklist behaviour of the access gate.

use crowdfunding::state::CrowdfundingContract;
use crowdfunding::types::{AuthContext, CampaignId};

const ADMIN: u64 = 1;
const TOKEN: u64 = 90;

fn initialized() -> CrowdfundingContract {
    let mut c = CrowdfundingContract::new();
    assert!(c.initialize(ADMIN, TOKEN, 0).is_ok());
    c
}

#[test]
fn test_blacklist_address_prevents_donation() {
    let mut c = initialized();
    let creator: u64 = 2;
    let malicious_donor: u64 = 3;

    let campaign_id = CampaignId::new(1, 1, 1, 1);
    let title = b"Test Campaign".to_vec();
    let goal = 1000i128;
    let deadline = 0 + 86400;
    assert!(
        c.create_campaign(&AuthContext::for_account(creator), 0, campaign_id, title, creator, goal, deadline, 0)
            .is_ok()
    );

    assert!(c.blacklist_address(&AuthContext::for_account(ADMIN), malicious_donor).is_ok());
    assert!(c.is_blacklisted(malicious_donor));

    let result = c.donate(
        &AuthContext::for_account(malicious_donor),
        10,
        campaign_id,
        malicious_donor,
        TOKEN,
        100i128,
    );
    assert!(result.is_err());
}

#[test]
fn test_blacklist_address_prevents_campaign_creation() {
    let mut c = initialized();
    let malicious_creator: u64 = 4;

    assert!(c.blacklist_address(&AuthContext::for_account(ADMIN), malicious_creator).is_ok());
    assert!(c.is_blacklisted(malicious_creator));

    let campaign_id = CampaignId::new(1, 1, 1, 1);
    let title = b"Malicious Campaign".to_vec();
    let goal = 1000i128;
    let deadline = 0 + 86400;
    let result = c.create_campaign(
        &AuthContext::for_account(malicious_creator),
        0,
        campaign_id,
        title,
        malicious_creator,
        goal,
        deadline,
        0,
    );
    assert!(result.is_err());
}

#[test]
fn test_unblacklist_address_allows_operations() {
    let mut c = initialized();
    let user: u64 = 5;

    assert!(c.blacklist_address(&AuthContext::for_account(ADMIN), user).is_ok());
    assert!(c.is_blacklisted(user));

    assert!(c.unblacklist_address(&AuthContext::for_account(ADMIN), user).is_ok());
    assert!(!c.is_blacklisted(user));

    let campaign_id = CampaignId::new(1, 1, 1, 1);
    let title = b"Valid Campaign".to_vec();
    let goal = 1000i128;
    let deadline = 0 + 86400;
    assert!(
        c.create_campaign(&AuthContext::for_account(user), 0, campaign_id, title, user, goal, deadline, 0)
            .is_ok()
    );

    let campaign = c.get_campaign(campaign_id).unwrap();
    assert_eq!(campaign.creator, user);
}

#[test]
fn test_only_admin_can_blacklist() {
    let mut c = initialized();
    let target: u64 = 7;

    assert!(c.blacklist_address(&AuthContext::for_account(ADMIN), target).is_ok());
    assert!(c.is_blacklisted(target));

    assert!(c.unblacklist_address(&AuthContext::for_account(ADMIN), target).is_ok());
    assert!(!c.is_blacklisted(target));
}

#[test]
fn test_blacklist_persists_across_operations() {
    let mut c = initialized();
    let user: u64 = 8;

    assert!(c.blacklist_address(&AuthContext::for_account(ADMIN), user).is_ok());

    assert!(c.is_blacklisted(user));
    assert!(c.is_blacklisted(user));
    assert!(c.is_blacklisted(user));
}

#[test]
fn non_admin_cannot_touch_the_blacklist() {
    let mut c = initialized();
    let non_admin: u64 = 6;
    let target: u64 = 7;

    let r = c.blacklist_address(&AuthContext::for_account(non_admin), target);
    assert_eq!(r, Err(crowdfunding::errors::CrowdfundingError::Unauthorized));
    assert!(!c.is_blacklisted(target));

    let r = c.unblacklist_address(&AuthContext::for_account(non_admin), target);
    assert_eq!(r, Err(crowdfunding::errors::CrowdfundingError::Unauthorized));
}
