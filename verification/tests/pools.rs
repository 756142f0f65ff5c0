//! Pool lifecycle: creation, contributions, the refund window, state
//! transitions and closure.

use crowdfunding::errors::CrowdfundingError;
use crowdfunding::state::CrowdfundingContract;
use crowdfunding::types::{
    AuthContext, Party, PoolConfig, PoolMetadata, PoolState, TransferEffect,
};

const ADMIN: u64 = 1;
const TOKEN: u64 = 90;
const CREATOR: u64 = 2;
const GRACE: u64 = 604800;

fn auth(id: u64) -> AuthContext {
    AuthContext::for_account(id)
}

fn initialized() -> CrowdfundingContract {
    let mut c = CrowdfundingContract::new();
    assert!(c.initialize(ADMIN, TOKEN, 0).is_ok());
    c
}

fn metadata() -> PoolMetadata {
    PoolMetadata {
        description: b"well drilling".to_vec(),
        external_url: b"https://example.org/well".to_vec(),
        image_hash: b"abcd".to_vec(),
    }
}

fn saved_pool(c: &mut CrowdfundingContract, target: i128, deadline: u64) -> u64 {
    c.save_pool(&auth(CREATOR), 0, b"Well fund".to_vec(), metadata(), CREATOR, target, deadline, None, None)
        .unwrap()
}

#[test]
fn refund_scenario_walks_the_whole_window() {
    let mut c = initialized();
    let pool = saved_pool(&mut c, 500, 86400);
    assert_eq!(pool, 1);

    let contributor: u64 = 20;
    assert!(c.contribute(&auth(contributor), 100, pool, contributor, TOKEN, 500, false).is_ok());
    assert_eq!(c.get_pool_metrics(pool).unwrap().contributor_count, 1);
    assert_eq!(c.get_pool_metrics(pool).unwrap().total_raised, 500);

    // Past the deadline but inside the seven-day grace period.
    assert_eq!(
        c.refund(&auth(contributor), 90000, pool, contributor),
        Err(CrowdfundingError::RefundGracePeriodNotPassed)
    );

    // One second past deadline + grace the refund pays out in full.
    let t = c.refund(&auth(contributor), 86400 + GRACE + 1, pool, contributor).unwrap();
    assert_eq!(
        t,
        TransferEffect {
            from: Party::Contract,
            to: Party::Account(contributor),
            asset: TOKEN,
            amount: 500
        }
    );
    assert_eq!(c.get_pool_metrics(pool).unwrap().total_raised, 0);
    assert_eq!(c.get_pool_metrics(pool).unwrap().contributor_count, 1);

    // The record is zeroed, not removed: a second refund finds nothing.
    assert_eq!(
        c.refund(&auth(contributor), 86400 + GRACE + 2, pool, contributor),
        Err(CrowdfundingError::NoContributionToRefund)
    );
}

#[test]
fn refund_checks_run_in_order() {
    let mut c = initialized();
    let pool = saved_pool(&mut c, 500, 86400);
    let contributor: u64 = 20;
    assert!(c.contribute(&auth(contributor), 100, pool, contributor, TOKEN, 500, false).is_ok());

    assert_eq!(
        c.refund(&auth(contributor), 2, 7, contributor),
        Err(CrowdfundingError::PoolNotFound)
    );
    assert_eq!(
        c.refund(&auth(contributor), 86399, pool, contributor),
        Err(CrowdfundingError::PoolNotExpired)
    );

    assert!(c.update_pool_state(pool, PoolState::Disbursed).is_ok());
    assert_eq!(
        c.refund(&auth(contributor), 86400 + GRACE + 1, pool, contributor),
        Err(CrowdfundingError::PoolAlreadyDisbursed)
    );

    // Back out of Disbursed; a stranger with no record gets nothing.
    assert!(c.update_pool_state(pool, PoolState::Active).is_ok());
    assert_eq!(
        c.refund(&auth(33), 86400 + GRACE + 1, pool, 33),
        Err(CrowdfundingError::NoContributionToRefund)
    );
}

#[test]
fn zero_duration_pool_never_refunds() {
    let mut c = initialized();
    // A configuration whose clock starts ahead of `now` may carry a zero
    // duration; such a pool has no deadline and never opens its refund
    // window.
    let config = PoolConfig {
        name: b"standing fund".to_vec(),
        description: b"no deadline".to_vec(),
        target_amount: 100,
        is_private: false,
        duration: 0,
        created_at: 10,
    };
    let pool = c.create_pool(&auth(CREATOR), 0, CREATOR, config).unwrap();
    let contributor: u64 = 20;
    assert!(c.contribute(&auth(contributor), 5, pool, contributor, TOKEN, 100, false).is_ok());

    for now in [0u64, 11, 86400, 86400 + GRACE + 1, u64::MAX] {
        assert_eq!(
            c.refund(&auth(contributor), now, pool, contributor),
            Err(CrowdfundingError::RefundNotAvailable)
        );
    }
}

#[test]
fn contributor_count_grows_only_on_first_sight() {
    let mut c = initialized();
    let pool = saved_pool(&mut c, 10_000, 86400);
    let a: u64 = 20;
    let b: u64 = 21;

    assert!(c.contribute(&auth(a), 1, pool, a, TOKEN, 100, false).is_ok());
    assert!(c.contribute(&auth(a), 2, pool, a, TOKEN, 50, false).is_ok());
    assert_eq!(c.get_pool_metrics(pool).unwrap().contributor_count, 1);
    assert_eq!(c.get_pool_metrics(pool).unwrap().total_raised, 150);

    assert!(c.contribute(&auth(b), 3, pool, b, TOKEN, 25, false).is_ok());
    assert_eq!(c.get_pool_metrics(pool).unwrap().contributor_count, 2);
    assert_eq!(c.get_pool_metrics(pool).unwrap().last_donation_at, 3);
}

#[test]
fn terminal_states_accept_no_transition() {
    let mut c = initialized();
    let completed = saved_pool(&mut c, 100, 86400);
    assert!(c.update_pool_state(completed, PoolState::Completed).is_ok());
    for target in [
        PoolState::Active,
        PoolState::Completed,
        PoolState::Cancelled,
        PoolState::Disbursed,
        PoolState::Closed,
    ] {
        assert_eq!(
            c.update_pool_state(completed, target),
            Err(CrowdfundingError::InvalidPoolState)
        );
    }

    let cancelled = c
        .save_pool(&auth(CREATOR), 0, b"second".to_vec(), metadata(), CREATOR, 100, 86400, None, None)
        .unwrap();
    assert!(c.update_pool_state(cancelled, PoolState::Cancelled).is_ok());
    for target in [PoolState::Active, PoolState::Cancelled, PoolState::Closed] {
        assert_eq!(
            c.update_pool_state(cancelled, target),
            Err(CrowdfundingError::InvalidPoolState)
        );
    }
    assert_eq!(
        c.update_pool_state(9, PoolState::Active),
        Err(CrowdfundingError::PoolNotFound)
    );
}

#[test]
fn closing_needs_a_disbursed_or_cancelled_pool_and_the_admin() {
    let mut c = initialized();
    let pool = saved_pool(&mut c, 100, 86400);

    assert_eq!(
        c.close_pool(&auth(ADMIN), pool, ADMIN),
        Err(CrowdfundingError::PoolNotDisbursedOrRefunded)
    );
    assert!(c.update_pool_state(pool, PoolState::Disbursed).is_ok());
    assert_eq!(
        c.close_pool(&auth(CREATOR), pool, CREATOR),
        Err(CrowdfundingError::Unauthorized)
    );
    assert_eq!(
        c.close_pool(&auth(ADMIN), pool, CREATOR),
        Err(CrowdfundingError::Unauthorized)
    );
    assert_eq!(c.is_closed(pool), Ok(false));
    assert!(c.close_pool(&auth(ADMIN), pool, ADMIN).is_ok());
    assert_eq!(c.is_closed(pool), Ok(true));
    assert_eq!(
        c.close_pool(&auth(ADMIN), pool, ADMIN),
        Err(CrowdfundingError::PoolAlreadyClosed)
    );
}

#[test]
fn contribution_gates_run_in_order() {
    let mut c = initialized();
    let pool = saved_pool(&mut c, 100, 86400);
    let a: u64 = 20;

    assert_eq!(
        c.contribute(&auth(a), 1, pool, a, TOKEN, 0, false),
        Err(CrowdfundingError::InvalidAmount)
    );
    assert_eq!(
        c.contribute(&auth(a), 1, 5, a, TOKEN, 10, false),
        Err(CrowdfundingError::PoolNotFound)
    );
    assert!(c.update_pool_state(pool, PoolState::Disbursed).is_ok());
    assert_eq!(
        c.contribute(&auth(a), 1, pool, a, TOKEN, 10, false),
        Err(CrowdfundingError::InvalidPoolState)
    );
    assert!(c.pause(&auth(ADMIN)).is_ok());
    assert_eq!(
        c.contribute(&auth(a), 1, pool, a, TOKEN, 10, false),
        Err(CrowdfundingError::ContractPaused)
    );
}

#[test]
fn pool_creation_validates_inputs_and_multisig() {
    let mut c = initialized();

    assert_eq!(
        c.save_pool(&auth(CREATOR), 0, Vec::new(), metadata(), CREATOR, 100, 86400, None, None),
        Err(CrowdfundingError::InvalidPoolName)
    );
    assert_eq!(
        c.save_pool(&auth(CREATOR), 0, b"x".to_vec(), metadata(), CREATOR, 0, 86400, None, None),
        Err(CrowdfundingError::InvalidPoolTarget)
    );
    assert_eq!(
        c.save_pool(&auth(CREATOR), 500, b"x".to_vec(), metadata(), CREATOR, 100, 500, None, None),
        Err(CrowdfundingError::InvalidPoolDeadline)
    );
    let long = PoolMetadata {
        description: vec![b'd'; 501],
        external_url: b"u".to_vec(),
        image_hash: b"h".to_vec(),
    };
    assert_eq!(
        c.save_pool(&auth(CREATOR), 0, b"x".to_vec(), long, CREATOR, 100, 86400, None, None),
        Err(CrowdfundingError::InvalidMetadata)
    );

    // Multi-signature: zero required, more required than signers, or only
    // one half of the pair supplied.
    assert_eq!(
        c.save_pool(&auth(CREATOR), 0, b"x".to_vec(), metadata(), CREATOR, 100, 86400, Some(0), Some(vec![7, 8])),
        Err(CrowdfundingError::InvalidMultiSigConfig)
    );
    assert_eq!(
        c.save_pool(&auth(CREATOR), 0, b"x".to_vec(), metadata(), CREATOR, 100, 86400, Some(3), Some(vec![7, 8])),
        Err(CrowdfundingError::InvalidMultiSigConfig)
    );
    assert_eq!(
        c.save_pool(&auth(CREATOR), 0, b"x".to_vec(), metadata(), CREATOR, 100, 86400, Some(1), None),
        Err(CrowdfundingError::InvalidMultiSigConfig)
    );
    assert_eq!(
        c.save_pool(&auth(CREATOR), 0, b"x".to_vec(), metadata(), CREATOR, 100, 86400, None, Some(vec![7])),
        Err(CrowdfundingError::InvalidMultiSigConfig)
    );

    // A consistent pair is accepted, and identifiers stay sequential.
    let p1 = c
        .save_pool(&auth(CREATOR), 0, b"x".to_vec(), metadata(), CREATOR, 100, 86400, Some(2), Some(vec![7, 8, 9]))
        .unwrap();
    let p2 = saved_pool(&mut c, 200, 86400);
    assert_eq!((p1, p2), (1, 2));

    let cfg = c.get_pool(p2).unwrap();
    assert_eq!(cfg.target_amount, 200);
    assert_eq!(cfg.duration, 86400);
    assert_eq!(cfg.created_at, 0);
    assert!(c.get_pool(3).is_none());

    let (desc, url, hash) = c.get_pool_metadata(p1);
    assert_eq!(desc, b"well drilling".to_vec());
    assert_eq!(url, b"https://example.org/well".to_vec());
    assert_eq!(hash, b"abcd".to_vec());
    let (d0, u0, h0) = c.get_pool_metadata(42);
    assert!(d0.is_empty() && u0.is_empty() && h0.is_empty());
}

#[test]
fn create_pool_validates_its_configuration() {
    let mut c = initialized();
    let base = PoolConfig {
        name: b"n".to_vec(),
        description: b"d".to_vec(),
        target_amount: 10,
        is_private: true,
        duration: 100,
        created_at: 0,
    };

    let bad_name = PoolConfig { name: Vec::new(), description: b"d".to_vec(), ..clone_config(&base) };
    assert_eq!(
        c.create_pool(&auth(CREATOR), 0, CREATOR, bad_name),
        Err(CrowdfundingError::InvalidPoolName)
    );
    let bad_target = PoolConfig { target_amount: -5, ..clone_config(&base) };
    assert_eq!(
        c.create_pool(&auth(CREATOR), 0, CREATOR, bad_target),
        Err(CrowdfundingError::InvalidPoolTarget)
    );
    let past = PoolConfig { duration: 100, created_at: 0, ..clone_config(&base) };
    assert_eq!(
        c.create_pool(&auth(CREATOR), 100, CREATOR, past),
        Err(CrowdfundingError::InvalidPoolDeadline)
    );
    let unrepresentable = PoolConfig { duration: u64::MAX, created_at: 1, ..clone_config(&base) };
    assert_eq!(
        c.create_pool(&auth(CREATOR), 0, CREATOR, unrepresentable),
        Err(CrowdfundingError::InvalidPoolDeadline)
    );

    let pool = c.create_pool(&auth(CREATOR), 0, CREATOR, clone_config(&base)).unwrap();
    let cfg = c.get_pool(pool).unwrap();
    assert!(cfg.is_private);
    assert_eq!(cfg.duration, 100);
}

fn clone_config(c: &PoolConfig) -> PoolConfig {
    PoolConfig {
        name: c.name.clone(),
        description: c.description.clone(),
        target_amount: c.target_amount,
        is_private: c.is_private,
        duration: c.duration,
        created_at: c.created_at,
    }
}

#[test]
fn returning_contributor_counts_again_after_a_refund() {
    let mut c = initialized();
    let pool = saved_pool(&mut c, 10_000, 86400);
    let a: u64 = 20;

    assert!(c.contribute(&auth(a), 1, pool, a, TOKEN, 100, false).is_ok());
    assert_eq!(c.get_pool_metrics(pool).unwrap().contributor_count, 1);

    assert!(c.refund(&auth(a), 86400 + GRACE + 1, pool, a).is_ok());
    assert_eq!(c.get_pool_metrics(pool).unwrap().contributor_count, 1);

    // The zeroed record makes the same identity look new again: the count
    // tracks zero-to-positive transitions, not distinct identities.
    assert!(c.contribute(&auth(a), 86400 + GRACE + 2, pool, a, TOKEN, 50, false).is_ok());
    assert_eq!(c.get_pool_metrics(pool).unwrap().contributor_count, 2);
}
