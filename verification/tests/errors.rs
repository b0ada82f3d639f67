//! One input for every reachable error variant, and the exactness of
//! the validation bounds.

use solado::escrow::EscrowStateMachine;
use solado::types::ErrorCode;

fn setup() -> (EscrowStateMachine, usize, usize) {
    let mut em = EscrowStateMachine::new(10);
    let creator = em.register_party(0);
    let donor = em.register_party(10_000);
    (em, creator, donor)
}

fn garden(em: &mut EscrowStateMachine, creator: usize) -> usize {
    em.create_campaign(
        creator,
        "Garden".to_string(),
        "".to_string(),
        1000,
        100,
        "".to_string(),
        0,
    )
    .unwrap()
    .campaign
}

#[test]
fn create_rejects_zero_goal() {
    let (mut em, creator, _) = setup();
    let r = em.create_campaign(
        creator,
        "t".to_string(),
        "".to_string(),
        0,
        100,
        "".to_string(),
        0,
    );
    assert_eq!(r, Err(ErrorCode::InvalidGoalAmount));
    assert_eq!(em.registry.campaigns.len(), 0);
}

#[test]
fn create_rejects_past_deadline() {
    let (mut em, creator, _) = setup();
    let r = em.create_campaign(
        creator,
        "t".to_string(),
        "".to_string(),
        5,
        100,
        "".to_string(),
        100,
    );
    assert_eq!(r, Err(ErrorCode::InvalidDeadline));
}

#[test]
fn create_enforces_text_bounds_exactly() {
    let (mut em, creator, _) = setup();
    // one past each bound fails with the field's own error
    let r = em.create_campaign(
        creator,
        "t".repeat(201),
        "".to_string(),
        5,
        100,
        "".to_string(),
        0,
    );
    assert_eq!(r, Err(ErrorCode::TitleTooLong));
    let r = em.create_campaign(
        creator,
        "t".to_string(),
        "d".repeat(1001),
        5,
        100,
        "".to_string(),
        0,
    );
    assert_eq!(r, Err(ErrorCode::DescriptionTooLong));
    let r = em.create_campaign(
        creator,
        "t".to_string(),
        "".to_string(),
        5,
        100,
        "u".repeat(201),
        0,
    );
    assert_eq!(r, Err(ErrorCode::UriTooLong));
    // at the bounds, creation succeeds
    let r = em.create_campaign(
        creator,
        "t".repeat(200),
        "d".repeat(1000),
        5,
        100,
        "u".repeat(200),
        0,
    );
    assert!(r.is_ok());
}

#[test]
fn create_rejects_duplicate_creator_title_pair() {
    let (mut em, creator, _) = setup();
    let other = em.register_party(0);
    garden(&mut em, creator);
    let r = em.create_campaign(
        creator,
        "Garden".to_string(),
        "another".to_string(),
        7,
        300,
        "".to_string(),
        0,
    );
    assert_eq!(r, Err(ErrorCode::DuplicateCampaign));
    // a different creator may reuse the title
    let r = em.create_campaign(
        other,
        "Garden".to_string(),
        "".to_string(),
        7,
        300,
        "".to_string(),
        0,
    );
    assert!(r.is_ok());
}

#[test]
fn donate_rejects_expired_campaign() {
    let (mut em, creator, donor) = setup();
    let cid = garden(&mut em, creator);
    assert_eq!(em.donate(cid, donor, 5, 100), Err(ErrorCode::CampaignExpired));
}

#[test]
fn donate_rejects_inactive_campaign() {
    let (mut em, creator, donor) = setup();
    let cid = garden(&mut em, creator);
    em.donate(cid, donor, 1000, 50).unwrap();
    em.withdraw(cid, creator, 150).unwrap();
    assert_eq!(
        em.donate(cid, donor, 5, 60),
        Err(ErrorCode::CampaignNotActive)
    );
}

#[test]
fn donate_rejects_underfunded_donor() {
    let (mut em, creator, _) = setup();
    let poor = em.register_party(3);
    let cid = garden(&mut em, creator);
    assert_eq!(
        em.donate(cid, poor, 4, 50),
        Err(ErrorCode::InsufficientFunds)
    );
    assert_eq!(em.balances.parties[poor], 3);
}

#[test]
fn donate_never_wraps_donated_total() {
    let mut em = EscrowStateMachine::new(0);
    let creator = em.register_party(0);
    let whale = em.register_party(u64::MAX);
    let cid = em
        .create_campaign(
            creator,
            "Ark".to_string(),
            "".to_string(),
            1,
            100,
            "".to_string(),
            0,
        )
        .unwrap()
        .campaign;
    em.donate(cid, whale, u64::MAX - 5, 10).unwrap();
    let before = em.registry.campaigns[cid].as_ref().unwrap().donated_amount;
    assert_eq!(em.donate(cid, whale, 6, 20), Err(ErrorCode::Overflow));
    assert_eq!(
        em.registry.campaigns[cid].as_ref().unwrap().donated_amount,
        before
    );
    assert_eq!(em.ledger.records.len(), 1);
}

#[test]
fn withdraw_rejects_stranger_and_early_calls() {
    let (mut em, creator, donor) = setup();
    let stranger = em.register_party(0);
    let cid = garden(&mut em, creator);
    em.donate(cid, donor, 1000, 50).unwrap();
    assert_eq!(em.withdraw(cid, stranger, 150), Err(ErrorCode::Unauthorized));
    assert_eq!(
        em.withdraw(cid, creator, 99),
        Err(ErrorCode::CampaignNotExpired)
    );
    // at the deadline itself the campaign counts as expired
    assert!(em.withdraw(cid, creator, 100).is_ok());
    // a second withdrawal finds the campaign inactive
    assert_eq!(
        em.withdraw(cid, creator, 150),
        Err(ErrorCode::CampaignNotActive)
    );
}

#[test]
fn withdraw_rejects_overflowing_creator_balance() {
    let mut em = EscrowStateMachine::new(0);
    let rich_creator = em.register_party(u64::MAX);
    let donor = em.register_party(100);
    let cid = em
        .create_campaign(
            rich_creator,
            "Ark".to_string(),
            "".to_string(),
            1,
            100,
            "".to_string(),
            0,
        )
        .unwrap()
        .campaign;
    em.donate(cid, donor, 1, 10).unwrap();
    assert_eq!(em.withdraw(cid, rich_creator, 150), Err(ErrorCode::Overflow));
    // the failed withdrawal moved nothing and the campaign stays active
    assert!(em.registry.campaigns[cid].as_ref().unwrap().is_active);
    assert_eq!(em.balances.parties[rich_creator], u64::MAX);
}

#[test]
fn refund_rejects_wrong_campaign_and_early_and_met_goal() {
    let (mut em, creator, donor) = setup();
    let cid = garden(&mut em, creator);
    let other = em
        .create_campaign(
            creator,
            "Library".to_string(),
            "".to_string(),
            9000,
            100,
            "".to_string(),
            0,
        )
        .unwrap()
        .campaign;
    em.donate(cid, donor, 400, 50).unwrap();
    // record 0 belongs to `cid`, not to `other`
    assert_eq!(
        em.refund(other, donor, 0, 150),
        Err(ErrorCode::InvalidCampaign)
    );
    assert_eq!(
        em.refund(cid, donor, 0, 99),
        Err(ErrorCode::CampaignNotExpired)
    );
    em.donate(cid, donor, 600, 60).unwrap();
    assert_eq!(em.refund(cid, donor, 0, 150), Err(ErrorCode::GoalReached));
}

#[test]
fn refund_of_destroyed_record_rejected() {
    let (mut em, creator, donor) = setup();
    let cid = garden(&mut em, creator);
    em.donate(cid, donor, 400, 50).unwrap();
    em.refund(cid, donor, 0, 150).unwrap();
    let donor_balance = em.balances.parties[donor];
    assert_eq!(
        em.refund(cid, donor, 0, 160),
        Err(ErrorCode::InvalidCampaign)
    );
    assert_eq!(em.balances.parties[donor], donor_balance);
}

#[test]
fn delete_rejects_stranger() {
    let (mut em, creator, _) = setup();
    let stranger = em.register_party(0);
    let cid = garden(&mut em, creator);
    assert_eq!(
        em.delete_campaign(cid, stranger),
        Err(ErrorCode::Unauthorized)
    );
    assert!(em.registry.campaigns[cid].is_some());
}
