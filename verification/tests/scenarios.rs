//! End-to-end scenarios over the escrow state machine: the two
//! settlement paths, the validation guards, and the bookkeeping they
//! leave behind.

use solado::escrow::EscrowStateMachine;
use solado::types::ErrorCode;

const RESERVE: u64 = 10;

/// A machine with a creator (identity 0, balance 0) and a donor
/// (identity 1, with the given balance).
fn setup(donor_balance: u64) -> (EscrowStateMachine, usize, usize) {
    let mut em = EscrowStateMachine::new(RESERVE);
    let creator = em.register_party(0);
    let donor = em.register_party(donor_balance);
    (em, creator, donor)
}

fn donated_of(em: &EscrowStateMachine, cid: usize) -> u64 {
    em.registry.campaigns[cid].as_ref().unwrap().donated_amount
}

#[test]
fn goal_met_withdraw_succeeds() {
    let (mut em, creator, donor) = setup(5000);
    let ev = em
        .create_campaign(
            creator,
            "Community garden".to_string(),
            "Raised beds for the neighbourhood".to_string(),
            1000,
            100,
            "ipfs://garden".to_string(),
            0,
        )
        .unwrap();
    assert_eq!(ev.campaign, 0);
    assert_eq!(ev.goal_amount, 1000);

    let d = em.donate(0, donor, 1000, 50).unwrap();
    assert_eq!(d.total_donated, 1000);
    assert_eq!(em.balances.parties[donor], 4000);
    assert_eq!(em.balances.escrows[0], RESERVE + 1000);

    let w = em.withdraw(0, creator, 150).unwrap();
    assert_eq!(w.amount, 1000);
    assert_eq!(em.balances.parties[creator], 1000);
    assert_eq!(em.balances.escrows[0], RESERVE);
    assert!(!em.registry.campaigns[0].as_ref().unwrap().is_active);
}

#[test]
fn goal_missed_withdraw_fails_refund_succeeds() {
    let (mut em, creator, donor) = setup(5000);
    em.create_campaign(
        creator,
        "Community garden".to_string(),
        "Raised beds".to_string(),
        1000,
        100,
        "ipfs://garden".to_string(),
        0,
    )
    .unwrap();
    em.donate(0, donor, 400, 50).unwrap();

    assert_eq!(em.withdraw(0, creator, 150), Err(ErrorCode::GoalNotReached));
    assert_eq!(donated_of(&em, 0), 400);

    let r = em.refund(0, donor, 0, 150).unwrap();
    assert_eq!(r.amount, 400);
    assert_eq!(donated_of(&em, 0), 0);
    assert_eq!(em.balances.parties[donor], 5000);
    assert_eq!(em.balances.escrows[0], RESERVE);
}

#[test]
fn zero_donation_rejected_without_effect() {
    let (mut em, creator, donor) = setup(5000);
    em.create_campaign(
        creator,
        "Garden".to_string(),
        "".to_string(),
        1000,
        100,
        "".to_string(),
        0,
    )
    .unwrap();
    assert_eq!(
        em.donate(0, donor, 0, 50),
        Err(ErrorCode::InvalidDonationAmount)
    );
    assert_eq!(em.ledger.records.len(), 0);
    assert_eq!(donated_of(&em, 0), 0);
    assert_eq!(em.balances.parties[donor], 5000);
}

#[test]
fn refund_by_stranger_rejected_without_transfer() {
    let (mut em, creator, donor) = setup(5000);
    let stranger = em.register_party(77);
    em.create_campaign(
        creator,
        "Garden".to_string(),
        "".to_string(),
        1000,
        100,
        "".to_string(),
        0,
    )
    .unwrap();
    em.donate(0, donor, 400, 50).unwrap();

    assert_eq!(
        em.refund(0, stranger, 0, 150),
        Err(ErrorCode::Unauthorized)
    );
    assert_eq!(em.balances.parties[stranger], 77);
    assert_eq!(em.balances.parties[donor], 4600);
    assert_eq!(donated_of(&em, 0), 400);
}

#[test]
fn delete_with_donations_rejected_campaign_remains() {
    let (mut em, creator, donor) = setup(5000);
    em.create_campaign(
        creator,
        "Garden".to_string(),
        "".to_string(),
        1000,
        100,
        "".to_string(),
        0,
    )
    .unwrap();
    em.donate(0, donor, 300, 50).unwrap();

    assert_eq!(
        em.delete_campaign(0, creator),
        Err(ErrorCode::CampaignHasDonations)
    );
    assert!(em.registry.campaigns[0].is_some());
    assert_eq!(donated_of(&em, 0), 300);
}

#[test]
fn two_donations_reach_goal_exactly() {
    let (mut em, creator, donor) = setup(5000);
    let other = em.register_party(5000);
    em.create_campaign(
        creator,
        "Garden".to_string(),
        "".to_string(),
        1000,
        100,
        "".to_string(),
        0,
    )
    .unwrap();
    let d1 = em.donate(0, donor, 500, 10).unwrap();
    assert_eq!(d1.total_donated, 500);
    let d2 = em.donate(0, other, 500, 20).unwrap();
    assert_eq!(d2.total_donated, 1000);
    assert_eq!(donated_of(&em, 0), 1000);

    let w = em.withdraw(0, creator, 150).unwrap();
    assert_eq!(w.amount, 1000);
}

#[test]
fn delete_after_all_refunds_releases_reserve() {
    let (mut em, creator, donor) = setup(5000);
    em.create_campaign(
        creator,
        "Garden".to_string(),
        "".to_string(),
        1000,
        100,
        "".to_string(),
        0,
    )
    .unwrap();
    em.donate(0, donor, 400, 50).unwrap();
    em.refund(0, donor, 0, 150).unwrap();

    let ev = em.delete_campaign(0, creator).unwrap();
    assert_eq!(ev.campaign, 0);
    assert!(em.registry.campaigns[0].is_none());
    assert_eq!(em.balances.parties[creator], RESERVE);
    assert_eq!(em.balances.escrows[0], 0);
}

#[test]
fn multiple_donations_per_donor_refund_independently() {
    let (mut em, creator, donor) = setup(5000);
    em.create_campaign(
        creator,
        "Garden".to_string(),
        "".to_string(),
        1000,
        100,
        "".to_string(),
        0,
    )
    .unwrap();
    em.donate(0, donor, 100, 10).unwrap();
    em.donate(0, donor, 200, 20).unwrap();
    assert_eq!(donated_of(&em, 0), 300);

    let r = em.refund(0, donor, 1, 150).unwrap();
    assert_eq!(r.amount, 200);
    assert_eq!(donated_of(&em, 0), 100);
    let r = em.refund(0, donor, 0, 160).unwrap();
    assert_eq!(r.amount, 100);
    assert_eq!(donated_of(&em, 0), 0);
}

#[test]
fn campaigns_are_independent() {
    let (mut em, creator, donor) = setup(5000);
    em.create_campaign(
        creator,
        "Garden".to_string(),
        "".to_string(),
        1000,
        100,
        "".to_string(),
        0,
    )
    .unwrap();
    em.create_campaign(
        creator,
        "Library".to_string(),
        "".to_string(),
        300,
        200,
        "".to_string(),
        0,
    )
    .unwrap();
    em.donate(0, donor, 400, 50).unwrap();
    em.donate(1, donor, 300, 60).unwrap();
    assert_eq!(donated_of(&em, 0), 400);
    assert_eq!(donated_of(&em, 1), 300);

    let w = em.withdraw(1, creator, 250).unwrap();
    assert_eq!(w.amount, 300);
    assert_eq!(em.refund(1, donor, 1, 250), Err(ErrorCode::GoalReached));
    em.refund(0, donor, 0, 150).unwrap();
    assert_eq!(donated_of(&em, 0), 0);
}

#[test]
fn campaigns_found_by_creator_and_title() {
    let (mut em, creator, donor) = setup(5000);
    em.create_campaign(
        creator,
        "Garden".to_string(),
        "".to_string(),
        1000,
        100,
        "".to_string(),
        0,
    )
    .unwrap();
    assert_eq!(em.registry.find(creator, &"Garden".to_string()), Some(0));
    assert_eq!(em.registry.find(creator, &"Library".to_string()), None);
    assert_eq!(em.registry.find(donor, &"Garden".to_string()), None);

    em.delete_campaign(0, creator).unwrap();
    assert_eq!(em.registry.find(creator, &"Garden".to_string()), None);
}

#[test]
fn donation_record_carries_donor_campaign_amount_time() {
    let (mut em, creator, donor) = setup(5000);
    em.create_campaign(
        creator,
        "Garden".to_string(),
        "".to_string(),
        1000,
        100,
        "".to_string(),
        0,
    )
    .unwrap();
    em.donate(0, donor, 250, 42).unwrap();
    let rec = em.ledger.records[0].unwrap();
    assert_eq!(rec.donor, donor);
    assert_eq!(rec.campaign, 0);
    assert_eq!(rec.amount, 250);
    assert_eq!(rec.timestamp, 42);
}
