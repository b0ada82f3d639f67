//! The laws of the escrow state machine, each proved once and for all
//! inputs: the bookkeeping identity between campaigns and their
//! records, the donate/refund round trip, the mutual exclusion of the
//! two settlement paths, the deletion guard, the single-shot nature of
//! a refund, and the refusal to wrap on overflow.

use vstd::prelude::*;

use crate::escrow::{donate_effect, refund_effect, EscrowStateMachine};
use crate::ledger::donations_total;
use crate::types::ErrorCode;

verus! {

/// Law: in every well-formed state, each live campaign's
/// `donated_amount` equals the sum of the amounts of the donation
/// records currently alive for it — and every operation requires and
/// re-establishes well-formedness, so this holds at every point in
/// time.
pub proof fn lemma_donated_total_matches_ledger(s: EscrowStateMachine)
    requires
        s.wf(),
    ensures
        s.donation_totals_consistent(),
{
    assert forall|i: int|
        0 <= i < s.campaigns().len() && (#[trigger] s.campaigns()[i]) is Some implies s.campaigns()[i]->Some_0.donated_amount
        as int == donations_total(s.records(), i) by {
        assert(s.slot_ok(i));
    }
}

/// Law: a donation followed immediately by the refund of that exact
/// record restores the campaign's donated total, the donor's balance
/// and the campaign's escrow to their pre-donation values, and leaves
/// the record destroyed.
pub proof fn lemma_donate_then_refund_round_trip(
    pre: EscrowStateMachine,
    mid: EscrowStateMachine,
    post: EscrowStateMachine,
    cid: usize,
    donor: usize,
    amount: u64,
    rid: usize,
    t_donate: i64,
)
    requires
        pre.wf(),
        pre.is_live(cid as int),
        donor < pre.parties().len(),
        pre.donate_check(cid, donor, amount, t_donate) is None,
        donate_effect(pre, mid, cid, donor, amount, t_donate),
        rid == pre.records().len(),
        refund_effect(mid, post, cid, donor, rid),
    ensures
        post.campaign_at(cid as int).donated_amount == pre.campaign_at(cid as int).donated_amount,
        post.parties()[donor as int] == pre.parties()[donor as int],
        post.escrows()[cid as int] == pre.escrows()[cid as int],
        post.records()[rid as int] is None,
{
    let rec = mid.records()[rid as int]->Some_0;
    assert(rec.amount == amount);
    assert(mid.escrows()[cid as int] == pre.escrows()[cid as int] + amount);
    assert(mid.parties()[donor as int] == pre.parties()[donor as int] - amount);
    assert(mid.campaign_at(cid as int).donated_amount == pre.campaign_at(
        cid as int,
    ).donated_amount + amount);
}

/// Law: withdrawal and refund are never both open for one campaign at
/// one moment — withdrawal demands the goal reached, refund demands it
/// missed — so only an intervening donation that changes goal status
/// could move a campaign from one settlement path to the other.
pub proof fn lemma_withdraw_refund_exclusive(
    s: EscrowStateMachine,
    cid: usize,
    requester: usize,
    donor: usize,
    rid: usize,
    now: i64,
)
    requires
        s.is_live(cid as int),
        rid < s.records().len(),
    ensures
        !(s.withdraw_check(cid, requester, now) is None && s.refund_check(
            cid,
            donor,
            rid,
            now,
        ) is None),
{
}

/// Law: a campaign holding any donated value cannot be deleted, by
/// anybody.
pub proof fn lemma_no_delete_while_funded(s: EscrowStateMachine, cid: usize, requester: usize)
    requires
        s.is_live(cid as int),
        s.campaign_at(cid as int).donated_amount > 0,
    ensures
        s.delete_check(cid, requester) is Some,
{
}

/// Law: a refund destroys its record, and a destroyed record can never
/// be refunded again — any later attempt on the same slot, by anybody,
/// against any campaign, reports `InvalidCampaign`.
pub proof fn lemma_refund_never_repeats(
    mid: EscrowStateMachine,
    post: EscrowStateMachine,
    cid: usize,
    donor: usize,
    rid: usize,
    cid2: usize,
    donor2: usize,
    now2: i64,
)
    requires
        rid < mid.records().len(),
        refund_effect(mid, post, cid, donor, rid),
    ensures
        post.records()[rid as int] is None,
        post.refund_check(cid2, donor2, rid, now2) == Some(ErrorCode::InvalidCampaign),
{
}

/// Law: no donation is accepted once the deadline has passed. Since
/// only a donation can raise the donated total, a campaign's goal
/// status — and with it the one settlement path open to it — is fixed
/// at the moment it expires.
pub proof fn lemma_no_donations_after_deadline(
    s: EscrowStateMachine,
    cid: usize,
    donor: usize,
    amount: u64,
    now: i64,
)
    requires
        s.is_live(cid as int),
        now >= s.campaign_at(cid as int).deadline,
    ensures
        s.donate_check(cid, donor, amount, now) is Some,
{
}

/// Law: a withdrawn campaign is settled for good. Once its activity
/// flag is down, every further donation, withdrawal or refund against
/// it is refused — so the flag falls at most once, and the two
/// settlement paths stay exclusive for the rest of the campaign's
/// life.
pub proof fn lemma_withdrawn_campaign_is_settled(
    s: EscrowStateMachine,
    cid: usize,
    requester: usize,
    donor: usize,
    rid: usize,
    amount: u64,
    now: i64,
)
    requires
        s.wf(),
        s.is_live(cid as int),
        !s.campaign_at(cid as int).is_active,
        rid < s.records().len(),
    ensures
        s.donate_check(cid, donor, amount, now) is Some,
        s.withdraw_check(cid, requester, now) is Some,
        s.refund_check(cid, donor, rid, now) is Some,
{
    assert(s.slot_ok(cid as int));
}

/// Law: a donation that would push the donated total past the largest
/// representable value is refused with `Overflow`; combined with
/// `donate`'s contract — an error leaves the state untouched — the
/// total never silently wraps.
pub proof fn lemma_donate_overflow_refused(
    s: EscrowStateMachine,
    cid: usize,
    donor: usize,
    amount: u64,
    now: i64,
)
    requires
        s.is_live(cid as int),
        amount > 0,
        s.campaign_at(cid as int).is_active,
        now < s.campaign_at(cid as int).deadline,
        s.campaign_at(cid as int).donated_amount + amount > u64::MAX,
    ensures
        s.donate_check(cid, donor, amount, now) == Some(ErrorCode::Overflow),
{
}

} // verus!
