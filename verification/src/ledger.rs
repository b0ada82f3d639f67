//! The donation ledger: owns every `DonationRecord`, one slot per
//! accepted contribution. A refund destroys its record by emptying the
//! slot; slot indices are never reused, so a record reference stays
//! meaningful for the whole run.
//!
//! `donations_total` is the ledger's measure: the sum of the amounts of
//! the records currently alive for one campaign. The escrow invariant
//! ties each campaign's `donated_amount` to it.

use vstd::prelude::*;

use crate::types::DonationRecord;

verus! {

/// Owns the donation records. A `None` slot is a destroyed (refunded)
/// record; a `Some` slot is alive.
pub struct DonationLedger {
    pub records: Vec<Option<DonationRecord>>,
}

/// What one slot contributes to the total of campaign `cid`: the
/// record's amount when it is alive and belongs to that campaign,
/// nothing otherwise.
pub open spec fn slot_amount_for(slot: Option<DonationRecord>, cid: int) -> int {
    match slot {
        Option::Some(r) => if r.campaign == cid {
            r.amount as int
        } else {
            0
        },
        Option::None => 0,
    }
}

/// Sum of the amounts of all records currently alive for campaign `cid`.
pub open spec fn donations_total(records: Seq<Option<DonationRecord>>, cid: int) -> int
    decreases records.len(),
{
    if records.len() == 0 {
        0
    } else {
        donations_total(records.drop_last(), cid) + slot_amount_for(records.last(), cid)
    }
}

/// Appending a slot adds exactly that slot's contribution to the total.
pub proof fn lemma_total_push(records: Seq<Option<DonationRecord>>, slot: Option<DonationRecord>, cid: int)
    ensures
        donations_total(records.push(slot), cid) == donations_total(records, cid) + slot_amount_for(
            slot,
            cid,
        ),
{
    assert(records.push(slot).drop_last() =~= records);
    assert(records.push(slot).last() == slot);
}

/// Overwriting slot `j` removes the old slot's contribution and adds
/// the new one's.
pub proof fn lemma_total_update(
    records: Seq<Option<DonationRecord>>,
    j: int,
    slot: Option<DonationRecord>,
    cid: int,
)
    requires
        0 <= j < records.len(),
    ensures
        donations_total(records.update(j, slot), cid) == donations_total(records, cid)
            - slot_amount_for(records[j], cid) + slot_amount_for(slot, cid),
    decreases records.len(),
{
    let updated = records.update(j, slot);
    if j == records.len() - 1 {
        assert(updated.drop_last() =~= records.drop_last());
        assert(updated.last() == slot);
    } else {
        assert(updated.drop_last() =~= records.drop_last().update(j, slot));
        assert(updated.last() == records.last());
        lemma_total_update(records.drop_last(), j, slot, cid);
    }
}

/// The total is never negative.
pub proof fn lemma_total_nonneg(records: Seq<Option<DonationRecord>>, cid: int)
    ensures
        donations_total(records, cid) >= 0,
    decreases records.len(),
{
    if records.len() > 0 {
        lemma_total_nonneg(records.drop_last(), cid);
    }
}

/// One alive record never exceeds its campaign's total: the rest of the
/// total is a sum of non-negative contributions.
pub proof fn lemma_total_member_bound(records: Seq<Option<DonationRecord>>, j: int, cid: int)
    requires
        0 <= j < records.len(),
        records[j] is Some,
        records[j]->Some_0.campaign == cid,
    ensures
        donations_total(records, cid) >= records[j]->Some_0.amount,
    decreases records.len(),
{
    if j == records.len() - 1 {
        lemma_total_nonneg(records.drop_last(), cid);
    } else {
        assert(records.drop_last()[j] == records[j]);
        lemma_total_member_bound(records.drop_last(), j, cid);
    }
}

/// A campaign that no alive record points at has a zero total. Stated
/// through an upper bound on the campaign slots the records use, which
/// is how the escrow invariant carries the fact.
pub proof fn lemma_total_out_of_range(records: Seq<Option<DonationRecord>>, n: int, cid: int)
    requires
        forall|j: int|
            0 <= j < records.len() && records[j] is Some ==> (#[trigger] records[j])->Some_0.campaign
                < n,
        cid >= n,
    ensures
        donations_total(records, cid) == 0,
    decreases records.len(),
{
    if records.len() > 0 {
        assert(forall|j: int|
            0 <= j < records.drop_last().len() && records.drop_last()[j] is Some ==> (
            #[trigger] records.drop_last()[j])->Some_0.campaign < n);
        lemma_total_out_of_range(records.drop_last(), n, cid);
    }
}

impl DonationLedger {
    /// An empty ledger.
    pub fn new() -> (r: DonationLedger)
        ensures
            r.records@ == Seq::<Option<DonationRecord>>::empty(),
    {
        DonationLedger { records: Vec::new() }
    }

    /// Number of slots ever created (alive and destroyed).
    pub fn len(&self) -> (n: usize)
        ensures
            n == self.records@.len(),
    {
        self.records.len()
    }

    /// Read one slot.
    pub fn get(&self, j: usize) -> (slot: &Option<DonationRecord>)
        requires
            j < self.records@.len(),
        ensures
            *slot == self.records@[j as int],
    {
        &self.records[j]
    }

    /// Append a new alive record; its slot index is returned.
    pub fn append(&mut self, r: DonationRecord) -> (j: usize)
        ensures
            j == old(self).records@.len(),
            final(self).records@ == old(self).records@.push(Some(r)),
    {
        let j = self.records.len();
        self.records.push(Some(r));
        j
    }

    /// Destroy the record in slot `j`.
    pub fn destroy(&mut self, j: usize)
        requires
            j < old(self).records@.len(),
        ensures
            final(self).records@ == old(self).records@.update(j as int, None),
    {
        self.records[j] = None;
    }
}

} // verus!
