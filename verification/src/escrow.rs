//! The escrow state machine: validates and executes the five
//! transitions — create, donate, withdraw, refund, delete — over the
//! campaign registry, the donation ledger and the balance book.
//!
//! Every transition is all-or-nothing: it either applies its full
//! effect and returns the notification event, or returns one typed
//! error and leaves the state exactly as it was. Each `*_check` spec
//! function names the first error a transition reports, in the order
//! the checks are made; a transition succeeds exactly when its check
//! comes back empty.
//!
//! The invariant `wf` carries the bookkeeping guarantees: each live
//! campaign's `donated_amount` equals the sum of its alive donation
//! records, an active campaign escrows its reserve plus that total, and
//! a withdrawn campaign keeps only its reserve and stands at or above
//! its goal — which is what bars refunds after a withdrawal.

use vstd::prelude::*;

use crate::balances::BalanceBook;
use crate::ledger::{
    donations_total, lemma_total_member_bound, lemma_total_out_of_range, lemma_total_push,
    lemma_total_update, DonationLedger,
};
use crate::registry::{has_live_campaign, keys_distinct, CampaignRegistry};
use crate::types::{
    campaign_valid, Campaign, CampaignCreated, CampaignDeleted, DonationMade, DonationRecord,
    ErrorCode, FundsWithdrawn, RefundIssued, MAX_DESCRIPTION_LEN, MAX_TITLE_LEN, MAX_URI_LEN,
};
use vstd::string::StrSliceExecFns;

verus! {

/// The core logic layer: owns the registry, the ledger and the balance
/// book, plus the externally supplied storage reserve constant.
pub struct EscrowStateMachine {
    pub registry: CampaignRegistry,
    pub ledger: DonationLedger,
    pub balances: BalanceBook,
    /// Minimum balance a campaign's storage record must keep escrowed
    /// while the campaign persists.
    pub reserve: u64,
}

/// `c` with its running donated total replaced.
pub open spec fn with_donated(c: Campaign, donated: u64) -> Campaign {
    Campaign { donated_amount: donated, ..c }
}

/// `c` with its activity flag cleared, as a successful withdrawal
/// leaves it.
pub open spec fn deactivated(c: Campaign) -> Campaign {
    Campaign { is_active: false, ..c }
}

/// The full effect of a successful donation: the donor's balance moves
/// into the campaign's escrow, the campaign's donated total grows by
/// the amount, and a fresh alive record is appended to the ledger.
pub open spec fn donate_effect(
    pre: EscrowStateMachine,
    post: EscrowStateMachine,
    cid: usize,
    donor: usize,
    amount: u64,
    now: i64,
) -> bool {
    let c = pre.campaign_at(cid as int);
    &&& post.campaigns() == pre.campaigns().update(
        cid as int,
        Some(with_donated(c, (c.donated_amount + amount) as u64)),
    )
    &&& post.records() == pre.records().push(
        Some(DonationRecord { donor, campaign: cid, amount, timestamp: now }),
    )
    &&& post.parties() == pre.parties().update(
        donor as int,
        (pre.parties()[donor as int] - amount) as u64,
    )
    &&& post.escrows() == pre.escrows().update(
        cid as int,
        (pre.escrows()[cid as int] + amount) as u64,
    )
    &&& post.reserve == pre.reserve
}

/// The full effect of a successful withdrawal: the escrow pays
/// everything above the reserve to the creator and the campaign goes
/// inactive, terminally.
pub open spec fn withdraw_effect(
    pre: EscrowStateMachine,
    post: EscrowStateMachine,
    cid: usize,
    requester: usize,
) -> bool {
    let c = pre.campaign_at(cid as int);
    &&& post.campaigns() == pre.campaigns().update(cid as int, Some(deactivated(c)))
    &&& post.records() == pre.records()
    &&& post.parties() == pre.parties().update(
        requester as int,
        (pre.parties()[requester as int] + (pre.escrows()[cid as int] - pre.reserve)) as u64,
    )
    &&& post.escrows() == pre.escrows().update(cid as int, pre.reserve)
    &&& post.reserve == pre.reserve
}

/// The full effect of a successful refund: the record's exact amount
/// moves from the campaign's escrow back to the donor, the campaign's
/// donated total shrinks by it, and the record is destroyed.
pub open spec fn refund_effect(
    pre: EscrowStateMachine,
    post: EscrowStateMachine,
    cid: usize,
    donor: usize,
    rid: usize,
) -> bool {
    let c = pre.campaign_at(cid as int);
    let rec = pre.records()[rid as int]->Some_0;
    &&& post.campaigns() == pre.campaigns().update(
        cid as int,
        Some(with_donated(c, (c.donated_amount - rec.amount) as u64)),
    )
    &&& post.records() == pre.records().update(rid as int, None)
    &&& post.parties() == pre.parties().update(
        donor as int,
        (pre.parties()[donor as int] + rec.amount) as u64,
    )
    &&& post.escrows() == pre.escrows().update(
        cid as int,
        (pre.escrows()[cid as int] - rec.amount) as u64,
    )
    &&& post.reserve == pre.reserve
}

/// The full effect of a successful deletion: the escrowed reserve
/// releases to the creator and the campaign's slot empties for good.
pub open spec fn delete_effect(
    pre: EscrowStateMachine,
    post: EscrowStateMachine,
    cid: usize,
    requester: usize,
) -> bool {
    &&& post.campaigns() == pre.campaigns().update(cid as int, None)
    &&& post.records() == pre.records()
    &&& post.parties() == pre.parties().update(
        requester as int,
        (pre.parties()[requester as int] + pre.escrows()[cid as int]) as u64,
    )
    &&& post.escrows() == pre.escrows().update(cid as int, 0u64)
    &&& post.reserve == pre.reserve
}

impl EscrowStateMachine {
    /// The campaign slots.
    pub open spec fn campaigns(self) -> Seq<Option<Campaign>> {
        self.registry.campaigns@
    }

    /// The donation record slots.
    pub open spec fn records(self) -> Seq<Option<DonationRecord>> {
        self.ledger.records@
    }

    /// The party balances.
    pub open spec fn parties(self) -> Seq<u64> {
        self.balances.parties@
    }

    /// The campaign escrow balances.
    pub open spec fn escrows(self) -> Seq<u64> {
        self.balances.escrows@
    }

    /// Slot `cid` holds a live (not deleted) campaign.
    pub open spec fn is_live(self, cid: int) -> bool {
        0 <= cid < self.campaigns().len() && self.campaigns()[cid] is Some
    }

    /// The campaign in live slot `cid`.
    pub open spec fn campaign_at(self, cid: int) -> Campaign {
        self.campaigns()[cid]->Some_0
    }

    /// Everything `wf` asks of campaign slot `i`.
    pub open spec fn slot_ok(self, i: int) -> bool {
        match self.campaigns()[i] {
            Option::Some(c) => {
                &&& campaign_valid(c, self.parties().len())
                &&& c.donated_amount as int == donations_total(self.records(), i)
                &&& c.is_active ==> self.escrows()[i] as int == self.reserve + c.donated_amount
                &&& !c.is_active ==> self.escrows()[i] == self.reserve && c.donated_amount
                    >= c.goal_amount
            },
            Option::None => self.escrows()[i] == 0,
        }
    }

    /// Everything `wf` asks of donation record slot `j`: an alive
    /// record has a positive amount, a known donor, and points at a
    /// live campaign slot.
    pub open spec fn record_ok(self, j: int) -> bool {
        match self.records()[j] {
            Option::Some(r) => {
                &&& r.amount > 0
                &&& r.donor < self.parties().len()
                &&& r.campaign < self.campaigns().len()
                &&& self.campaigns()[r.campaign as int] is Some
            },
            Option::None => true,
        }
    }

    /// Every live campaign's `donated_amount` equals the sum of the
    /// amounts of its alive donation records.
    pub open spec fn donation_totals_consistent(self) -> bool {
        forall|i: int|
            0 <= i < self.campaigns().len() && (#[trigger] self.campaigns()[i]) is Some
                ==> self.campaigns()[i]->Some_0.donated_amount as int == donations_total(
                self.records(),
                i,
            )
    }

    /// The escrow invariant: every operation requires it and
    /// re-establishes it.
    pub open spec fn wf(self) -> bool {
        &&& self.escrows().len() == self.campaigns().len()
        &&& keys_distinct(self.campaigns())
        &&& forall|i: int| 0 <= i < self.campaigns().len() ==> #[trigger] self.slot_ok(i)
        &&& forall|j: int| 0 <= j < self.records().len() ==> #[trigger] self.record_ok(j)
    }

    /// The first error campaign creation reports, or `None` when it
    /// must succeed.
    pub open spec fn create_check(
        self,
        creator: usize,
        title: Seq<char>,
        description: Seq<char>,
        goal_amount: u64,
        deadline: i64,
        metadata_uri: Seq<char>,
        now: i64,
    ) -> Option<ErrorCode> {
        if goal_amount == 0 {
            Some(ErrorCode::InvalidGoalAmount)
        } else if deadline <= now {
            Some(ErrorCode::InvalidDeadline)
        } else if title.len() > MAX_TITLE_LEN {
            Some(ErrorCode::TitleTooLong)
        } else if description.len() > MAX_DESCRIPTION_LEN {
            Some(ErrorCode::DescriptionTooLong)
        } else if metadata_uri.len() > MAX_URI_LEN {
            Some(ErrorCode::UriTooLong)
        } else if has_live_campaign(self.campaigns(), creator as int, title) {
            Some(ErrorCode::DuplicateCampaign)
        } else {
            None
        }
    }

    /// A fresh state machine around the given storage reserve constant.
    pub fn new(reserve: u64) -> (r: EscrowStateMachine)
        ensures
            r.wf(),
            r.campaigns() == Seq::<Option<Campaign>>::empty(),
            r.records() == Seq::<Option<DonationRecord>>::empty(),
            r.parties() == Seq::<u64>::empty(),
            r.reserve == reserve,
    {
        EscrowStateMachine {
            registry: CampaignRegistry::new(),
            ledger: DonationLedger::new(),
            balances: BalanceBook::new(),
            reserve,
        }
    }

    /// Register a new party (creator or donor) with an opening
    /// balance; returns the identity the other operations use for it.
    pub fn register_party(&mut self, initial: u64) -> (id: usize)
        requires
            old(self).wf(),
        ensures
            final(self).wf(),
            id == old(self).parties().len(),
            final(self).parties() == old(self).parties().push(initial),
            final(self).campaigns() == old(self).campaigns(),
            final(self).records() == old(self).records(),
            final(self).escrows() == old(self).escrows(),
            final(self).reserve == old(self).reserve,
    {
        let id = self.balances.add_party(initial);
        proof {
            let pre = *old(self);
            assert forall|i: int| 0 <= i < self.campaigns().len() implies #[trigger] self.slot_ok(
                i,
            ) by {
                assert(pre.slot_ok(i));
            }
            assert forall|j: int| 0 <= j < self.records().len() implies #[trigger] self.record_ok(
                j,
            ) by {
                assert(pre.record_ok(j));
            }
        }
        id
    }

    /// Open a new campaign. On success the campaign takes the next
    /// registry slot with a zero donated total, its escrow opens at the
    /// reserve, and the creation notification is returned; otherwise
    /// the first failing validation is reported and nothing changes.
    pub fn create_campaign(
        &mut self,
        creator: usize,
        title: String,
        description: String,
        goal_amount: u64,
        deadline: i64,
        metadata_uri: String,
        now: i64,
    ) -> (r: Result<CampaignCreated, ErrorCode>)
        requires
            old(self).wf(),
            creator < old(self).parties().len(),
        ensures
            final(self).wf(),
            final(self).reserve == old(self).reserve,
            match r {
                Result::Ok(ev) => {
                    &&& old(self).create_check(
                        creator,
                        title@,
                        description@,
                        goal_amount,
                        deadline,
                        metadata_uri@,
                        now,
                    ) is None
                    &&& final(self).campaigns() == old(self).campaigns().push(
                        Some(
                            Campaign {
                                creator,
                                title,
                                description,
                                goal_amount,
                                donated_amount: 0,
                                deadline,
                                metadata_uri,
                                created_at: now,
                                is_active: true,
                            },
                        ),
                    )
                    &&& final(self).records() == old(self).records()
                    &&& final(self).parties() == old(self).parties()
                    &&& final(self).escrows() == old(self).escrows().push(old(self).reserve)
                    &&& ev == (CampaignCreated {
                        campaign: old(self).campaigns().len() as usize,
                        creator,
                        goal_amount,
                        deadline,
                    })
                },
                Result::Err(e) => {
                    &&& old(self).create_check(
                        creator,
                        title@,
                        description@,
                        goal_amount,
                        deadline,
                        metadata_uri@,
                        now,
                    ) == Some(e)
                    &&& *final(self) == *old(self)
                },
            },
    {
        if goal_amount == 0 {
            return Err(ErrorCode::InvalidGoalAmount);
        }
        if deadline <= now {
            return Err(ErrorCode::InvalidDeadline);
        }
        if title.as_str().unicode_len() > MAX_TITLE_LEN {
            return Err(ErrorCode::TitleTooLong);
        }
        if description.as_str().unicode_len() > MAX_DESCRIPTION_LEN {
            return Err(ErrorCode::DescriptionTooLong);
        }
        if metadata_uri.as_str().unicode_len() > MAX_URI_LEN {
            return Err(ErrorCode::UriTooLong);
        }
        if self.registry.contains_key(creator, &title) {
            return Err(ErrorCode::DuplicateCampaign);
        }
        let cid = self.registry.len();
        let funding = self.reserve;
        let campaign = Campaign {
            creator,
            title,
            description,
            goal_amount,
            donated_amount: 0,
            deadline,
            metadata_uri,
            created_at: now,
            is_active: true,
        };
        self.registry.campaigns.push(Some(campaign));
        self.balances.open_escrow(funding);
        proof {
            let pre = *old(self);
            let n = pre.campaigns().len() as int;
            assert forall|i: int, j: int|
                #![trigger self.campaigns()[i], self.campaigns()[j]]
                0 <= i < j < self.campaigns().len() && self.campaigns()[i] is Some
                    && self.campaigns()[j] is Some implies !(self.campaigns()[i]->Some_0.creator
                == self.campaigns()[j]->Some_0.creator && self.campaigns()[i]->Some_0.title@
                == self.campaigns()[j]->Some_0.title@) by {
                if j < n {
                    assert(self.campaigns()[i] == pre.campaigns()[i]);
                    assert(self.campaigns()[j] == pre.campaigns()[j]);
                } else {
                    assert(self.campaigns()[i] == pre.campaigns()[i]);
                    assert(!has_live_campaign(pre.campaigns(), creator as int, title@));
                }
            }
            assert forall|i: int| 0 <= i < self.campaigns().len() implies #[trigger] self.slot_ok(
                i,
            ) by {
                if i < n {
                    assert(pre.slot_ok(i));
                    assert(self.campaigns()[i] == pre.campaigns()[i]);
                } else {
                    assert forall|k: int|
                        0 <= k < self.records().len() && self.records()[k] is Some implies (
                    #[trigger] self.records()[k])->Some_0.campaign < n by {
                        assert(pre.record_ok(k));
                    }
                    lemma_total_out_of_range(self.records(), n, i);
                }
            }
            assert forall|k: int| 0 <= k < self.records().len() implies #[trigger] self.record_ok(
                k,
            ) by {
                assert(pre.record_ok(k));
                if self.records()[k] is Some {
                    let rc = self.records()[k]->Some_0.campaign;
                    assert(self.campaigns()[rc as int] == pre.campaigns()[rc as int]);
                }
            }
        }
        Ok(CampaignCreated { campaign: cid, creator, goal_amount, deadline })
    }

    /// The first error a donation reports, or `None` when it must
    /// succeed. Meaningful for a live slot `cid` and a known `donor`.
    pub open spec fn donate_check(self, cid: usize, donor: usize, amount: u64, now: i64) -> Option<
        ErrorCode,
    > {
        let c = self.campaign_at(cid as int);
        if amount == 0 {
            Some(ErrorCode::InvalidDonationAmount)
        } else if !c.is_active {
            Some(ErrorCode::CampaignNotActive)
        } else if now >= c.deadline {
            Some(ErrorCode::CampaignExpired)
        } else if c.donated_amount + amount > u64::MAX {
            Some(ErrorCode::Overflow)
        } else if self.parties()[donor as int] < amount {
            Some(ErrorCode::InsufficientFunds)
        } else if self.escrows()[cid as int] + amount > u64::MAX {
            Some(ErrorCode::Overflow)
        } else {
            None
        }
    }

    /// Contribute `amount` from `donor` to campaign `cid` at time
    /// `now`. On success the amount moves from the donor's balance into
    /// the campaign's escrow, `donated_amount` grows by exactly the
    /// amount (overflow-checked, never wrapping), and a new donation
    /// record is created in the next ledger slot; otherwise the first
    /// failing check is reported and nothing changes.
    pub fn donate(&mut self, cid: usize, donor: usize, amount: u64, now: i64) -> (r: Result<
        DonationMade,
        ErrorCode,
    >)
        requires
            old(self).wf(),
            old(self).is_live(cid as int),
            donor < old(self).parties().len(),
        ensures
            final(self).wf(),
            match r {
                Result::Ok(ev) => {
                    &&& old(self).donate_check(cid, donor, amount, now) is None
                    &&& donate_effect(*old(self), *final(self), cid, donor, amount, now)
                    &&& ev == (DonationMade {
                        campaign: cid,
                        donor,
                        amount,
                        total_donated: (old(self).campaign_at(cid as int).donated_amount
                            + amount) as u64,
                    })
                },
                Result::Err(e) => {
                    &&& old(self).donate_check(cid, donor, amount, now) == Some(e)
                    &&& *final(self) == *old(self)
                },
            },
    {
        if amount == 0 {
            return Err(ErrorCode::InvalidDonationAmount);
        }
        let donated: u64;
        match self.registry.get(cid) {
            Some(c) => {
                if !c.is_active {
                    return Err(ErrorCode::CampaignNotActive);
                }
                if now >= c.deadline {
                    return Err(ErrorCode::CampaignExpired);
                }
                donated = c.donated_amount;
            },
            None => {
                // dead: the slot is live by the precondition
                return Err(ErrorCode::CampaignNotActive);
            },
        }
        let new_donated = match donated.checked_add(amount) {
            Some(v) => v,
            None => {
                return Err(ErrorCode::Overflow);
            },
        };
        match self.balances.deposit_to_escrow(donor, cid, amount) {
            Ok(()) => {},
            Err(e) => {
                return Err(e);
            },
        }
        match &mut self.registry.campaigns[cid] {
            Some(c) => {
                c.donated_amount = new_donated;
            },
            None => {},
        }
        self.ledger.append(DonationRecord { donor, campaign: cid, amount, timestamp: now });
        proof {
            let pre = *old(self);
            let n = pre.campaigns().len() as int;
            let c = pre.campaign_at(cid as int);
            let rec = DonationRecord { donor, campaign: cid, amount, timestamp: now };
            assert(self.campaigns() =~= pre.campaigns().update(
                cid as int,
                Some(with_donated(c, new_donated)),
            ));
            lemma_total_push(pre.records(), Some(rec), cid as int);
            assert forall|i: int, j: int|
                #![trigger self.campaigns()[i], self.campaigns()[j]]
                0 <= i < j < self.campaigns().len() && self.campaigns()[i] is Some
                    && self.campaigns()[j] is Some implies !(self.campaigns()[i]->Some_0.creator
                == self.campaigns()[j]->Some_0.creator && self.campaigns()[i]->Some_0.title@
                == self.campaigns()[j]->Some_0.title@) by {
                assert(pre.campaigns()[i] is Some && pre.campaigns()[j] is Some);
                assert(self.campaigns()[i]->Some_0.creator == pre.campaigns()[i]->Some_0.creator);
                assert(self.campaigns()[i]->Some_0.title@ == pre.campaigns()[i]->Some_0.title@);
                assert(self.campaigns()[j]->Some_0.creator == pre.campaigns()[j]->Some_0.creator);
                assert(self.campaigns()[j]->Some_0.title@ == pre.campaigns()[j]->Some_0.title@);
            }
            assert forall|i: int| 0 <= i < self.campaigns().len() implies #[trigger] self.slot_ok(
                i,
            ) by {
                assert(pre.slot_ok(i));
                lemma_total_push(pre.records(), Some(rec), i);
            }
            assert forall|k: int| 0 <= k < self.records().len() implies #[trigger] self.record_ok(
                k,
            ) by {
                if k < pre.records().len() {
                    assert(pre.record_ok(k));
                }
            }
        }
        Ok(DonationMade { campaign: cid, donor, amount, total_donated: new_donated })
    }

    /// The first error a withdrawal reports, or `None` when it must
    /// succeed. Meaningful for a live slot `cid` under `wf`, where the
    /// escrow holds the reserve plus the donated total.
    pub open spec fn withdraw_check(self, cid: usize, requester: usize, now: i64) -> Option<
        ErrorCode,
    > {
        let c = self.campaign_at(cid as int);
        if c.creator != requester {
            Some(ErrorCode::Unauthorized)
        } else if !c.is_active {
            Some(ErrorCode::CampaignNotActive)
        } else if now < c.deadline {
            Some(ErrorCode::CampaignNotExpired)
        } else if c.donated_amount < c.goal_amount {
            Some(ErrorCode::GoalNotReached)
        } else if self.parties()[requester as int] + (self.escrows()[cid as int]
            - self.reserve) > u64::MAX {
            Some(ErrorCode::Overflow)
        } else {
            None
        }
    }

    /// Withdraw the raised funds of campaign `cid` to its creator at
    /// time `now`. Succeeds only for the creator, on an active campaign
    /// whose deadline has passed with the goal reached; the escrow then
    /// pays out everything above the reserve and the campaign goes
    /// inactive — the terminal success path, taken at most once.
    /// Otherwise the first failing check is reported and nothing
    /// changes.
    pub fn withdraw(&mut self, cid: usize, requester: usize, now: i64) -> (r: Result<
        FundsWithdrawn,
        ErrorCode,
    >)
        requires
            old(self).wf(),
            old(self).is_live(cid as int),
            requester < old(self).parties().len(),
        ensures
            final(self).wf(),
            match r {
                Result::Ok(ev) => {
                    &&& old(self).withdraw_check(cid, requester, now) is None
                    &&& withdraw_effect(*old(self), *final(self), cid, requester)
                    &&& ev == (FundsWithdrawn {
                        campaign: cid,
                        creator: requester,
                        amount: (old(self).escrows()[cid as int] - old(self).reserve) as u64,
                    })
                    &&& ev.amount == old(self).campaign_at(cid as int).donated_amount
                },
                Result::Err(e) => {
                    &&& old(self).withdraw_check(cid, requester, now) == Some(e)
                    &&& *final(self) == *old(self)
                },
            },
    {
        match self.registry.get(cid) {
            Some(c) => {
                if c.creator != requester {
                    return Err(ErrorCode::Unauthorized);
                }
                if !c.is_active {
                    return Err(ErrorCode::CampaignNotActive);
                }
                if now < c.deadline {
                    return Err(ErrorCode::CampaignNotExpired);
                }
                if c.donated_amount < c.goal_amount {
                    return Err(ErrorCode::GoalNotReached);
                }
            },
            None => {
                // dead: the slot is live by the precondition
                return Err(ErrorCode::Unauthorized);
            },
        }
        proof {
            assert(old(self).slot_ok(cid as int));
        }
        let held = self.balances.escrow_balance(cid);
        let reserve = self.reserve;
        let withdrawable = match held.checked_sub(reserve) {
            Some(v) => v,
            None => {
                // dead: under `wf` an active escrow holds at least the
                // reserve, so the subtraction cannot underflow
                return Err(ErrorCode::InsufficientFunds);
            },
        };
        match self.balances.pay_from_escrow(cid, requester, withdrawable) {
            Ok(()) => {},
            Err(e) => {
                return Err(e);
            },
        }
        match &mut self.registry.campaigns[cid] {
            Some(c) => {
                c.is_active = false;
            },
            None => {},
        }
        proof {
            let pre = *old(self);
            let c = pre.campaign_at(cid as int);
            assert(self.campaigns() =~= pre.campaigns().update(cid as int, Some(deactivated(c))));
            assert forall|i: int, j: int|
                #![trigger self.campaigns()[i], self.campaigns()[j]]
                0 <= i < j < self.campaigns().len() && self.campaigns()[i] is Some
                    && self.campaigns()[j] is Some implies !(self.campaigns()[i]->Some_0.creator
                == self.campaigns()[j]->Some_0.creator && self.campaigns()[i]->Some_0.title@
                == self.campaigns()[j]->Some_0.title@) by {
                assert(pre.campaigns()[i] is Some && pre.campaigns()[j] is Some);
                assert(self.campaigns()[i]->Some_0.creator == pre.campaigns()[i]->Some_0.creator);
                assert(self.campaigns()[i]->Some_0.title@ == pre.campaigns()[i]->Some_0.title@);
                assert(self.campaigns()[j]->Some_0.creator == pre.campaigns()[j]->Some_0.creator);
                assert(self.campaigns()[j]->Some_0.title@ == pre.campaigns()[j]->Some_0.title@);
            }
            assert forall|i: int| 0 <= i < self.campaigns().len() implies #[trigger] self.slot_ok(
                i,
            ) by {
                assert(pre.slot_ok(i));
            }
            assert forall|k: int| 0 <= k < self.records().len() implies #[trigger] self.record_ok(
                k,
            ) by {
                assert(pre.record_ok(k));
            }
        }
        Ok(FundsWithdrawn { campaign: cid, creator: requester, amount: withdrawable })
    }

    /// The first error a refund reports, or `None` when it must
    /// succeed. Meaningful for a live slot `cid` under `wf`. A
    /// destroyed record belongs to no campaign, so a second refund of
    /// the same record reports `InvalidCampaign`.
    pub open spec fn refund_check(self, cid: usize, donor: usize, rid: usize, now: i64) -> Option<
        ErrorCode,
    > {
        let c = self.campaign_at(cid as int);
        match self.records()[rid as int] {
            Option::None => Some(ErrorCode::InvalidCampaign),
            Option::Some(rec) => {
                if rec.donor != donor {
                    Some(ErrorCode::Unauthorized)
                } else if rec.campaign != cid {
                    Some(ErrorCode::InvalidCampaign)
                } else if now < c.deadline {
                    Some(ErrorCode::CampaignNotExpired)
                } else if c.donated_amount >= c.goal_amount {
                    Some(ErrorCode::GoalReached)
                } else if self.parties()[donor as int] + rec.amount > u64::MAX {
                    Some(ErrorCode::Overflow)
                } else {
                    None
                }
            },
        }
    }

    /// Refund the contribution recorded in ledger slot `rid` to
    /// `donor`. Succeeds only for the record's own donor, against the
    /// record's own campaign, after the deadline and only while the
    /// goal is unmet; the record's exact amount then moves from the
    /// escrow back to the donor, `donated_amount` shrinks by it
    /// (underflow-checked, never wrapping), and the record is
    /// destroyed, so the same record can never be refunded twice.
    /// Otherwise the first failing check is reported and nothing
    /// changes.
    pub fn refund(&mut self, cid: usize, donor: usize, rid: usize, now: i64) -> (r: Result<
        RefundIssued,
        ErrorCode,
    >)
        requires
            old(self).wf(),
            old(self).is_live(cid as int),
            donor < old(self).parties().len(),
            rid < old(self).records().len(),
        ensures
            final(self).wf(),
            match r {
                Result::Ok(ev) => {
                    &&& old(self).refund_check(cid, donor, rid, now) is None
                    &&& refund_effect(*old(self), *final(self), cid, donor, rid)
                    &&& ev == (RefundIssued {
                        campaign: cid,
                        donor,
                        amount: old(self).records()[rid as int]->Some_0.amount,
                    })
                },
                Result::Err(e) => {
                    &&& old(self).refund_check(cid, donor, rid, now) == Some(e)
                    &&& *final(self) == *old(self)
                },
            },
    {
        let refund_amount: u64;
        match self.ledger.get(rid) {
            Some(rec) => {
                if rec.donor != donor {
                    return Err(ErrorCode::Unauthorized);
                }
                if rec.campaign != cid {
                    return Err(ErrorCode::InvalidCampaign);
                }
                refund_amount = rec.amount;
            },
            None => {
                return Err(ErrorCode::InvalidCampaign);
            },
        }
        let donated: u64;
        match self.registry.get(cid) {
            Some(c) => {
                if now < c.deadline {
                    return Err(ErrorCode::CampaignNotExpired);
                }
                if c.donated_amount >= c.goal_amount {
                    return Err(ErrorCode::GoalReached);
                }
                donated = c.donated_amount;
            },
            None => {
                // dead: the slot is live by the precondition
                return Err(ErrorCode::CampaignNotExpired);
            },
        }
        proof {
            assert(old(self).slot_ok(cid as int));
            // the record is alive and counted in the campaign's total,
            // so the donated total and the escrow both cover it
            lemma_total_member_bound(old(self).records(), rid as int, cid as int);
        }
        match self.balances.pay_from_escrow(cid, donor, refund_amount) {
            Ok(()) => {},
            Err(e) => {
                // only the donor-side overflow is reachable: under `wf`
                // the escrow holds the reserve plus the donated total
                return Err(e);
            },
        }
        let new_donated = match donated.checked_sub(refund_amount) {
            Some(v) => v,
            None => {
                // dead: the donated total covers every alive record
                return Err(ErrorCode::Underflow);
            },
        };
        match &mut self.registry.campaigns[cid] {
            Some(c) => {
                c.donated_amount = new_donated;
            },
            None => {},
        }
        self.ledger.destroy(rid);
        proof {
            let pre = *old(self);
            let c = pre.campaign_at(cid as int);
            let rec = pre.records()[rid as int]->Some_0;
            assert(self.campaigns() =~= pre.campaigns().update(
                cid as int,
                Some(with_donated(c, new_donated)),
            ));
            assert forall|i: int, j: int|
                #![trigger self.campaigns()[i], self.campaigns()[j]]
                0 <= i < j < self.campaigns().len() && self.campaigns()[i] is Some
                    && self.campaigns()[j] is Some implies !(self.campaigns()[i]->Some_0.creator
                == self.campaigns()[j]->Some_0.creator && self.campaigns()[i]->Some_0.title@
                == self.campaigns()[j]->Some_0.title@) by {
                assert(pre.campaigns()[i] is Some && pre.campaigns()[j] is Some);
                assert(self.campaigns()[i]->Some_0.creator == pre.campaigns()[i]->Some_0.creator);
                assert(self.campaigns()[i]->Some_0.title@ == pre.campaigns()[i]->Some_0.title@);
                assert(self.campaigns()[j]->Some_0.creator == pre.campaigns()[j]->Some_0.creator);
                assert(self.campaigns()[j]->Some_0.title@ == pre.campaigns()[j]->Some_0.title@);
            }
            assert forall|i: int| 0 <= i < self.campaigns().len() implies #[trigger] self.slot_ok(
                i,
            ) by {
                assert(pre.slot_ok(i));
                lemma_total_update(pre.records(), rid as int, None, i);
            }
            assert forall|k: int| 0 <= k < self.records().len() implies #[trigger] self.record_ok(
                k,
            ) by {
                assert(pre.record_ok(k));
            }
        }
        Ok(RefundIssued { campaign: cid, donor, amount: refund_amount })
    }

    /// The first error a deletion reports, or `None` when it must
    /// succeed. Meaningful for a live slot `cid` under `wf`.
    pub open spec fn delete_check(self, cid: usize, requester: usize) -> Option<ErrorCode> {
        let c = self.campaign_at(cid as int);
        if c.creator != requester {
            Some(ErrorCode::Unauthorized)
        } else if c.donated_amount != 0 {
            Some(ErrorCode::CampaignHasDonations)
        } else if self.parties()[requester as int] + self.escrows()[cid as int] > u64::MAX {
            Some(ErrorCode::Overflow)
        } else {
            None
        }
    }

    /// Delete campaign `cid`. Succeeds only for the creator and only
    /// while the donated total is zero — no contribution ever accepted,
    /// or every one refunded; the reserved storage balance then
    /// releases to the creator and the slot empties. Otherwise the
    /// first failing check is reported and nothing changes.
    pub fn delete_campaign(&mut self, cid: usize, requester: usize) -> (r: Result<
        CampaignDeleted,
        ErrorCode,
    >)
        requires
            old(self).wf(),
            old(self).is_live(cid as int),
            requester < old(self).parties().len(),
        ensures
            final(self).wf(),
            match r {
                Result::Ok(ev) => {
                    &&& old(self).delete_check(cid, requester) is None
                    &&& delete_effect(*old(self), *final(self), cid, requester)
                    &&& ev == (CampaignDeleted { campaign: cid, creator: requester })
                },
                Result::Err(e) => {
                    &&& old(self).delete_check(cid, requester) == Some(e)
                    &&& *final(self) == *old(self)
                },
            },
    {
        match self.registry.get(cid) {
            Some(c) => {
                if c.creator != requester {
                    return Err(ErrorCode::Unauthorized);
                }
                if c.donated_amount != 0 {
                    return Err(ErrorCode::CampaignHasDonations);
                }
            },
            None => {
                // dead: the slot is live by the precondition
                return Err(ErrorCode::Unauthorized);
            },
        }
        proof {
            assert(old(self).slot_ok(cid as int));
        }
        let held = self.balances.escrow_balance(cid);
        match self.balances.pay_from_escrow(cid, requester, held) {
            Ok(()) => {},
            Err(e) => {
                // only the creator-side overflow is reachable: the
                // escrow trivially covers its own balance
                return Err(e);
            },
        }
        self.registry.campaigns[cid] = None;
        proof {
            let pre = *old(self);
            assert(self.campaigns() =~= pre.campaigns().update(cid as int, None));
            assert forall|i: int, j: int|
                #![trigger self.campaigns()[i], self.campaigns()[j]]
                0 <= i < j < self.campaigns().len() && self.campaigns()[i] is Some
                    && self.campaigns()[j] is Some implies !(self.campaigns()[i]->Some_0.creator
                == self.campaigns()[j]->Some_0.creator && self.campaigns()[i]->Some_0.title@
                == self.campaigns()[j]->Some_0.title@) by {
                assert(pre.campaigns()[i] is Some && pre.campaigns()[j] is Some);
                assert(self.campaigns()[i] == pre.campaigns()[i]);
                assert(self.campaigns()[j] == pre.campaigns()[j]);
            }
            assert forall|i: int| 0 <= i < self.campaigns().len() implies #[trigger] self.slot_ok(
                i,
            ) by {
                assert(pre.slot_ok(i));
            }
            // no alive record points at the deleted campaign: its
            // donated total was zero and every alive record counts a
            // positive amount
            assert forall|k: int| 0 <= k < self.records().len() implies #[trigger] self.record_ok(
                k,
            ) by {
                assert(pre.record_ok(k));
                if self.records()[k] is Some && self.records()[k]->Some_0.campaign == cid {
                    lemma_total_member_bound(pre.records(), k, cid as int);
                }
            }
        }
        Ok(CampaignDeleted { campaign: cid, creator: requester })
    }
}

} // verus!
