//! The campaign registry: owns every `Campaign`, one slot per campaign.
//! A campaign is addressed deterministically by its (creator, title)
//! pair — the registry never holds two live campaigns with the same
//! pair — and referenced by its slot index. Deleting a campaign empties
//! its slot; slot indices are never reused.

use vstd::prelude::*;

use crate::types::Campaign;

verus! {

/// Owns the campaigns. A `None` slot is a deleted campaign.
pub struct CampaignRegistry {
    pub campaigns: Vec<Option<Campaign>>,
}

/// Some live campaign already carries this (creator, title) pair.
pub open spec fn has_live_campaign(
    campaigns: Seq<Option<Campaign>>,
    creator: int,
    title: Seq<char>,
) -> bool {
    exists|i: int|
        0 <= i < campaigns.len() && (#[trigger] campaigns[i]) is Some
            && campaigns[i]->Some_0.creator == creator && campaigns[i]->Some_0.title@ == title
}

/// No two live campaigns share a (creator, title) pair: the pair is a
/// key.
pub open spec fn keys_distinct(campaigns: Seq<Option<Campaign>>) -> bool {
    forall|i: int, j: int|
        #![trigger campaigns[i], campaigns[j]]
        0 <= i < j < campaigns.len() && campaigns[i] is Some && campaigns[j] is Some ==> !(
        campaigns[i]->Some_0.creator == campaigns[j]->Some_0.creator
            && campaigns[i]->Some_0.title@ == campaigns[j]->Some_0.title@)
}

impl CampaignRegistry {
    /// An empty registry.
    pub fn new() -> (r: CampaignRegistry)
        ensures
            r.campaigns@ == Seq::<Option<Campaign>>::empty(),
    {
        CampaignRegistry { campaigns: Vec::new() }
    }

    /// Number of slots ever created (live and deleted).
    pub fn len(&self) -> (n: usize)
        ensures
            n == self.campaigns@.len(),
    {
        self.campaigns.len()
    }

    /// Read one slot.
    pub fn get(&self, i: usize) -> (slot: &Option<Campaign>)
        requires
            i < self.campaigns@.len(),
        ensures
            *slot == self.campaigns@[i as int],
    {
        &self.campaigns[i]
    }

    /// Look a live campaign up by its (creator, title) pair — the
    /// deterministic address every campaign is created under.
    pub fn find(&self, creator: usize, title: &String) -> (r: Option<usize>)
        ensures
            match r {
                Some(i) => i < self.campaigns@.len() && self.campaigns@[i as int] is Some
                    && self.campaigns@[i as int]->Some_0.creator == creator
                    && self.campaigns@[i as int]->Some_0.title@ == title@,
                None => !has_live_campaign(self.campaigns@, creator as int, title@),
            },
    {
        let n = self.campaigns.len();
        let mut i: usize = 0;
        while i < n
            invariant
                n == self.campaigns@.len(),
                i <= n,
                forall|k: int|
                    0 <= k < i && (#[trigger] self.campaigns@[k]) is Some ==> !(
                    self.campaigns@[k]->Some_0.creator == creator
                        && self.campaigns@[k]->Some_0.title@ == title@),
            decreases n - i,
        {
            match &self.campaigns[i] {
                Some(c) => {
                    if c.creator == creator && c.title == *title {
                        return Some(i);
                    }
                },
                None => {},
            }
            i += 1;
        }
        None
    }

    /// Whether a live campaign with this (creator, title) pair exists;
    /// the duplicate check behind campaign creation.
    pub fn contains_key(&self, creator: usize, title: &String) -> (found: bool)
        ensures
            found == has_live_campaign(self.campaigns@, creator as int, title@),
    {
        self.find(creator, title).is_some()
    }
}

} // verus!
