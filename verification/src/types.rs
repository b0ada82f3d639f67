//! Core data model of the crowdfunding escrow: campaigns, donation
//! records, notification events, and the error taxonomy.
//!
//! Parties (creators and donors) are named by an index into the balance
//! book, and campaigns and donation records by their slot index in the
//! registry and the ledger respectively.

use vstd::prelude::*;

verus! {

/// Longest accepted campaign title, in characters.
pub const MAX_TITLE_LEN: usize = 200;

/// Longest accepted campaign description, in characters.
pub const MAX_DESCRIPTION_LEN: usize = 1000;

/// Longest accepted metadata reference, in characters.
pub const MAX_URI_LEN: usize = 200;

/// A fundraising campaign: immutable metadata plus the running total of
/// accepted contributions and the activity flag that a successful
/// withdrawal clears.
pub struct Campaign {
    /// Party that opened the campaign; only it may withdraw or delete.
    pub creator: usize,
    pub title: String,
    pub description: String,
    /// Funding target; reaching it by the deadline enables withdrawal.
    pub goal_amount: u64,
    /// Running total of contributions accepted and not yet refunded.
    pub donated_amount: u64,
    /// Timestamp after which settlement (withdraw or refund) opens.
    pub deadline: i64,
    pub metadata_uri: String,
    pub created_at: i64,
    /// True until the creator withdraws; cleared exactly once.
    pub is_active: bool,
}

/// The receipt for one accepted contribution; destroyed exactly once,
/// when that contribution is refunded.
#[derive(Clone, Copy, PartialEq, Eq, Structural)]
pub struct DonationRecord {
    /// Party that contributed; only it may claim the refund.
    pub donor: usize,
    /// Slot of the campaign the contribution went to.
    pub campaign: usize,
    /// Contributed amount; always positive.
    pub amount: u64,
    /// Time of the contribution.
    pub timestamp: i64,
}

/// Typed failures; every operation reports exactly one of these and
/// leaves the state untouched when it fails.
#[derive(Clone, Copy, Debug, PartialEq, Eq, Structural)]
pub enum ErrorCode {
    InvalidGoalAmount,
    InvalidDeadline,
    TitleTooLong,
    DescriptionTooLong,
    UriTooLong,
    DuplicateCampaign,
    InvalidDonationAmount,
    CampaignNotActive,
    CampaignExpired,
    Unauthorized,
    CampaignNotExpired,
    GoalNotReached,
    GoalReached,
    InvalidCampaign,
    InsufficientFunds,
    Overflow,
    Underflow,
    CampaignHasDonations,
}

/// Notification emitted by a successful campaign creation.
#[derive(Clone, Copy, Debug, PartialEq, Eq, Structural)]
pub struct CampaignCreated {
    pub campaign: usize,
    pub creator: usize,
    pub goal_amount: u64,
    pub deadline: i64,
}

/// Notification emitted by a successful donation.
#[derive(Clone, Copy, Debug, PartialEq, Eq, Structural)]
pub struct DonationMade {
    pub campaign: usize,
    pub donor: usize,
    pub amount: u64,
    pub total_donated: u64,
}

/// Notification emitted by a successful withdrawal.
#[derive(Clone, Copy, Debug, PartialEq, Eq, Structural)]
pub struct FundsWithdrawn {
    pub campaign: usize,
    pub creator: usize,
    pub amount: u64,
}

/// Notification emitted by a successful refund.
#[derive(Clone, Copy, Debug, PartialEq, Eq, Structural)]
pub struct RefundIssued {
    pub campaign: usize,
    pub donor: usize,
    pub amount: u64,
}

/// Notification emitted by a successful campaign deletion.
#[derive(Clone, Copy, Debug, PartialEq, Eq, Structural)]
pub struct CampaignDeleted {
    pub campaign: usize,
    pub creator: usize,
}

/// A well-formed campaign: positive goal, deadline after creation,
/// text within bounds, creator a known party.
pub open spec fn campaign_valid(c: Campaign, n_parties: nat) -> bool {
    &&& c.creator < n_parties
    &&& c.goal_amount > 0
    &&& c.created_at < c.deadline
    &&& c.title@.len() <= MAX_TITLE_LEN
    &&& c.description@.len() <= MAX_DESCRIPTION_LEN
    &&& c.metadata_uri@.len() <= MAX_URI_LEN
}

} // verus!
