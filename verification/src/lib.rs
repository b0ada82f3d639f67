//! A crowdfunding escrow state machine, verified.
//!
//! Creators open time-boxed campaigns with a funding goal; donors
//! contribute value held in escrow. If the goal is reached by the
//! deadline the creator may withdraw; otherwise each donor may reclaim
//! exactly what it contributed. The five transitions (create, donate,
//! withdraw, refund, delete) live on [`escrow::EscrowStateMachine`],
//! each with a contract that pins down the exact success effect and the
//! exact error returned otherwise.

pub mod balances;
pub mod escrow;
pub mod laws;
pub mod ledger;
pub mod registry;
pub mod types;
