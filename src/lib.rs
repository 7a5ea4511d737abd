//! A claimable-balance timelock escrow: one deposit held on behalf of a
//! depositor, released to one of a bounded set of claimants under a time bound.
//!
//! - `time_bound`: when a claim is allowed.
//! - `ledger`: an in-memory asset ledger of balances and allowances.
//! - `escrow`: the escrow state machine, `deposit` and `claim`.
//! - `deployment`: an escrow beside its ledger and a clock, as one system.
//! - `laws`: what holds of every deployment over any operations.
pub mod deployment;
pub mod error;
pub mod escrow;
pub mod laws;
pub mod ledger;
pub mod time_bound;
