//! A validator reward-claim library: a per-account ledger of last-claim
//! block heights, a cooldown-gated authorization policy, checked conversion
//! of a base reward into the chain's smallest transferable unit, and an
//! orchestrator that tells the hosting environment which transfer, if any,
//! a claim request has earned.

pub mod account;
pub mod caller;
pub mod contract;
pub mod factorial;
pub mod gate;
pub mod ledger;
pub mod reward;
