//! Verified core of a milestone-based escrow: amount validation, milestone
//! status transitions, contract accounting, dispute settlement and the
//! administrative pause controls.

pub mod errors;
pub mod amounts;
pub mod reputation;
pub mod types;
pub mod token;
pub mod transitions;
pub mod events;
pub mod fees;
pub mod ledger;
pub mod escrow;
pub mod disputes;
pub mod governance;
pub mod platform;
pub mod defaults;
pub mod laws;
pub mod fixture;
pub mod scenarios;
pub mod budget;
