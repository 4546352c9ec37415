//! Threshold multi-owner authorization: a record of owners and a threshold,
//! and the transitions that create it, reset it for a new proposal, count
//! approvals and gate execution.
pub mod error;
pub mod state;
pub mod utils;
pub mod instruction;
pub mod processor;
pub mod storage;
pub mod laws;
