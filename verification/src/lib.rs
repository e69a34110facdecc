//! A token-staking ledger: a user locks tokens in an escrow that the program
//! alone controls, and on release gets them back with a reward that grows
//! with the time the lock was held.

pub mod address;
pub mod constants;
pub mod error;
pub mod laws;
pub mod staking;
pub mod token;
