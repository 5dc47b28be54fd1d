//! A ledger-resident lottery pool.
//!
//! Participants deposit a fixed stake into a round, the round closes at a
//! deadline, an external randomness oracle delivers entropy correlated to
//! the round by a job id, and settlement selects a winner and splits the
//! pooled balance between the winner and a shared community pool.

pub mod contract;
pub mod error;
pub mod jobid;
pub mod laws;
pub mod msgs;
pub mod oracle;
pub mod pool_msg;
pub mod state;
