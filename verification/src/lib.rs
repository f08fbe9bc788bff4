//! Weighted BPCon: a Byzantine-fault-tolerant consensus protocol in which
//! every party carries a weight and a quorum is a set of parties whose
//! weights reach a threshold.

pub mod config;
pub mod message;
pub mod value;
pub mod error;
pub mod party;
pub mod leader;
