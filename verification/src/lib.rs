//! A single replica of a three-phase Byzantine-fault-tolerant replication
//! protocol: cluster roster, vote ledger, and the consensus engine that
//! tallies Prepare and Commit votes, reaches quorum, and finalizes blocks.
//!
//! Everything here is transport-free: messages come in as plain values and
//! the engine's decisions (which message to gossip next) come back as plain
//! values, so the whole state machine is verified.

pub mod block_hash;
pub mod cluster;
pub mod engine;
pub mod ledger;
pub mod node;
pub mod types;
