//! The messages and reply bodies of the protocol.

use vstd::prelude::*;

verus! {

/// Identifies a candidate block: the height it is proposed for and its
/// hash label. Two block ids name the same block iff both fields match.
#[derive(Debug)]
pub struct BlockId {
    pub height: u64,
    pub hash: String,
}

impl Clone for BlockId {
    fn clone(&self) -> (r: Self)
        ensures
            r == *self,
    {
        BlockId { height: self.height, hash: self.hash.clone() }
    }
}

/// A consensus message. The proposed block payload itself is opaque to the
/// engine and never inspected, so a `Proposal` carries only the fields the
/// engine reads; transport code attaches the payload separately.
#[derive(Debug)]
pub enum PbftMsg {
    Proposal { height: u64, proposer: u16 },
    Prepare { from: u16, bid: BlockId },
    Commit { from: u16, bid: BlockId },
}

impl Clone for PbftMsg {
    fn clone(&self) -> (r: Self)
        ensures
            r == *self,
    {
        match self {
            PbftMsg::Proposal { height, proposer } => PbftMsg::Proposal {
                height: *height,
                proposer: *proposer,
            },
            PbftMsg::Prepare { from, bid } => PbftMsg::Prepare { from: *from, bid: bid.clone() },
            PbftMsg::Commit { from, bid } => PbftMsg::Commit { from: *from, bid: bid.clone() },
        }
    }
}

/// Reply to a single submitted message.
#[derive(Debug, Clone, Copy, PartialEq, Eq, Structural)]
pub struct Ack {
    pub ok: bool,
    pub node_id: u16,
}

/// Reply to a broadcast request: how many peers were tried and how many
/// answered with success.
#[derive(Debug, Clone, Copy, PartialEq, Eq, Structural)]
pub struct BroadcastReport {
    pub sender_id: u16,
    pub attempted: usize,
    pub succeeded: usize,
}

} // verus!
