//! The replica's consensus state and the primitive transitions on it:
//! quorum size, vote recording, candidate tracking, and finalization.

use vstd::prelude::*;
use vstd::arithmetic::div_mod::lemma_fundamental_div_mod;
use crate::cluster::NodeConfig;
use crate::ledger::VoteLedger;
use crate::types::BlockId;

verus! {

/// The quorum threshold for a roster of `n` replicas:
/// `2 * floor((n - 1) / 3) + 1`, i.e. `2f + 1` votes where `f` is the
/// number of tolerated faulty replicas.
pub open spec fn quorum_for(n: int) -> int {
    if n <= 0 {
        1
    } else {
        2 * ((n - 1) / 3) + 1
    }
}

/// The sentinel hash of the chain before any block is finalized.
pub open spec fn genesis_hash() -> Seq<char> {
    seq!['g', 'e', 'n', 'e', 's', 'i', 's']
}

/// One replica's consensus state.
#[derive(Debug)]
pub struct AppState {
    /// This replica's id.
    pub node_id: u16,
    /// The cluster roster, self included.
    pub peers: Vec<NodeConfig>,
    /// The next height to finalize; starts at 1 and only ever grows.
    pub height: u64,
    /// The hash of the most recently finalized block.
    pub prev_hash: String,
    /// The block id currently being voted on, if any.
    pub current_bid: Option<BlockId>,
    /// Prepare tallies.
    pub prepares: VoteLedger,
    /// Commit tallies.
    pub commits: VoteLedger,
}

/// Whether `bid` names the block the replica is currently voting on.
pub open spec fn can_finalize(s: AppState, bid: BlockId) -> bool {
    match s.current_bid {
        Some(cur) => cur.height == bid.height && cur.hash@ == bid.hash@,
        None => false,
    }
}

/// The state after finalizing `bid`: the chain head moves to `bid.hash`,
/// the height advances by one, and the candidate slot is cleared.
pub open spec fn after_finalize(s: AppState, bid: BlockId) -> AppState {
    AppState {
        node_id: s.node_id,
        peers: s.peers,
        height: (s.height + 1) as u64,
        prev_hash: bid.hash,
        current_bid: None,
        prepares: s.prepares,
        commits: s.commits,
    }
}

impl AppState {
    /// Both ledgers are well-formed.
    pub open spec fn wf(self) -> bool {
        self.prepares.wf() && self.commits.wf()
    }

    /// The quorum threshold for this replica's roster.
    pub open spec fn quorum_spec(self) -> int {
        quorum_for(self.peers@.len() as int)
    }

    /// A fresh replica: height 1, genesis chain head, no candidate, empty
    /// ledgers.
    pub fn new(node_id: u16, peers: Vec<NodeConfig>) -> (s: AppState)
        ensures
            s.wf(),
            s.node_id == node_id,
            s.peers == peers,
            s.height == 1,
            s.prev_hash@ == genesis_hash(),
            s.current_bid is None,
            forall|h: u64, hs: Seq<char>| #[trigger] s.prepares.voters_of(h, hs)
                == Set::<u16>::empty(),
            forall|h: u64, hs: Seq<char>| #[trigger] s.commits.voters_of(h, hs)
                == Set::<u16>::empty(),
    {
        let prev_hash: String = "genesis".to_owned();
        proof {
            reveal_strlit("genesis");
            assert(prev_hash@ =~= genesis_hash());
        }
        AppState {
            node_id,
            peers,
            height: 1,
            prev_hash,
            current_bid: None,
            prepares: VoteLedger::new(),
            commits: VoteLedger::new(),
        }
    }

    /// The number of votes that completes a phase for this roster.
    pub fn quorum_size(&self) -> (q: usize)
        ensures
            q == self.quorum_spec(),
            q >= 1,
    {
        let n = self.peers.len();
        let f = n.saturating_sub(1) / 3;
        proof {
            if n >= 1 {
                lemma_fundamental_div_mod((n - 1) as int, 3);
            }
        }
        2 * f + 1
    }

    /// Records a Prepare vote by `from` for `bid`; returns the resulting
    /// number of distinct Prepare voters for `bid`.
    pub fn note_prepare(&mut self, bid: &BlockId, from: u16) -> (count: usize)
        requires
            old(self).wf(),
        ensures
            final(self).wf(),
            final(self).prepares.voters_of(bid.height, bid.hash@) == old(self).prepares.voters_of(
                bid.height,
                bid.hash@,
            ).insert(from),
            forall|h: u64, hs: Seq<char>|
                !(h == bid.height && hs == bid.hash@) ==> #[trigger] final(self).prepares.voters_of(
                    h,
                    hs,
                ) == old(self).prepares.voters_of(h, hs),
            count == final(self).prepares.voters_of(bid.height, bid.hash@).len(),
            old(self).prepares.voters_of(bid.height, bid.hash@).contains(from) ==> final(self)
                .prepares.voters_of(bid.height, bid.hash@) == old(self).prepares.voters_of(
                bid.height,
                bid.hash@,
            ),
            count >= 1,
            final(self).commits == old(self).commits,
            final(self).node_id == old(self).node_id,
            final(self).peers == old(self).peers,
            final(self).height == old(self).height,
            final(self).prev_hash == old(self).prev_hash,
            final(self).current_bid == old(self).current_bid,
    {
        self.prepares.note(bid, from)
    }

    /// Records a Commit vote by `from` for `bid`; returns the resulting
    /// number of distinct Commit voters for `bid`.
    pub fn note_commit(&mut self, bid: &BlockId, from: u16) -> (count: usize)
        requires
            old(self).wf(),
        ensures
            final(self).wf(),
            final(self).commits.voters_of(bid.height, bid.hash@) == old(self).commits.voters_of(
                bid.height,
                bid.hash@,
            ).insert(from),
            forall|h: u64, hs: Seq<char>|
                !(h == bid.height && hs == bid.hash@) ==> #[trigger] final(self).commits.voters_of(
                    h,
                    hs,
                ) == old(self).commits.voters_of(h, hs),
            count == final(self).commits.voters_of(bid.height, bid.hash@).len(),
            old(self).commits.voters_of(bid.height, bid.hash@).contains(from) ==> final(self)
                .commits.voters_of(bid.height, bid.hash@) == old(self).commits.voters_of(
                bid.height,
                bid.hash@,
            ),
            count >= 1,
            final(self).prepares == old(self).prepares,
            final(self).node_id == old(self).node_id,
            final(self).peers == old(self).peers,
            final(self).height == old(self).height,
            final(self).prev_hash == old(self).prev_hash,
            final(self).current_bid == old(self).current_bid,
    {
        self.commits.note(bid, from)
    }

    /// Installs `bid` as the block currently being voted on, replacing any
    /// earlier candidate.
    pub fn set_candidate(&mut self, bid: BlockId)
        ensures
            final(self).current_bid == Some(bid),
            final(self).node_id == old(self).node_id,
            final(self).peers == old(self).peers,
            final(self).height == old(self).height,
            final(self).prev_hash == old(self).prev_hash,
            final(self).prepares == old(self).prepares,
            final(self).commits == old(self).commits,
    {
        self.current_bid = Some(bid);
    }

    /// Finalizes `bid` iff it is the current candidate: the chain head
    /// becomes `bid.hash`, the height advances, the candidate is cleared.
    /// A quorum for any other block id changes nothing.
    pub fn finalize_if_current(&mut self, bid: &BlockId) -> (finalized: bool)
        requires
            can_finalize(*old(self), *bid) ==> old(self).height < u64::MAX,
        ensures
            finalized == can_finalize(*old(self), *bid),
            finalized ==> *final(self) == after_finalize(*old(self), *bid),
            !finalized ==> *final(self) == *old(self),
            final(self).height >= old(self).height,
    {
        let matches_current: bool = match &self.current_bid {
            Some(cur) => cur.height == bid.height && cur.hash == bid.hash,
            None => false,
        };
        if matches_current {
            self.prev_hash = bid.hash.clone();
            self.height = self.height + 1;
            self.current_bid = None;
            true
        } else {
            false
        }
    }
}

/// At most one finalization can succeed per height: once a block is
/// finalized the candidate slot is empty, so no further block id — at that
/// height or any other — can finalize until a later Proposal installs a new
/// candidate.
pub proof fn lemma_finalize_at_most_once(s: AppState, b1: BlockId, b2: BlockId)
    requires
        can_finalize(s, b1),
    ensures
        !can_finalize(after_finalize(s, b1), b2),
{
}

} // verus!
