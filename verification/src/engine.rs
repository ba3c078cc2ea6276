//! The consensus engine: one entry point that interprets an incoming
//! message, updates the replica's state, and decides which messages must
//! be gossiped to the peers next.
//!
//! The engine itself performs no transport. The caller delivers each
//! returned message to every peer but this replica (best effort) and feeds
//! peer messages back in as they arrive.

use vstd::prelude::*;
use crate::block_hash::{bid_hash, bid_hash_label};
use crate::cluster::NodeConfig;
use crate::node::{can_finalize, AppState};
use crate::types::{BlockId, PbftMsg};

verus! {

/// Interprets `msg` against `state` and returns the messages to gossip, in
/// the order they arise.
///
/// - A Proposal installs the derived block id as the current candidate and
///   records the replica's own Prepare vote; a non-proposer asks for a
///   Prepare to be gossiped. If the self vote already completes the Prepare
///   quorum (tiny rosters), the replica records its own Commit, asks for a
///   Commit to be gossiped, and — if that completes the Commit quorum too —
///   finalizes at once.
/// - A Prepare is tallied; when the tally reaches quorum the replica
///   records its own Commit vote and asks for a Commit to be gossiped.
/// - A Commit is tallied; when the tally reaches quorum and the block id is
///   the current candidate, the block is finalized. A quorum for any other
///   block id is tallied but never finalizes.
pub fn handle_pbft_msg(state: &mut AppState, msg: &PbftMsg) -> (out: Vec<PbftMsg>)
    requires
        old(state).wf(),
        *msg is Proposal ==> old(state).height < u64::MAX,
        *msg is Commit ==> old(state).height < u64::MAX,
    ensures
        final(state).wf(),
        final(state).node_id == old(state).node_id,
        final(state).peers == old(state).peers,
        final(state).height >= old(state).height,
        (match *msg {
            PbftMsg::Proposal { height, proposer } => {
                let label = bid_hash_label(height, proposer);
                let me = old(state).node_id;
                let newp = old(state).prepares.voters_of(height, label).insert(me);
                let newc = old(state).commits.voters_of(height, label).insert(me);
                let reached_p = newp.len() >= old(state).quorum_spec();
                let reached_c = reached_p && newc.len() >= old(state).quorum_spec();
                &&& final(state).prepares.voters_of(height, label) == newp
                &&& forall|h: u64, hs: Seq<char>|
                    !(h == height && hs == label) ==> #[trigger] final(state).prepares.voters_of(
                        h,
                        hs,
                    ) == old(state).prepares.voters_of(h, hs)
                &&& (if reached_p {
                    &&& final(state).commits.voters_of(height, label) == newc
                    &&& forall|h: u64, hs: Seq<char>|
                        !(h == height && hs == label) ==> #[trigger] final(state).commits.voters_of(h, hs) == old(state).commits.voters_of(h, hs)
                } else {
                    final(state).commits == old(state).commits
                })
                &&& (if reached_c {
                    &&& final(state).height == old(state).height + 1
                    &&& final(state).prev_hash@ == label
                    &&& final(state).current_bid is None
                } else {
                    &&& final(state).height == old(state).height
                    &&& final(state).prev_hash == old(state).prev_hash
                    &&& (final(state).current_bid matches Some(cur) && cur.height == height
                        && cur.hash@ == label)
                })
                &&& out@.len() == (if proposer != me {
                    1 as int
                } else {
                    0
                }) + (if reached_p {
                    1 as int
                } else {
                    0
                })
                &&& (proposer != me ==> (out@[0] matches PbftMsg::Prepare { from, bid } && from
                    == me && bid.height == height && bid.hash@ == label))
                &&& (reached_p ==> (out@[out@.len() - 1] matches PbftMsg::Commit { from, bid }
                    && from == me && bid.height == height && bid.hash@ == label))
            },
            PbftMsg::Prepare { from, bid } => {
                let newp = old(state).prepares.voters_of(bid.height, bid.hash@).insert(from);
                &&& final(state).height == old(state).height
                &&& final(state).prev_hash == old(state).prev_hash
                &&& final(state).current_bid == old(state).current_bid
                &&& final(state).prepares.voters_of(bid.height, bid.hash@) == newp
                &&& forall|h: u64, hs: Seq<char>|
                    !(h == bid.height && hs == bid.hash@) ==> #[trigger] final(state).prepares.voters_of(h, hs) == old(state).prepares.voters_of(h, hs)
                &&& (if newp.len() >= old(state).quorum_spec() {
                    &&& final(state).commits.voters_of(bid.height, bid.hash@) == old(state).commits.voters_of(bid.height, bid.hash@).insert(old(state).node_id)
                    &&& forall|h: u64, hs: Seq<char>|
                        !(h == bid.height && hs == bid.hash@) ==> #[trigger] final(state).commits.voters_of(h, hs) == old(state).commits.voters_of(h, hs)
                    &&& out@.len() == 1
                    &&& (out@[0] matches PbftMsg::Commit { from: f, bid: b } && f == old(state).node_id && b.height == bid.height && b.hash@ == bid.hash@)
                } else {
                    &&& final(state).commits == old(state).commits
                    &&& out@.len() == 0
                })
            },
            PbftMsg::Commit { from, bid } => {
                let newc = old(state).commits.voters_of(bid.height, bid.hash@).insert(from);
                &&& final(state).prepares == old(state).prepares
                &&& final(state).commits.voters_of(bid.height, bid.hash@) == newc
                &&& forall|h: u64, hs: Seq<char>|
                    !(h == bid.height && hs == bid.hash@) ==> #[trigger] final(state).commits.voters_of(h, hs) == old(state).commits.voters_of(h, hs)
                &&& (if newc.len() >= old(state).quorum_spec() && can_finalize(*old(state), bid) {
                    &&& final(state).height == old(state).height + 1
                    &&& final(state).prev_hash == bid.hash
                    &&& final(state).current_bid is None
                } else {
                    &&& final(state).height == old(state).height
                    &&& final(state).prev_hash == old(state).prev_hash
                    &&& final(state).current_bid == old(state).current_bid
                })
                &&& out@.len() == 0
            },
        }),
{
    let me = state.node_id;
    let quorum = state.quorum_size();
    let mut out: Vec<PbftMsg> = Vec::new();
    match msg {
        PbftMsg::Proposal { height, proposer } => {
            let h = *height;
            let p = *proposer;
            let bid = BlockId { height: h, hash: bid_hash(h, p) };
            state.set_candidate(bid.clone());
            let count = state.note_prepare(&bid, me);
            if p != me {
                out.push(PbftMsg::Prepare { from: me, bid: bid.clone() });
            }
            if count >= quorum {
                let commit_count = state.note_commit(&bid, me);
                out.push(PbftMsg::Commit { from: me, bid: bid.clone() });
                if commit_count >= quorum {
                    let _finalized = state.finalize_if_current(&bid);
                }
            }
        },
        PbftMsg::Prepare { from, bid } => {
            let count = state.note_prepare(bid, *from);
            if count >= quorum {
                let _count = state.note_commit(bid, me);
                out.push(PbftMsg::Commit { from: me, bid: bid.clone() });
            }
        },
        PbftMsg::Commit { from, bid } => {
            let count = state.note_commit(bid, *from);
            if count >= quorum {
                let _finalized = state.finalize_if_current(bid);
            }
        },
    }
    out
}

/// The predicate that keeps a peer in a broadcast: everyone but self.
pub open spec fn not_self(self_id: u16) -> spec_fn(NodeConfig) -> bool {
    |p: NodeConfig| p.id != self_id
}

/// The peers a broadcast from `self_id` goes to: the roster in order, with
/// every entry whose id is `self_id` left out. Its length is the broadcast's
/// attempted count.
pub fn broadcast_targets(peers: &Vec<NodeConfig>, self_id: u16) -> (targets: Vec<NodeConfig>)
    ensures
        targets@ == peers@.filter(not_self(self_id)),
        targets@.len() <= peers@.len(),
        forall|k: int| 0 <= k < targets@.len() ==> (#[trigger] targets@[k]).id != self_id,
{
    let mut targets: Vec<NodeConfig> = Vec::new();
    let n = peers.len();
    let mut i: usize = 0;
    while i < n
        invariant
            n == peers@.len(),
            i <= n,
            targets@ == peers@.subrange(0, i as int).filter(not_self(self_id)),
        decreases n - i,
    {
        let keep = peers[i].id != self_id;
        if keep {
            targets.push(peers[i].clone());
        }
        proof {
            let pred = not_self(self_id);
            let sub1 = peers@.subrange(0, i + 1);
            assert(sub1.drop_last() =~= peers@.subrange(0, i as int));
            assert(sub1.last() == peers@[i as int]);
            reveal_with_fuel(Seq::filter, 2);
            assert(targets@ == sub1.filter(pred));
        }
        i = i + 1;
    }
    proof {
        let pred = not_self(self_id);
        assert(peers@.subrange(0, n as int) =~= peers@);
        peers@.lemma_filter_len(pred);
        assert forall|k: int| 0 <= k < targets@.len() implies (#[trigger] targets@[k]).id
            != self_id by {
            peers@.lemma_filter_pred(pred, k);
        }
    }
    targets
}

} // verus!
