//! The vote ledger: per-height, per-block tallies of voter ids for one
//! phase (Prepare or Commit), with idempotent insertion.
//!
//! Each `(height, hash)` key owns one cell whose voter vector is free of
//! duplicates, so the vector's length is the cardinality of the recorded
//! voter set.

use vstd::prelude::*;
use vstd::seq_lib::seq_to_set_is_finite;
use vstd::set_lib::lemma_len_subset;
use crate::cluster::{peer_ids, NodeConfig};
use crate::types::BlockId;

verus! {

/// One tally cell: every voter id seen so far for one (height, hash) key.
#[derive(Debug)]
pub struct VoteCell {
    pub height: u64,
    pub hash: String,
    pub voters: Vec<u16>,
}

/// Whether `c` is the cell for key `(h, hash)`.
pub open spec fn cell_has_key(c: VoteCell, h: u64, hash: Seq<char>) -> bool {
    c.height == h && c.hash@ == hash
}

/// All tallies of one phase.
#[derive(Debug)]
pub struct VoteLedger {
    pub cells: Vec<VoteCell>,
}

impl VoteLedger {
    /// Well-formed: at most one cell per key, and no voter listed twice
    /// within a cell.
    pub open spec fn wf(self) -> bool {
        &&& forall|i: int, j: int|
            #![trigger self.cells@[i], self.cells@[j]]
            0 <= i < self.cells@.len() && 0 <= j < self.cells@.len() && i != j ==> !(
            self.cells@[i].height == self.cells@[j].height && self.cells@[i].hash@
                == self.cells@[j].hash@)
        &&& forall|i: int|
            0 <= i < self.cells@.len() ==> (#[trigger] self.cells@[i]).voters@.no_duplicates()
    }

    /// Whether any cell carries the key `(h, hash)`.
    pub open spec fn spec_has(self, h: u64, hash: Seq<char>) -> bool {
        exists|i: int| 0 <= i < self.cells@.len() && cell_has_key(#[trigger] self.cells@[i], h, hash)
    }

    /// The set of voters recorded under `(h, hash)`; empty if no vote has
    /// been recorded there yet.
    pub open spec fn voters_of(self, h: u64, hash: Seq<char>) -> Set<u16> {
        if self.spec_has(h, hash) {
            let i = choose|i: int|
                0 <= i < self.cells@.len() && cell_has_key(#[trigger] self.cells@[i], h, hash);
            self.cells@[i].voters@.to_set()
        } else {
            Set::empty()
        }
    }

    /// In a well-formed ledger the cell at a matching index is the one
    /// `voters_of` speaks about.
    pub proof fn lemma_voters_of_at(self, i: int, h: u64, hash: Seq<char>)
        requires
            self.wf(),
            0 <= i < self.cells@.len(),
            cell_has_key(self.cells@[i], h, hash),
        ensures
            self.spec_has(h, hash),
            self.voters_of(h, hash) == self.cells@[i].voters@.to_set(),
    {
        assert(self.spec_has(h, hash));
        let j = choose|j: int|
            0 <= j < self.cells@.len() && cell_has_key(#[trigger] self.cells@[j], h, hash);
        assert(j == i);
    }

    pub fn new() -> (r: VoteLedger)
        ensures
            r.wf(),
            r.cells@.len() == 0,
            forall|h: u64, hs: Seq<char>| #[trigger] r.voters_of(h, hs) == Set::<u16>::empty(),
    {
        let r = VoteLedger { cells: Vec::new() };
        proof {
            assert forall|h: u64, hs: Seq<char>| #[trigger]
                r.voters_of(h, hs) == Set::<u16>::empty() by {
                assert(!r.spec_has(h, hs));
            }
        }
        r
    }

    /// Records that `from` voted for `bid`, idempotently, and returns the
    /// number of distinct voters now recorded for `bid`.
    pub fn note(&mut self, bid: &BlockId, from: u16) -> (count: usize)
        requires
            old(self).wf(),
        ensures
            final(self).wf(),
            final(self).voters_of(bid.height, bid.hash@) == old(self).voters_of(
                bid.height,
                bid.hash@,
            ).insert(from),
            forall|h: u64, hs: Seq<char>|
                !(h == bid.height && hs == bid.hash@) ==> #[trigger] final(self).voters_of(h, hs)
                    == old(self).voters_of(h, hs),
            count == final(self).voters_of(bid.height, bid.hash@).len(),
            old(self).voters_of(bid.height, bid.hash@).contains(from) ==> final(self).voters_of(
                bid.height,
                bid.hash@,
            ) == old(self).voters_of(bid.height, bid.hash@),
            count >= 1,
    {
        let ghost old_self = *self;
        match find_cell(&self.cells, bid.height, &bid.hash) {
            Some(i) => {
                let present = contains_voter(&self.cells[i].voters, from);
                let ghost old_voters = self.cells@[i as int].voters@;
                if !present {
                    self.cells[i].voters.push(from);
                }
                let count = self.cells[i].voters.len();
                proof {
                    let ii = i as int;
                    let new_voters = self.cells@[ii].voters@;
                    assert forall|x: u16| #[trigger]
                        new_voters.contains(x) <==> (old_voters.contains(x) || x == from) by {
                        if old_voters.contains(x) {
                            let k = choose|k: int|
                                0 <= k < old_voters.len() && old_voters[k] == x;
                            assert(new_voters[k] == x);
                        }
                        if x == from && !present {
                            assert(new_voters[old_voters.len() as int] == x);
                        }
                        if new_voters.contains(x) {
                            let k = choose|k: int|
                                0 <= k < new_voters.len() && new_voters[k] == x;
                            if k < old_voters.len() {
                                assert(old_voters[k] == x);
                            } else {
                                assert(!present);
                                assert(x == from);
                            }
                        }
                    }
                    assert(new_voters.to_set() =~= old_voters.to_set().insert(from));
                    if !present {
                        assert forall|p: int, q: int|
                            0 <= p < new_voters.len() && 0 <= q < new_voters.len() && p
                                != q implies new_voters[p] != new_voters[q] by {
                            if p < old_voters.len() && q < old_voters.len() {
                                assert(old_voters.no_duplicates());
                            } else if p == old_voters.len() as int {
                                assert(new_voters[p] == from);
                                assert(!old_voters.contains(from));
                            } else if q == old_voters.len() as int {
                                assert(new_voters[q] == from);
                                assert(!old_voters.contains(from));
                            }
                        }
                        assert(new_voters.no_duplicates());
                    }
                    assert(self.wf());
                    old_self.lemma_voters_of_at(ii, bid.height, bid.hash@);
                    self.lemma_voters_of_at(ii, bid.height, bid.hash@);
                    new_voters.unique_seq_to_set();
                    assert(final(self).voters_of(bid.height, bid.hash@) =~= old(self).voters_of(
                        bid.height,
                        bid.hash@,
                    ).insert(from));
                    assert forall|h: u64, hs: Seq<char>|
                        !(h == bid.height && hs == bid.hash@) implies #[trigger] self.voters_of(
                        h,
                        hs,
                    ) == old_self.voters_of(h, hs) by {
                        lemma_same_keys_same_voters(old_self, *self, ii, h, hs);
                    }
                }
                count
            },
            None => {
                let mut voters: Vec<u16> = Vec::new();
                voters.push(from);
                let cell = VoteCell { height: bid.height, hash: bid.hash.clone(), voters };
                self.cells.push(cell);
                proof {
                    let ii = self.cells@.len() - 1;
                    let new_voters = self.cells@[ii].voters@;
                    assert(new_voters =~= seq![from]);
                    assert(new_voters.no_duplicates());
                    assert(self.wf());
                    assert(!old_self.spec_has(bid.height, bid.hash@));
                    assert(old_self.voters_of(bid.height, bid.hash@) =~= Set::<u16>::empty());
                    self.lemma_voters_of_at(ii, bid.height, bid.hash@);
                    assert forall|x: u16| #[trigger]
                        new_voters.contains(x) <==> x == from by {
                        if new_voters.contains(x) {
                            let k = choose|k: int|
                                0 <= k < new_voters.len() && new_voters[k] == x;
                            assert(k == 0);
                        }
                        if x == from {
                            assert(new_voters[0] == x);
                        }
                    }
                    assert(new_voters.to_set() =~= Set::<u16>::empty().insert(from));
                    new_voters.unique_seq_to_set();
                    assert forall|h: u64, hs: Seq<char>|
                        !(h == bid.height && hs == bid.hash@) implies #[trigger] self.voters_of(
                        h,
                        hs,
                    ) == old_self.voters_of(h, hs) by {
                        lemma_push_keeps_other_voters(old_self, *self, h, hs);
                    }
                }
                1
            },
        }
    }
}

/// Helper for `note`: an update at index `i` leaves every other key's tally
/// as it was, as long as the keys of all cells are unchanged.
proof fn lemma_same_keys_same_voters(
    a: VoteLedger,
    b: VoteLedger,
    i: int,
    h: u64,
    hs: Seq<char>,
)
    requires
        a.wf(),
        b.wf(),
        a.cells@.len() == b.cells@.len(),
        0 <= i < a.cells@.len(),
        forall|j: int| 0 <= j < a.cells@.len() && j != i ==> a.cells@[j] == b.cells@[j],
        a.cells@[i].height == b.cells@[i].height,
        a.cells@[i].hash@ == b.cells@[i].hash@,
        !cell_has_key(a.cells@[i], h, hs),
    ensures
        b.voters_of(h, hs) == a.voters_of(h, hs),
{
    if a.spec_has(h, hs) {
        let j = choose|j: int| 0 <= j < a.cells@.len() && cell_has_key(#[trigger] a.cells@[j], h, hs);
        assert(j != i);
        assert(cell_has_key(b.cells@[j], h, hs));
        a.lemma_voters_of_at(j, h, hs);
        b.lemma_voters_of_at(j, h, hs);
    } else {
        assert(!b.spec_has(h, hs)) by {
            if b.spec_has(h, hs) {
                let j = choose|j: int|
                    0 <= j < b.cells@.len() && cell_has_key(#[trigger] b.cells@[j], h, hs);
                assert(j != i);
                assert(cell_has_key(a.cells@[j], h, hs));
            }
        }
        assert(a.voters_of(h, hs) =~= b.voters_of(h, hs));
    }
}

/// Helper for `note`: pushing a cell with a fresh key leaves every other
/// key's tally as it was.
proof fn lemma_push_keeps_other_voters(a: VoteLedger, b: VoteLedger, h: u64, hs: Seq<char>)
    requires
        a.wf(),
        b.wf(),
        b.cells@.len() == a.cells@.len() + 1,
        forall|j: int| 0 <= j < a.cells@.len() ==> a.cells@[j] == b.cells@[j],
        !cell_has_key(b.cells@[a.cells@.len() as int], h, hs),
    ensures
        b.voters_of(h, hs) == a.voters_of(h, hs),
{
    if a.spec_has(h, hs) {
        let j = choose|j: int| 0 <= j < a.cells@.len() && cell_has_key(#[trigger] a.cells@[j], h, hs);
        assert(cell_has_key(b.cells@[j], h, hs));
        a.lemma_voters_of_at(j, h, hs);
        b.lemma_voters_of_at(j, h, hs);
    } else {
        assert(!b.spec_has(h, hs)) by {
            if b.spec_has(h, hs) {
                let j = choose|j: int|
                    0 <= j < b.cells@.len() && cell_has_key(#[trigger] b.cells@[j], h, hs);
                assert(j < a.cells@.len());
                assert(cell_has_key(a.cells@[j], h, hs));
            }
        }
        assert(a.voters_of(h, hs) =~= b.voters_of(h, hs));
    }
}

fn find_cell(cells: &Vec<VoteCell>, height: u64, hash: &String) -> (r: Option<usize>)
    ensures
        match r {
            Some(i) => i < cells@.len() && cell_has_key(cells@[i as int], height, hash@),
            None => forall|i: int|
                0 <= i < cells@.len() ==> !cell_has_key(#[trigger] cells@[i], height, hash@),
        },
{
    let n = cells.len();
    let mut i: usize = 0;
    while i < n
        invariant
            n == cells@.len(),
            i <= n,
            forall|j: int| 0 <= j < i ==> !cell_has_key(#[trigger] cells@[j], height, hash@),
        decreases n - i,
    {
        let c = &cells[i];
        if c.height == height && c.hash == *hash {
            return Some(i);
        }
        i = i + 1;
    }
    None
}

fn contains_voter(voters: &Vec<u16>, v: u16) -> (r: bool)
    ensures
        r == voters@.contains(v),
{
    let n = voters.len();
    let mut i: usize = 0;
    while i < n
        invariant
            n == voters@.len(),
            i <= n,
            forall|j: int| 0 <= j < i ==> voters@[j] != v,
        decreases n - i,
    {
        if voters[i] == v {
            return true;
        }
        i = i + 1;
    }
    false
}

/// A tally never exceeds the roster size, provided every recorded voter is
/// a roster member.
pub proof fn lemma_vote_count_bounded(
    ledger: VoteLedger,
    peers: Seq<NodeConfig>,
    h: u64,
    hash: Seq<char>,
)
    requires
        ledger.voters_of(h, hash).subset_of(peer_ids(peers)),
    ensures
        ledger.voters_of(h, hash).finite(),
        ledger.voters_of(h, hash).len() <= peers.len(),
{
    broadcast use seq_to_set_is_finite;

    let ids = peers.map_values(|p: NodeConfig| p.id);
    ids.lemma_cardinality_of_set();
    lemma_len_subset(ledger.voters_of(h, hash), peer_ids(peers));
}

} // verus!
