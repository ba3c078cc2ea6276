//! Unit-level checks of the replica state: quorum thresholds, tally
//! idempotence, finalization, and the hash labels.

use pbft_node::block_hash::{bid_hash, u64_dec_str};
use pbft_node::cluster::{ClusterConfig, NodeConfig};
use pbft_node::node::AppState;
use pbft_node::types::{Ack, BlockId, BroadcastReport, PbftMsg};

fn roster(n: u16) -> Vec<NodeConfig> {
    (1..=n)
        .map(|id| NodeConfig { id, host: "127.0.0.1".to_string(), port: 9000 + id })
        .collect()
}

#[test]
fn quorum_size_formula() {
    for (n, q) in [
        (1, 1),
        (2, 1),
        (3, 1),
        (4, 3),
        (5, 3),
        (6, 3),
        (7, 5),
        (8, 5),
        (9, 5),
        (10, 7),
    ] {
        let s = AppState::new(1, roster(n));
        assert_eq!(s.quorum_size(), q, "roster of {n}");
    }
}

#[test]
fn fresh_state() {
    let s = AppState::new(3, roster(4));
    assert_eq!(s.node_id, 3);
    assert_eq!(s.height, 1);
    assert_eq!(s.prev_hash.as_str(), "genesis");
    assert!(s.current_bid.is_none());
    assert!(s.prepares.cells.is_empty());
    assert!(s.commits.cells.is_empty());
}

#[test]
fn note_prepare_is_idempotent() {
    let mut s = AppState::new(1, roster(4));
    let bid = BlockId { height: 1, hash: "h1-p1".to_string() };
    assert_eq!(s.note_prepare(&bid, 2), 1);
    assert_eq!(s.note_prepare(&bid, 2), 1);
    assert_eq!(s.note_prepare(&bid, 3), 2);
    assert_eq!(s.note_prepare(&bid, 2), 2);
    assert_eq!(s.note_prepare(&bid, 1), 3);
}

#[test]
fn tally_of_roster_voters_stays_within_roster_size() {
    let mut s = AppState::new(1, roster(4));
    let bid = BlockId { height: 1, hash: "h1-p1".to_string() };
    for round in 0..2 {
        for voter in 1..=4 {
            let count = s.note_prepare(&bid, voter);
            assert!(count <= 4, "round {round}: tally above roster size");
        }
    }
    assert_eq!(s.note_prepare(&bid, 4), 4);
}

#[test]
fn note_commit_keeps_keys_apart() {
    let mut s = AppState::new(1, roster(4));
    let a = BlockId { height: 1, hash: "h1-p1".to_string() };
    let b = BlockId { height: 1, hash: "h1-p2".to_string() };
    let c = BlockId { height: 2, hash: "h1-p1".to_string() };
    assert_eq!(s.note_commit(&a, 1), 1);
    assert_eq!(s.note_commit(&b, 1), 1);
    assert_eq!(s.note_commit(&c, 1), 1);
    assert_eq!(s.note_commit(&a, 2), 2);
    assert_eq!(s.note_commit(&b, 1), 1);
}

#[test]
fn finalize_only_current() {
    let mut s = AppState::new(1, roster(4));
    let bid = BlockId { height: 1, hash: "h1-p1".to_string() };
    let other = BlockId { height: 1, hash: "h1-p2".to_string() };
    s.set_candidate(bid.clone());
    assert!(!s.finalize_if_current(&other));
    assert_eq!(s.height, 1);
    assert!(s.finalize_if_current(&bid));
    assert_eq!(s.height, 2);
    assert_eq!(s.prev_hash.as_str(), "h1-p1");
    assert!(s.current_bid.is_none());
    // The candidate slot is now empty: nothing can finalize again at this
    // or any other height until a new proposal arrives.
    assert!(!s.finalize_if_current(&bid));
    assert_eq!(s.height, 2);
}

#[test]
fn height_changes_only_on_finalize() {
    let mut s = AppState::new(1, roster(4));
    let bid = BlockId { height: 1, hash: "h1-p1".to_string() };
    s.note_prepare(&bid, 2);
    s.note_commit(&bid, 2);
    s.set_candidate(bid.clone());
    assert_eq!(s.height, 1);
    assert!(s.finalize_if_current(&bid));
    assert_eq!(s.height, 2);
}

#[test]
fn decimal_rendering() {
    assert_eq!(u64_dec_str(0).as_str(), "0");
    assert_eq!(u64_dec_str(7).as_str(), "7");
    assert_eq!(u64_dec_str(10).as_str(), "10");
    assert_eq!(u64_dec_str(90210).as_str(), "90210");
    assert_eq!(u64_dec_str(u64::MAX).as_str(), "18446744073709551615");
}

#[test]
fn bid_hash_label_format() {
    assert_eq!(bid_hash(1, 1).as_str(), "h1-p1");
    assert_eq!(bid_hash(12, 34).as_str(), "h12-p34");
    assert_eq!(bid_hash(1, 1), format!("h{}-p{}", 1u64, 1u16));
    assert_eq!(bid_hash(u64::MAX, u16::MAX), format!("h{}-p{}", u64::MAX, u16::MAX));
}

#[test]
fn roster_clone_and_lookup() {
    let cfg = ClusterConfig { nodes: roster(4) };
    let copy = cfg.clone();
    assert_eq!(copy.nodes.len(), 4);
    assert_eq!(copy.nodes[2].id, cfg.nodes[2].id);
    assert_eq!(copy.nodes[2].host, cfg.nodes[2].host);
    assert_eq!(copy.nodes[2].port, cfg.nodes[2].port);
}

#[test]
fn reply_bodies() {
    let ack = Ack { ok: true, node_id: 7 };
    assert_eq!(ack, Ack { ok: true, node_id: 7 });
    let report = BroadcastReport { sender_id: 1, attempted: 3, succeeded: 2 };
    assert_eq!(report.attempted, 3);
    assert_eq!(report.succeeded, 2);
}

#[test]
fn message_clone_round_trip() {
    let msg = PbftMsg::Prepare {
        from: 2,
        bid: BlockId { height: 1, hash: "h1-p1".to_string() },
    };
    match msg.clone() {
        PbftMsg::Prepare { from, bid } => {
            assert_eq!(from, 2);
            assert_eq!(bid.height, 1);
            assert_eq!(bid.hash.as_str(), "h1-p1");
        }
        _ => panic!("clone changed the variant"),
    }
}
