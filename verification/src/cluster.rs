//! Cluster membership: the immutable roster of replicas.

use vstd::prelude::*;

verus! {

/// One replica's entry in the roster: its id and network address.
#[derive(Debug)]
pub struct NodeConfig {
    pub id: u16,
    pub host: String,
    pub port: u16,
}

impl Clone for NodeConfig {
    fn clone(&self) -> (r: Self)
        ensures
            r == *self,
    {
        NodeConfig { id: self.id, host: self.host.clone(), port: self.port }
    }
}

/// The whole cluster: every replica, self included.
#[derive(Debug)]
pub struct ClusterConfig {
    pub nodes: Vec<NodeConfig>,
}

impl Clone for ClusterConfig {
    fn clone(&self) -> (r: Self)
        ensures
            r.nodes@ == self.nodes@,
    {
        let mut nodes: Vec<NodeConfig> = Vec::new();
        let n = self.nodes.len();
        let mut i: usize = 0;
        while i < n
            invariant
                n == self.nodes@.len(),
                i <= n,
                nodes@ == self.nodes@.subrange(0, i as int),
            decreases n - i,
        {
            nodes.push(self.nodes[i].clone());
            proof {
                assert(nodes@ =~= self.nodes@.subrange(0, i + 1));
            }
            i = i + 1;
        }
        proof {
            assert(nodes@ =~= self.nodes@);
        }
        ClusterConfig { nodes }
    }
}

/// The ids carried by a roster.
pub open spec fn peer_ids(peers: Seq<NodeConfig>) -> Set<u16> {
    peers.map_values(|p: NodeConfig| p.id).to_set()
}

} // verus!
