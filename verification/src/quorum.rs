//! Quorum: tracking which acceptors voted, and the strict-majority test.

use vstd::prelude::*;

verus! {

/// A strict majority: the votes strictly exceed half of the acceptors
/// (integer division). Exactly half is not a majority.
pub open spec fn spec_quorum(votes: nat, acceptor_count: nat) -> bool {
    votes > acceptor_count / 2
}

/// Quorum holds if and only if `votes` strictly exceeds half of
/// `acceptor_count`: two votes out of four acceptors are no majority,
/// three are.
pub fn quorum_reached(votes: usize, acceptor_count: usize) -> (r: bool)
    ensures
        r == spec_quorum(votes as nat, acceptor_count as nat),
{
    votes > acceptor_count / 2
}

/// The set of acceptor nodes that replied in one phase of a round.
/// Membership is idempotent: recording the same node again changes nothing,
/// so a repeated reply never inflates the vote count.
pub struct NodeSet {
    items: Vec<u64>,
}

impl View for NodeSet {
    type V = Set<u64>;

    closed spec fn view(&self) -> Set<u64> {
        self.items@.to_set()
    }
}

impl NodeSet {
    /// The internal invariant: each node is listed at most once.
    pub closed spec fn wf(&self) -> bool {
        self.items@.no_duplicates()
    }

    pub fn new() -> (r: NodeSet)
        ensures
            r.wf(),
            r@ == Set::<u64>::empty(),
    {
        let r = NodeSet { items: Vec::new() };
        proof {
            assert(r.items@.to_set() =~= Set::<u64>::empty());
        }
        r
    }

    pub fn contains(&self, node: u64) -> (r: bool)
        requires
            self.wf(),
        ensures
            r == self@.contains(node),
    {
        let n = self.items.len();
        let mut i: usize = 0;
        while i < n
            invariant
                n == self.items.len(),
                0 <= i <= n,
                forall|j: int| 0 <= j < i ==> self.items@[j] != node,
            decreases n - i,
        {
            if self.items[i] == node {
                proof {
                    assert(self.items@.contains(node));
                }
                return true;
            }
            i = i + 1;
        }
        proof {
            assert(!self.items@.contains(node));
        }
        false
    }

    /// Record that `node` voted. A node already recorded is not recorded
    /// twice.
    pub fn insert(&mut self, node: u64)
        requires
            old(self).wf(),
        ensures
            final(self).wf(),
            final(self)@ == old(self)@.insert(node),
    {
        if !self.contains(node) {
            self.items.push(node);
            proof {
                old(self).items@.lemma_push_to_set_commute(node);
            }
        } else {
            proof {
                assert(old(self)@.insert(node) =~= old(self)@);
            }
        }
    }

    /// How many distinct nodes voted.
    pub fn len(&self) -> (r: usize)
        requires
            self.wf(),
        ensures
            r == self@.len(),
    {
        proof {
            self.items@.unique_seq_to_set();
        }
        self.items.len()
    }
}

} // verus!
