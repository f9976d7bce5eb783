//! Proposals and the append-only history binding each ballot to its value.

use vstd::prelude::*;

use crate::id::ProposalId;

verus! {

/// A ballot bound to the value it carries: the pair the proposer currently
/// believes is the leading candidate.
#[derive(Clone, Copy, Debug, PartialEq, Eq, Structural)]
pub struct Proposal {
    pub id: ProposalId,
    pub value: u64,
}

impl Proposal {
    pub fn new(value: u64, id: ProposalId) -> (r: Proposal)
        ensures
            r == (Proposal { id, value }),
    {
        Proposal { id, value }
    }
}

/// The mathematical content of a sequence of (ballot, value) entries: the
/// map sending each recorded ballot identifier to its value.
pub open spec fn map_of_entries(s: Seq<(u128, u64)>) -> Map<u128, u64>
    decreases s.len(),
{
    if s.len() == 0 {
        Map::empty()
    } else {
        map_of_entries(s.drop_last()).insert(s.last().0, s.last().1)
    }
}

/// No two entries carry the same ballot identifier.
pub open spec fn distinct_keys(s: Seq<(u128, u64)>) -> bool {
    forall|i: int, j: int| 0 <= i < j < s.len() ==> s[i].0 != s[j].0
}

proof fn lemma_map_contains_iff_index(s: Seq<(u128, u64)>, k: u128)
    ensures
        map_of_entries(s).contains_key(k) <==> (exists|i: int|
            0 <= i < s.len() && #[trigger] s[i].0 == k),
    decreases s.len(),
{
    if s.len() > 0 {
        lemma_map_contains_iff_index(s.drop_last(), k);
        if s.last().0 == k {
            assert(s[s.len() - 1].0 == k);
        } else if map_of_entries(s).contains_key(k) {
            let i = choose|i: int| 0 <= i < s.drop_last().len() && #[trigger] s.drop_last()[i].0 == k;
            assert(s[i].0 == k);
        } else if exists|i: int| 0 <= i < s.len() && #[trigger] s[i].0 == k {
            let i = choose|i: int| 0 <= i < s.len() && #[trigger] s[i].0 == k;
            assert(s.drop_last()[i].0 == k);
        }
    }
}

proof fn lemma_map_value_at_index(s: Seq<(u128, u64)>, i: int)
    requires
        distinct_keys(s),
        0 <= i < s.len(),
    ensures
        map_of_entries(s).contains_key(s[i].0),
        map_of_entries(s)[s[i].0] == s[i].1,
    decreases s.len(),
{
    if i == s.len() - 1 {
    } else {
        assert(distinct_keys(s.drop_last()));
        lemma_map_value_at_index(s.drop_last(), i);
        assert(s.drop_last()[i] == s[i]);
        assert(s[i].0 != s.last().0);
    }
}

/// Append-only store binding each ballot identifier ever issued or learned
/// to the value proposed under it. Recording again under an identifier that
/// is already present leaves the first binding in place: a ballot's value is
/// never overwritten.
pub struct ProposalHistory {
    entries: Vec<(u128, u64)>,
}

impl View for ProposalHistory {
    type V = Map<u128, u64>;

    closed spec fn view(&self) -> Map<u128, u64> {
        map_of_entries(self.entries@)
    }
}

impl ProposalHistory {
    /// The internal invariant: entries carry pairwise distinct ballots.
    pub closed spec fn wf(&self) -> bool {
        distinct_keys(self.entries@)
    }

    pub fn new() -> (r: ProposalHistory)
        ensures
            r.wf(),
            r@ == Map::<u128, u64>::empty(),
    {
        ProposalHistory { entries: Vec::new() }
    }

    /// The value recorded under `id`, or `None` when the ballot was never
    /// recorded.
    pub fn lookup(&self, id: ProposalId) -> (r: Option<u64>)
        requires
            self.wf(),
        ensures
            self@.contains_key(id.0) ==> r == Some(self@[id.0]),
            !self@.contains_key(id.0) ==> r is None,
    {
        let n = self.entries.len();
        let mut i: usize = 0;
        while i < n
            invariant
                n == self.entries.len(),
                0 <= i <= n,
                self.wf(),
                forall|j: int| 0 <= j < i ==> self.entries@[j].0 != id.0,
            decreases n - i,
        {
            if self.entries[i].0 == id.0 {
                proof {
                    lemma_map_value_at_index(self.entries@, i as int);
                }
                return Some(self.entries[i].1);
            }
            i = i + 1;
        }
        proof {
            lemma_map_contains_iff_index(self.entries@, id.0);
        }
        None
    }

    /// Record `value` under `id` unless some value is already recorded
    /// there: insert-if-absent, so the history stays append-only.
    pub fn record(&mut self, id: ProposalId, value: u64)
        requires
            old(self).wf(),
        ensures
            final(self).wf(),
            old(self)@.contains_key(id.0) ==> final(self)@ == old(self)@,
            !old(self)@.contains_key(id.0) ==> final(self)@ == old(self)@.insert(id.0, value),
    {
        match self.lookup(id) {
            Some(_) => {},
            None => {
                proof {
                    lemma_map_contains_iff_index(self.entries@, id.0);
                }
                self.entries.push((id.0, value));
                proof {
                    assert(self.entries@.drop_last() =~= old(self).entries@);
                }
            },
        }
    }
}

} // verus!
