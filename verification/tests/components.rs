//! Unit tests for the leaf components: ballot identifiers, the proposal
//! history, the quorum test, and the vote-tracking set.

use paxos::id::ProposalId;
use paxos::proposal::{Proposal, ProposalHistory};
use paxos::quorum::{quorum_reached, NodeSet};

#[test]
fn proposal_ids_order_by_value() {
    assert!(ProposalId(2).is_after(&ProposalId(1)));
    assert!(!ProposalId(1).is_after(&ProposalId(2)));
    assert!(!ProposalId(1).is_after(&ProposalId(1)));
    assert_eq!(ProposalId(5), ProposalId(5));
    assert_ne!(ProposalId(5), ProposalId(6));
}

#[test]
fn proposal_new_binds_id_and_value() {
    let proposal = Proposal::new(42, ProposalId(10));
    assert_eq!(proposal, Proposal { id: ProposalId(10), value: 42 });
}

#[test]
fn history_records_and_looks_up() {
    let mut history = ProposalHistory::new();
    assert_eq!(history.lookup(ProposalId(10)), None);

    history.record(ProposalId(10), 42);
    assert_eq!(history.lookup(ProposalId(10)), Some(42));
    assert_eq!(history.lookup(ProposalId(11)), None);

    history.record(ProposalId(11), 7);
    assert_eq!(history.lookup(ProposalId(10)), Some(42));
    assert_eq!(history.lookup(ProposalId(11)), Some(7));
}

#[test]
fn history_never_overwrites_a_recorded_value() {
    let mut history = ProposalHistory::new();
    history.record(ProposalId(10), 42);
    history.record(ProposalId(10), 99);
    assert_eq!(history.lookup(ProposalId(10)), Some(42));
}

#[test]
fn quorum_is_a_strict_majority() {
    // exactly half must not count as a majority
    assert!(!quorum_reached(2, 4));
    assert!(quorum_reached(3, 4));
    assert!(!quorum_reached(1, 3));
    assert!(quorum_reached(2, 3));
    assert!(!quorum_reached(0, 1));
    assert!(quorum_reached(1, 1));
    assert!(!quorum_reached(0, 0));
}

#[test]
fn node_set_membership_is_idempotent() {
    let mut nodes = NodeSet::new();
    assert_eq!(nodes.len(), 0);
    assert!(!nodes.contains(5));

    nodes.insert(5);
    assert_eq!(nodes.len(), 1);
    assert!(nodes.contains(5));

    nodes.insert(5);
    assert_eq!(nodes.len(), 1);

    nodes.insert(6);
    assert_eq!(nodes.len(), 2);
    assert!(nodes.contains(6));
    assert!(!nodes.contains(7));
}

#[test]
fn generated_ballots_are_distinct_and_time_ordered() {
    let (tx, _rx) = tokio::sync::broadcast::channel::<paxos::message::Message>(16);
    let mut proposer = paxos::proposer::Proposer::new(tx);
    assert_eq!(proposer.send_prepare_request(1), Ok(()));
    let first = proposer.latest_proposal.unwrap().id;
    assert_eq!(proposer.send_prepare_request(2), Ok(()));
    let second = proposer.latest_proposal.unwrap().id;
    assert_ne!(first, second);
    assert!(second.is_after(&first));
}
