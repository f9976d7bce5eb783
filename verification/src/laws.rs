//! Protocol laws: proofs that the engine's transitions keep the promises
//! the protocol rests on — the latest proposal tracks the greatest ballot,
//! votes count once per acceptor, and deciding a round is idempotent.

use vstd::prelude::*;
use vstd::set::axiom_set_insert_len;

use crate::message::{AcceptPhaseBody, PreparePhaseBody};
use crate::proposer::{
    accept_event, accept_step, prepare_step, Phase, ProposerView,
};

verus! {

/// The greatest of `bound` and every ballot the responses carry.
pub open spec fn greatest_observed_id(responses: Seq<PreparePhaseBody>, bound: u128) -> u128
    decreases responses.len(),
{
    if responses.len() == 0 {
        bound
    } else {
        let rest = greatest_observed_id(responses.drop_last(), bound);
        if responses.last().proposal_id.0 > rest {
            responses.last().proposal_id.0
        } else {
            rest
        }
    }
}

/// The engine state after tallying a whole sequence of prepare responses,
/// in arrival order.
pub open spec fn prepare_fold(s: ProposerView, responses: Seq<PreparePhaseBody>) -> ProposerView
    decreases responses.len(),
{
    if responses.len() == 0 {
        s
    } else {
        prepare_step(prepare_fold(s, responses.drop_last()), responses.last())
    }
}

/// Law: over any sequence of prepare responses whose ballots are all
/// recorded in history, the latest proposal always holds the greatest
/// ballot observed so far, bound to exactly the value history records for
/// it — never an older ballot's value. `l0` is the latest proposal at the
/// start, already bound in history.
pub proof fn lemma_latest_tracks_greatest_ballot(
    s: ProposerView,
    l0: (u128, u64),
    responses: Seq<PreparePhaseBody>,
)
    requires
        s.latest == Some(l0),
        s.history.contains_key(l0.0),
        s.history[l0.0] == l0.1,
        forall|i: int|
            0 <= i < responses.len() ==> s.history.contains_key(
                #[trigger] responses[i].proposal_id.0,
            ),
    ensures
        ({
            let t = prepare_fold(s, responses);
            let g = greatest_observed_id(responses, l0.0);
            &&& t.history == s.history
            &&& t.latest == Some((g, s.history[g]))
        }),
    decreases responses.len(),
{
    if responses.len() > 0 {
        let front = responses.drop_last();
        assert forall|i: int|
            0 <= i < front.len() implies s.history.contains_key(
            #[trigger] front[i].proposal_id.0,
        ) by {
            assert(front[i] == responses[i]);
        }
        lemma_latest_tracks_greatest_ballot(s, l0, front);
        assert(s.history.contains_key(responses.last().proposal_id.0));
    }
}

/// Law: a vote counts once. A repeated prepare response from the same
/// acceptor leaves the prepared tally exactly as it was, and one response
/// grows the tally by at most one.
pub proof fn lemma_duplicate_prepare_counts_once(
    s: ProposerView,
    first: PreparePhaseBody,
    second: PreparePhaseBody,
)
    requires
        second.issuer_id == first.issuer_id,
        s.prepared.finite(),
    ensures
        prepare_step(prepare_step(s, first), second).prepared == prepare_step(s, first).prepared,
        prepare_step(s, first).prepared.len() <= s.prepared.len() + 1,
{
    assert(s.prepared.insert(first.issuer_id).insert(second.issuer_id) =~= s.prepared.insert(
        first.issuer_id,
    ));
    axiom_set_insert_len(s.prepared, first.issuer_id);
}

/// Law: a vote counts once, in the accept phase as well. A repeated accept
/// response from the same acceptor leaves the accepted tally exactly as it
/// was, and one response grows the tally by at most one.
pub proof fn lemma_duplicate_accept_counts_once(
    s: ProposerView,
    first: AcceptPhaseBody,
    second: AcceptPhaseBody,
    acceptor_count: nat,
)
    requires
        second.issuer_id == first.issuer_id,
        s.accepted.finite(),
    ensures
        accept_step(accept_step(s, first, acceptor_count), second, acceptor_count).accepted
            == accept_step(s, first, acceptor_count).accepted,
        accept_step(s, first, acceptor_count).accepted.len() <= s.accepted.len() + 1,
{
    assert(s.accepted.insert(first.issuer_id).insert(second.issuer_id) =~= s.accepted.insert(
        first.issuer_id,
    ));
    axiom_set_insert_len(s.accepted, first.issuer_id);
}

/// Law: the round is decided by an accept response if and only if the
/// accepted tally, with that responder recorded, strictly exceeds half the
/// acceptor count while the engine is accepting — or the round was decided
/// already. Exactly half is never a majority.
pub proof fn lemma_decided_iff_strict_majority(
    s: ProposerView,
    body: AcceptPhaseBody,
    acceptor_count: nat,
)
    ensures
        accept_step(s, body, acceptor_count).phase == Phase::Decided <==> (s.phase
            == Phase::Decided || (s.phase == Phase::Accepting && s.accepted.insert(
            body.issuer_id,
        ).len() > acceptor_count / 2)),
{
}

/// Law: re-delivering the same accept response changes nothing — the state
/// is exactly what it already was, so neither whether nor when quorum is
/// declared moves — and the consensus event never fires a second time.
pub proof fn lemma_accept_redelivery_idempotent(
    s: ProposerView,
    body: AcceptPhaseBody,
    acceptor_count: nat,
)
    ensures
        accept_step(accept_step(s, body, acceptor_count), body, acceptor_count) == accept_step(
            s,
            body,
            acceptor_count,
        ),
        accept_event(accept_step(s, body, acceptor_count), body, acceptor_count) is None,
{
    let t = accept_step(s, body, acceptor_count);
    assert(t.accepted.insert(body.issuer_id) =~= t.accepted);
    assert(accept_step(t, body, acceptor_count) =~= t);
}

} // verus!
