use vstd::prelude::*;

use crate::account::AccountId;
use crate::engine::{spec_propose, spec_vote, DaoView, DURATION_UNIT};
use crate::error::Error;
use crate::proposal::VoteType;

verus! {

/// One `propose` request as the voting engine receives it, with the host
/// clock reading that accompanies it.
pub ghost struct ProposeRequest {
    pub to: AccountId,
    pub amount: u128,
    pub duration: u64,
    pub now: u64,
}

/// One `vote` request as the voting engine receives it, with the host clock
/// reading and the weight the balance oracle reports for the caller.
pub ghost struct VoteRequest {
    pub proposal_id: u64,
    pub vote_type: VoteType,
    pub caller: AccountId,
    pub now: u64,
    pub weight: u128,
}

/// The state and result of one `propose` call.
pub open spec fn propose_step(v: DaoView, c: ProposeRequest) -> (DaoView, Result<(), Error>) {
    spec_propose(v, c.to, c.amount, c.duration, c.now)
}

/// The state and result of one `vote` call.
pub open spec fn vote_step(v: DaoView, c: VoteRequest) -> (DaoView, Result<(), Error>) {
    spec_vote(v, c.proposal_id, c.vote_type, c.caller, c.now, c.weight)
}

/// The state after a whole sequence of `vote` calls.
pub open spec fn apply_votes(v: DaoView, calls: Seq<VoteRequest>) -> DaoView
    decreases calls.len(),
{
    if calls.len() == 0 {
        v
    } else {
        apply_votes(vote_step(v, calls[0]).0, calls.drop_first())
    }
}

/// The identifiers allocated by the successful calls of a sequence of
/// `propose` calls, in call order.
pub open spec fn allocated_ids(v: DaoView, calls: Seq<ProposeRequest>) -> Seq<u64>
    decreases calls.len(),
{
    if calls.len() == 0 {
        Seq::empty()
    } else {
        let rest = allocated_ids(propose_step(v, calls[0]).0, calls.drop_first());
        if propose_step(v, calls[0]).1 == Ok::<(), Error>(()) {
            seq![(v.store.next_proposal_id + 1) as u64] + rest
        } else {
            rest
        }
    }
}

/// The total weight folded into proposal `id` by the successful calls of a
/// sequence of `vote` calls: the sum of the distinct voters' weights at the
/// time each vote was cast.
pub open spec fn successful_weight_sum(v: DaoView, calls: Seq<VoteRequest>, id: u64) -> int
    decreases calls.len(),
{
    if calls.len() == 0 {
        0
    } else {
        (if vote_step(v, calls[0]).1 == Ok::<(), Error>(()) && calls[0].proposal_id == id {
            calls[0].weight as int
        } else {
            0
        }) + successful_weight_sum(vote_step(v, calls[0]).0, calls.drop_first(), id)
    }
}

/// A `propose` call never decreases the identifier counter, and a
/// successful one advances it by exactly one.
pub proof fn lemma_propose_step_counter(v: DaoView, c: ProposeRequest)
    ensures
        propose_step(v, c).0.store.next_proposal_id >= v.store.next_proposal_id,
        propose_step(v, c).1 == Ok::<(), Error>(()) ==> propose_step(v, c).0.store.next_proposal_id
            == v.store.next_proposal_id + 1,
{
}

/// Every identifier that a sequence of `propose` calls allocates is above
/// the counter the sequence started from.
pub proof fn lemma_allocated_ids_exceed_counter(v: DaoView, calls: Seq<ProposeRequest>)
    ensures
        forall|k: int|
            0 <= k < allocated_ids(v, calls).len() ==> #[trigger] allocated_ids(v, calls)[k]
                > v.store.next_proposal_id,
    decreases calls.len(),
{
    if calls.len() > 0 {
        let v1 = propose_step(v, calls[0]).0;
        let rest = allocated_ids(v1, calls.drop_first());
        lemma_propose_step_counter(v, calls[0]);
        lemma_allocated_ids_exceed_counter(v1, calls.drop_first());
        assert forall|k: int|
            0 <= k < allocated_ids(v, calls).len() implies #[trigger] allocated_ids(v, calls)[k]
            > v.store.next_proposal_id by {
            if propose_step(v, calls[0]).1 == Ok::<(), Error>(()) {
                if k > 0 {
                    assert(allocated_ids(v, calls)[k] == rest[k - 1]);
                }
            } else {
                assert(allocated_ids(v, calls)[k] == rest[k]);
            }
        }
    }
}

/// *Uniqueness.* Over any sequence of `propose` calls, the identifiers that
/// the successful calls allocate are strictly increasing, so no identifier
/// is ever repeated or reused.
pub proof fn lemma_proposal_ids_strictly_increasing(v: DaoView, calls: Seq<ProposeRequest>)
    ensures
        forall|i: int, j: int|
            0 <= i < j < allocated_ids(v, calls).len() ==> #[trigger] allocated_ids(v, calls)[i]
                < #[trigger] allocated_ids(v, calls)[j],
    decreases calls.len(),
{
    if calls.len() > 0 {
        let v1 = propose_step(v, calls[0]).0;
        let rest = allocated_ids(v1, calls.drop_first());
        lemma_propose_step_counter(v, calls[0]);
        lemma_proposal_ids_strictly_increasing(v1, calls.drop_first());
        lemma_allocated_ids_exceed_counter(v1, calls.drop_first());
        assert forall|i: int, j: int|
            0 <= i < j < allocated_ids(v, calls).len() implies #[trigger] allocated_ids(
            v,
            calls,
        )[i] < #[trigger] allocated_ids(v, calls)[j] by {
            if propose_step(v, calls[0]).1 == Ok::<(), Error>(()) {
                assert(allocated_ids(v, calls)[j] == rest[j - 1]);
                if i > 0 {
                    assert(allocated_ids(v, calls)[i] == rest[i - 1]);
                } else {
                    assert(rest[j - 1] > v1.store.next_proposal_id);
                }
            } else {
                assert(allocated_ids(v, calls)[i] == rest[i]);
                assert(allocated_ids(v, calls)[j] == rest[j]);
            }
        }
    }
}

/// A `vote` call keeps the state well formed, never touches the proposal
/// table or the counter, and keeps every tally in place.
pub proof fn lemma_vote_step_preserves_wf(v: DaoView, c: VoteRequest)
    requires
        v.wf(),
    ensures
        vote_step(v, c).0.wf(),
        vote_step(v, c).0.store.proposals == v.store.proposals,
        vote_step(v, c).0.store.tallies.len() == v.store.tallies.len(),
        vote_step(v, c).0.store.next_proposal_id == v.store.next_proposal_id,
{
    let v1 = vote_step(v, c).0;
    if vote_step(v, c).1 == Ok::<(), Error>(()) {
        assert(v1.store.records_distinct()) by {
            assert forall|i: int, j: int|
                0 <= i < j < v1.store.records.len() implies !((#[trigger] v1.store.records[i]).proposal_id
                == (#[trigger] v1.store.records[j]).proposal_id && v1.store.records[i].voter
                == v1.store.records[j].voter) by {
                if j == v1.store.records.len() - 1 {
                    assert(v1.store.records[i] == v.store.records[i]);
                    assert(!(v.store.records[i].proposal_id == c.proposal_id
                        && v.store.records[i].voter == c.caller));
                } else {
                    assert(v1.store.records[i] == v.store.records[i]);
                    assert(v1.store.records[j] == v.store.records[j]);
                }
            }
        }
    }
}

/// What one `vote` call does to one proposal's combined tally: a successful
/// vote on that proposal adds exactly the voter's weight, and any other
/// call leaves it untouched.
pub proof fn lemma_vote_step_tally(v: DaoView, c: VoteRequest, id: u64)
    requires
        v.wf(),
        v.store.has_tally(id),
    ensures
        vote_step(v, c).0.store.has_tally(id),
        vote_step(v, c).0.store.tally(id).total_yes + vote_step(v, c).0.store.tally(id).total_no
            == v.store.tally(id).total_yes + v.store.tally(id).total_no + (if vote_step(v, c).1
            == Ok::<(), Error>(()) && c.proposal_id == id {
            c.weight as int
        } else {
            0
        }),
{
}

/// Tallies only ever grow: no `vote` call decreases either side of any
/// proposal's tally — there is no vote retraction.
pub proof fn lemma_vote_step_tallies_monotone(v: DaoView, c: VoteRequest, id: u64)
    requires
        v.wf(),
        v.store.has_tally(id),
    ensures
        vote_step(v, c).0.store.tally(id).total_yes >= v.store.tally(id).total_yes,
        vote_step(v, c).0.store.tally(id).total_no >= v.store.tally(id).total_no,
{
}

/// *Conservation.* After any sequence of `vote` calls, the growth of
/// `total_yes + total_no` on a proposal equals the sum of the weights of
/// the distinct voters whose votes on it succeeded, each weight taken at
/// the time the vote was cast.
pub proof fn lemma_vote_conservation(v: DaoView, calls: Seq<VoteRequest>, id: u64)
    requires
        v.wf(),
        v.store.has_tally(id),
    ensures
        apply_votes(v, calls).store.tally(id).total_yes + apply_votes(v, calls).store.tally(
            id,
        ).total_no == v.store.tally(id).total_yes + v.store.tally(id).total_no
            + successful_weight_sum(v, calls, id),
    decreases calls.len(),
{
    if calls.len() > 0 {
        lemma_vote_step_preserves_wf(v, calls[0]);
        lemma_vote_step_tally(v, calls[0], id);
        lemma_vote_conservation(vote_step(v, calls[0]).0, calls.drop_first(), id);
    }
}

/// A successful `vote` call records the caller as having voted.
pub proof fn lemma_vote_sets_has_voted(v: DaoView, c: VoteRequest)
    requires
        vote_step(v, c).1 == Ok::<(), Error>(()),
    ensures
        vote_step(v, c).0.store.has_voted(c.proposal_id, c.caller),
{
    let records = vote_step(v, c).0.store.records;
    assert(records[records.len() - 1].proposal_id == c.proposal_id && records[records.len()
        - 1].voter == c.caller);
}

/// A vote once recorded stays recorded across any further `vote` call.
pub proof fn lemma_has_voted_persists(v: DaoView, c: VoteRequest, id: u64, voter: AccountId)
    requires
        v.store.has_voted(id, voter),
    ensures
        vote_step(v, c).0.store.has_voted(id, voter),
{
    let i = choose|i: int|
        0 <= i < v.store.records.len() && (#[trigger] v.store.records[i]).proposal_id == id
            && v.store.records[i].voter == voter;
    assert(vote_step(v, c).0.store.records[i].proposal_id == id && vote_step(
        v,
        c,
    ).0.store.records[i].voter == voter);
}

/// *Idempotent rejection.* After an account's vote on a proposal succeeds,
/// a second `vote` call by the same account on the same proposal always
/// fails and changes nothing — in particular the tallies stay as they
/// were. While the voting window is still open the failure is
/// `AlreadyVoted`; once it has closed, the expiry check fires first.
pub proof fn lemma_vote_idempotent_rejection(v: DaoView, first: VoteRequest, second: VoteRequest)
    requires
        v.wf(),
        vote_step(v, first).1 == Ok::<(), Error>(()),
        second.proposal_id == first.proposal_id,
        second.caller == first.caller,
    ensures
        vote_step(vote_step(v, first).0, second).0 == vote_step(v, first).0,
        second.now < v.store.proposal(first.proposal_id).end ==> vote_step(
            vote_step(v, first).0,
            second,
        ).1 == Err::<(), Error>(Error::AlreadyVoted),
        second.now >= v.store.proposal(first.proposal_id).end ==> vote_step(
            vote_step(v, first).0,
            second,
        ).1 == Err::<(), Error>(Error::ProposalExpired),
{
    lemma_vote_sets_has_voted(v, first);
}

/// *Boundary.* With every other precondition met, voting exactly when the
/// window closes (`now == end`) fails with `ProposalExpired`, while voting
/// one tick earlier (`now == end - 1`) succeeds.
pub proof fn lemma_vote_boundary(
    v: DaoView,
    proposal_id: u64,
    vote_type: VoteType,
    caller: AccountId,
    weight: u128,
)
    requires
        v.wf(),
        v.store.has_proposal(proposal_id),
        !v.store.proposal(proposal_id).executed,
        !v.store.has_voted(proposal_id, caller),
        weight > 0,
        v.store.tally(proposal_id).total_yes + weight <= u128::MAX,
        v.store.tally(proposal_id).total_no + weight <= u128::MAX,
    ensures
        spec_vote(v, proposal_id, vote_type, caller, v.store.proposal(proposal_id).end, weight).1
            == Err::<(), Error>(Error::ProposalExpired),
        spec_vote(
            v,
            proposal_id,
            vote_type,
            caller,
            (v.store.proposal(proposal_id).end - 1) as u64,
            weight,
        ).1 == Ok::<(), Error>(()),
{
}

/// *Amount bound.* With a positive duration, a clock value whose voting
/// window fits the timestamp and a counter that has room, proposing exactly
/// the treasury balance succeeds, while proposing one more than the
/// treasury balance fails with `InvalidProposalAmount`. The treasury must
/// hold something: a zero amount is rejected as invalid.
pub proof fn lemma_propose_amount_bound(v: DaoView, to: AccountId, duration: u64, now: u64)
    requires
        v.wf(),
        v.treasury > 0,
        duration > 0,
        now + duration * DURATION_UNIT <= u64::MAX,
        v.store.next_proposal_id < u64::MAX,
    ensures
        spec_propose(v, to, v.treasury, duration, now).1 == Ok::<(), Error>(()),
        v.treasury < u128::MAX ==> spec_propose(v, to, (v.treasury + 1) as u128, duration, now).1
            == Err::<(), Error>(Error::InvalidProposalAmount),
{
}

} // verus!
