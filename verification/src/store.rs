use vstd::prelude::*;

use crate::account::AccountId;
use crate::error::Error;
use crate::proposal::{Proposal, ProposalVotes, VoteRecord};

verus! {

/// The mathematical image of a [`ProposalStore`]: the proposal table, the
/// tally table, the vote records and the identifier counter.
///
/// Identifiers are dense and start at 1: proposal `id` sits at index
/// `id - 1` of `proposals`, and its tally at the same index of `tallies`.
#[verifier::ext_equal]
pub ghost struct StoreView {
    pub proposals: Seq<Proposal>,
    pub tallies: Seq<ProposalVotes>,
    pub records: Seq<VoteRecord>,
    pub next_proposal_id: u64,
}

impl StoreView {
    /// Whether a proposal exists under `id`.
    pub open spec fn has_proposal(self, id: u64) -> bool {
        1 <= id <= self.proposals.len()
    }

    /// The proposal stored under `id`; meaningful when `has_proposal(id)`.
    pub open spec fn proposal(self, id: u64) -> Proposal {
        self.proposals[id - 1]
    }

    /// Whether a tally exists under `id`.
    pub open spec fn has_tally(self, id: u64) -> bool {
        1 <= id <= self.tallies.len()
    }

    /// The tally stored under `id`; meaningful when `has_tally(id)`.
    pub open spec fn tally(self, id: u64) -> ProposalVotes {
        self.tallies[id - 1]
    }

    /// Whether `voter` has already cast a vote on proposal `id`.
    pub open spec fn has_voted(self, id: u64, voter: AccountId) -> bool {
        exists|i: int|
            0 <= i < self.records.len() && (#[trigger] self.records[i]).proposal_id == id
                && self.records[i].voter == voter
    }

    /// At most one vote record per (proposal, voter) pair.
    pub open spec fn records_distinct(self) -> bool {
        forall|i: int, j: int|
            0 <= i < j < self.records.len() ==> !((#[trigger] self.records[i]).proposal_id
                == (#[trigger] self.records[j]).proposal_id && self.records[i].voter
                == self.records[j].voter)
    }

    /// The store at rest: every proposal has a tally, the counter equals the
    /// number of proposals ever created, vote records are unique and refer to
    /// existing proposals.
    pub open spec fn wf(self) -> bool {
        &&& self.tallies.len() == self.proposals.len()
        &&& self.next_proposal_id as int == self.proposals.len() as int
        &&& self.records_distinct()
        &&& forall|i: int|
            0 <= i < self.records.len() ==> self.has_proposal(
                (#[trigger] self.records[i]).proposal_id,
            )
    }
}

/// Durable keyed storage for proposals, tallies and vote records, plus
/// identifier allocation. The store performs no validation of its own: the
/// voting engine owns the business invariants and the store's contracts only
/// describe which table each operation touches.
pub struct ProposalStore {
    proposals: Vec<Proposal>,
    tallies: Vec<ProposalVotes>,
    records: Vec<VoteRecord>,
    next_proposal_id: u64,
}

impl View for ProposalStore {
    type V = StoreView;

    closed spec fn view(&self) -> StoreView {
        StoreView {
            proposals: self.proposals@,
            tallies: self.tallies@,
            records: self.records@,
            next_proposal_id: self.next_proposal_id,
        }
    }
}

impl ProposalStore {
    /// An empty store; the first allocated identifier will be 1.
    pub fn new() -> (s: Self)
        ensures
            s@ == (StoreView {
                proposals: Seq::empty(),
                tallies: Seq::empty(),
                records: Seq::empty(),
                next_proposal_id: 0,
            }),
            s@.wf(),
    {
        ProposalStore {
            proposals: Vec::new(),
            tallies: Vec::new(),
            records: Vec::new(),
            next_proposal_id: 0,
        }
    }

    /// Returns the next unused identifier and advances the counter, or fails
    /// with `ArithmeticOverflow` when the counter would wrap; the counter
    /// advances only on success.
    pub fn allocate_id(&mut self) -> (r: Result<u64, Error>)
        ensures
            old(self)@.next_proposal_id < u64::MAX ==> {
                &&& r == Ok::<u64, Error>((old(self)@.next_proposal_id + 1) as u64)
                &&& final(self)@ == (StoreView {
                    next_proposal_id: (old(self)@.next_proposal_id + 1) as u64,
                    ..old(self)@
                })
            },
            old(self)@.next_proposal_id == u64::MAX ==> {
                &&& r == Err::<u64, Error>(Error::ArithmeticOverflow)
                &&& final(self)@ == old(self)@
            },
    {
        match self.next_proposal_id.checked_add(1) {
            Some(id) => {
                self.next_proposal_id = id;
                Ok(id)
            },
            None => Err(Error::ArithmeticOverflow),
        }
    }

    /// Writes a freshly created proposal under the identifier that
    /// `allocate_id` just handed out. Only the voting engine calls this, at
    /// creation time.
    pub fn put_proposal(&mut self, id: u64, proposal: Proposal)
        requires
            old(self)@.next_proposal_id as int == old(self)@.proposals.len() + 1,
            id == old(self)@.next_proposal_id,
        ensures
            final(self)@ == (StoreView { proposals: old(self)@.proposals.push(proposal), ..old(self)@ }),
    {
        self.proposals.push(proposal);
    }

    /// Writes a tally: at creation time (the identifier one past the tally
    /// table) or to fold a vote into an existing tally.
    pub fn put_votes(&mut self, id: u64, votes: ProposalVotes)
        requires
            1 <= id,
            id as int <= old(self)@.tallies.len() + 1,
            id as int <= old(self)@.proposals.len() as int,
        ensures
            id as int <= old(self)@.tallies.len() ==> final(self)@ == (StoreView {
                tallies: old(self)@.tallies.update(id - 1, votes),
                ..old(self)@
            }),
            id as int == old(self)@.tallies.len() + 1 ==> final(self)@ == (StoreView {
                tallies: old(self)@.tallies.push(votes),
                ..old(self)@
            }),
    {
        let idx = (id - 1) as usize;
        if idx < self.tallies.len() {
            self.tallies[idx] = votes;
        } else {
            self.tallies.push(votes);
        }
    }

    /// Pure read of the proposal table.
    pub fn get_proposal(&self, id: u64) -> (r: Result<Proposal, Error>)
        ensures
            self@.has_proposal(id) ==> r == Ok::<Proposal, Error>(self@.proposal(id)),
            !self@.has_proposal(id) ==> r == Err::<Proposal, Error>(Error::ProposalNotFound),
    {
        if 1 <= id && id <= self.proposals.len() as u64 {
            Ok(self.proposals[(id - 1) as usize])
        } else {
            Err(Error::ProposalNotFound)
        }
    }

    /// Pure read of the tally table.
    pub fn get_votes(&self, id: u64) -> (r: Result<ProposalVotes, Error>)
        ensures
            self@.has_tally(id) ==> r == Ok::<ProposalVotes, Error>(self@.tally(id)),
            !self@.has_tally(id) ==> r == Err::<ProposalVotes, Error>(Error::ProposalNotFound),
    {
        if 1 <= id && id <= self.tallies.len() as u64 {
            Ok(self.tallies[(id - 1) as usize])
        } else {
            Err(Error::ProposalNotFound)
        }
    }

    /// Existence check on the vote records.
    pub fn has_voted(&self, id: u64, voter: AccountId) -> (r: bool)
        ensures
            r == self@.has_voted(id, voter),
    {
        let n = self.records.len();
        let mut i: usize = 0;
        while i < n
            invariant
                n == self.records.len(),
                i <= n,
                forall|j: int|
                    0 <= j < i ==> !((#[trigger] self.records@[j]).proposal_id == id
                        && self.records@[j].voter == voter),
            decreases n - i,
        {
            let rec = self.records[i];
            if rec.proposal_id == id && rec.voter == voter {
                proof {
                    assert(self@.records[i as int].proposal_id == id
                        && self@.records[i as int].voter == voter);
                    assert(self@.has_voted(id, voter));
                }
                return true;
            }
            i = i + 1;
        }
        false
    }

    /// Inserts a vote record. The caller must already have checked
    /// `has_voted`: the store does not re-check, the voting engine owns the
    /// uniqueness invariant.
    pub fn record_vote(&mut self, id: u64, voter: AccountId)
        requires
            !old(self)@.has_voted(id, voter),
        ensures
            final(self)@ == (StoreView {
                records: old(self)@.records.push(VoteRecord { proposal_id: id, voter }),
                ..old(self)@
            }),
    {
        self.records.push(VoteRecord { proposal_id: id, voter });
    }
}

} // verus!
