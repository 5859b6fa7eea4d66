use vstd::prelude::*;

use crate::account::AccountId;
use crate::error::Error;
use crate::proposal::{proposal_valid, Proposal, ProposalVotes, VoteRecord, VoteType};
use crate::store::{ProposalStore, StoreView};
use crate::token::Erc20;

verus! {

/// Scaling factor from a caller-supplied duration to the host ledger's
/// timestamp resolution: one duration unit is 60 000 timestamp ticks (one
/// minute of millisecond ticks). A proposal's voting window is
/// `duration * DURATION_UNIT` ticks long.
pub const DURATION_UNIT: u64 = 60 * 1_000;

/// The mathematical image of a [`Dao`]: the store image plus the instance
/// configuration.
#[verifier::ext_equal]
pub ghost struct DaoView {
    pub store: StoreView,
    pub governance_token: AccountId,
    pub quorum: u8,
    pub treasury: u128,
}

impl DaoView {
    /// Every stored proposal is valid and the store is at rest.
    pub open spec fn wf(self) -> bool {
        &&& self.store.wf()
        &&& forall|i: int|
            0 <= i < self.store.proposals.len() ==> proposal_valid(
                #[trigger] self.store.proposals[i],
            )
    }
}

/// What one `propose` call does: the state after the call and its result.
///
/// Validation order, first failure winning and leaving the state untouched:
/// a zero amount or one above the treasury balance, a zero duration, a
/// voting window that would overflow the timestamp, a proposal counter that
/// would wrap. On success a proposal starting at `now` and a zeroed tally
/// are appended under the freshly allocated identifier.
pub open spec fn spec_propose(
    v: DaoView,
    to: AccountId,
    amount: u128,
    duration: u64,
    now: u64,
) -> (DaoView, Result<(), Error>) {
    if amount == 0 || amount > v.treasury {
        (v, Err(Error::InvalidProposalAmount))
    } else if duration == 0 {
        (v, Err(Error::InvalidProposalDuration))
    } else if now + duration * DURATION_UNIT > u64::MAX {
        (v, Err(Error::ArithmeticOverflow))
    } else if v.store.next_proposal_id == u64::MAX {
        (v, Err(Error::ArithmeticOverflow))
    } else {
        let proposal = Proposal {
            to,
            amount,
            start: now,
            end: (now + duration * DURATION_UNIT) as u64,
            executed: false,
        };
        let next = DaoView {
            store: StoreView {
                proposals: v.store.proposals.push(proposal),
                tallies: v.store.tallies.push(ProposalVotes { total_yes: 0, total_no: 0 }),
                records: v.store.records,
                next_proposal_id: (v.store.next_proposal_id + 1) as u64,
            },
            ..v
        };
        (next, Ok(()))
    }
}

/// What one `vote` call does, given the voter's weight as the balance oracle
/// reports it: the state after the call and its result.
///
/// The checks run in order, short-circuiting on the first failure and
/// leaving the state untouched: unknown proposal, already executed, voting window closed
/// (`now >= end`), the caller has already voted, zero weight, a tally that
/// would wrap. On success the weight is folded into the chosen side of the
/// tally and the caller is recorded as having voted.
pub open spec fn spec_vote(
    v: DaoView,
    proposal_id: u64,
    vote_type: VoteType,
    caller: AccountId,
    now: u64,
    weight: u128,
) -> (DaoView, Result<(), Error>) {
    if !v.store.has_proposal(proposal_id) {
        (v, Err(Error::ProposalNotFound))
    } else if v.store.proposal(proposal_id).executed {
        (v, Err(Error::ProposalExecuted))
    } else if now >= v.store.proposal(proposal_id).end {
        (v, Err(Error::ProposalExpired))
    } else if v.store.has_voted(proposal_id, caller) {
        (v, Err(Error::AlreadyVoted))
    } else if weight == 0 {
        (v, Err(Error::InsufficientBalance))
    } else {
        let tally = v.store.tally(proposal_id);
        let new_tally = match vote_type {
            VoteType::Yes => ProposalVotes {
                total_yes: (tally.total_yes + weight) as u128,
                total_no: tally.total_no,
            },
            VoteType::No => ProposalVotes {
                total_yes: tally.total_yes,
                total_no: (tally.total_no + weight) as u128,
            },
        };
        let wraps = match vote_type {
            VoteType::Yes => tally.total_yes + weight > u128::MAX,
            VoteType::No => tally.total_no + weight > u128::MAX,
        };
        if wraps {
            (v, Err(Error::ArithmeticOverflow))
        } else {
            let next = DaoView {
                store: StoreView {
                    proposals: v.store.proposals,
                    tallies: v.store.tallies.update(proposal_id - 1, new_tally),
                    records: v.store.records.push(
                        VoteRecord { proposal_id, voter: caller },
                    ),
                    next_proposal_id: v.store.next_proposal_id,
                },
                ..v
            };
            (next, Ok(()))
        }
    }
}

/// The voting engine: one DAO instance. It owns the proposal store and the
/// instance configuration; the host's clock and caller identity enter each
/// operation as arguments, and voting weight comes from a balance oracle
/// behind the [`Erc20`] trait.
pub struct Dao {
    store: ProposalStore,
    /// Opaque reference to the governance-token account whose balances act
    /// as voting weights; stored verbatim.
    pub governance_token: AccountId,
    /// Minimum-participation threshold. Stored configuration only: no
    /// validation path of the covered behaviour reads it.
    pub quorum: u8,
    treasury: u128,
}

impl View for Dao {
    type V = DaoView;

    closed spec fn view(&self) -> DaoView {
        DaoView {
            store: self.store@,
            governance_token: self.governance_token,
            quorum: self.quorum,
            treasury: self.treasury,
        }
    }
}

impl Dao {
    /// Instantiates a DAO holding `treasury` (its endowment as the host
    /// ledger tracks it) with an empty proposal table.
    pub fn new(governance_token: AccountId, quorum: u8, treasury: u128) -> (dao: Dao)
        ensures
            dao@ == (DaoView {
                store: StoreView {
                    proposals: Seq::empty(),
                    tallies: Seq::empty(),
                    records: Seq::empty(),
                    next_proposal_id: 0,
                },
                governance_token,
                quorum,
                treasury,
            }),
            dao@.wf(),
    {
        Dao { store: ProposalStore::new(), governance_token, quorum, treasury }
    }

    /// Creates a new proposal, exactly as [`spec_propose`] describes;
    /// `now` is the host clock at the call.
    pub fn propose(&mut self, to: AccountId, amount: u128, duration: u64, now: u64) -> (r: Result<
        (),
        Error,
    >)
        requires
            old(self)@.wf(),
        ensures
            final(self)@.wf(),
            (final(self)@, r) == spec_propose(old(self)@, to, amount, duration, now),
    {
        if amount == 0 || amount > self.treasury {
            return Err(Error::InvalidProposalAmount);
        }
        if duration == 0 {
            return Err(Error::InvalidProposalDuration);
        }
        let window = match duration.checked_mul(DURATION_UNIT) {
            Some(w) => w,
            None => {
                return Err(Error::ArithmeticOverflow);
            },
        };
        let end = match now.checked_add(window) {
            Some(e) => e,
            None => {
                return Err(Error::ArithmeticOverflow);
            },
        };
        let proposal_id = match self.store.allocate_id() {
            Ok(id) => id,
            Err(e) => {
                return Err(e);
            },
        };
        self.store.put_proposal(
            proposal_id,
            Proposal { to, amount, start: now, end, executed: false },
        );
        self.store.put_votes(proposal_id, ProposalVotes { total_yes: 0, total_no: 0 });
        Ok(())
    }

    /// Casts `caller`'s vote on a proposal, exactly as [`spec_vote`]
    /// describes; `now` is the host clock at the call and `token` is the
    /// balance oracle queried for the caller's weight.
    pub fn vote<T: Erc20>(
        &mut self,
        proposal_id: u64,
        vote_type: VoteType,
        caller: AccountId,
        now: u64,
        token: &T,
    ) -> (r: Result<(), Error>)
        requires
            old(self)@.wf(),
        ensures
            final(self)@.wf(),
            (final(self)@, r) == spec_vote(
                old(self)@,
                proposal_id,
                vote_type,
                caller,
                now,
                token.spec_balance_of(caller),
            ),
    {
        let proposal = match self.store.get_proposal(proposal_id) {
            Ok(p) => p,
            Err(e) => {
                return Err(e);
            },
        };
        if let Err(e) = self.has_executed(&proposal) {
            return Err(e);
        }
        if let Err(e) = self.has_expired(&proposal, now) {
            return Err(e);
        }
        if let Err(e) = self.has_voted(proposal_id, caller) {
            return Err(e);
        }
        let vote_amount = token.balance_of(caller);
        if vote_amount == 0 {
            return Err(Error::InsufficientBalance);
        }
        if let Err(e) = self.add_votes(vote_amount, proposal_id, vote_type) {
            return Err(e);
        }
        self.store.record_vote(proposal_id, caller);
        Ok(())
    }

    /// Folds `vote_amount` into the chosen side of the proposal's tally by a
    /// checked addition; on overflow nothing is written.
    fn add_votes(&mut self, vote_amount: u128, proposal_id: u64, vote_type: VoteType) -> (r: Result<
        (),
        Error,
    >)
        requires
            old(self)@.wf(),
            old(self)@.store.has_proposal(proposal_id),
        ensures
            ({
                let tally = old(self)@.store.tally(proposal_id);
                let wraps = match vote_type {
                    VoteType::Yes => tally.total_yes + vote_amount > u128::MAX,
                    VoteType::No => tally.total_no + vote_amount > u128::MAX,
                };
                let new_tally = match vote_type {
                    VoteType::Yes => ProposalVotes {
                        total_yes: (tally.total_yes + vote_amount) as u128,
                        total_no: tally.total_no,
                    },
                    VoteType::No => ProposalVotes {
                        total_yes: tally.total_yes,
                        total_no: (tally.total_no + vote_amount) as u128,
                    },
                };
                if wraps {
                    r == Err::<(), Error>(Error::ArithmeticOverflow) && final(self)@ == old(self)@
                } else {
                    r == Ok::<(), Error>(()) && final(self)@ == (DaoView {
                        store: StoreView {
                            tallies: old(self)@.store.tallies.update(proposal_id - 1, new_tally),
                            ..old(self)@.store
                        },
                        ..old(self)@
                    })
                }
            }),
    {
        let tally = match self.store.get_votes(proposal_id) {
            Ok(t) => t,
            Err(e) => {
                return Err(e);
            },
        };
        let new_tally = match vote_type {
            VoteType::Yes => {
                match tally.total_yes.checked_add(vote_amount) {
                    Some(total_yes) => ProposalVotes { total_yes, total_no: tally.total_no },
                    None => {
                        return Err(Error::ArithmeticOverflow);
                    },
                }
            },
            VoteType::No => {
                match tally.total_no.checked_add(vote_amount) {
                    Some(total_no) => ProposalVotes { total_yes: tally.total_yes, total_no },
                    None => {
                        return Err(Error::ArithmeticOverflow);
                    },
                }
            },
        };
        self.store.put_votes(proposal_id, new_tally);
        Ok(())
    }

    /// Rejects a proposal that has already been executed.
    fn has_executed(&self, proposal: &Proposal) -> (r: Result<(), Error>)
        ensures
            proposal.executed ==> r == Err::<(), Error>(Error::ProposalExecuted),
            !proposal.executed ==> r == Ok::<(), Error>(()),
    {
        if proposal.executed {
            return Err(Error::ProposalExecuted);
        }
        Ok(())
    }

    /// Rejects a proposal whose voting window is closed; the boundary is
    /// inclusive, so at `now == end` voting is already over.
    fn has_expired(&self, proposal: &Proposal, now: u64) -> (r: Result<(), Error>)
        ensures
            now >= proposal.end ==> r == Err::<(), Error>(Error::ProposalExpired),
            now < proposal.end ==> r == Ok::<(), Error>(()),
    {
        if now >= proposal.end {
            return Err(Error::ProposalExpired);
        }
        Ok(())
    }

    /// Rejects a voter who has already cast a vote on the proposal.
    fn has_voted(&self, proposal_id: u64, voter: AccountId) -> (r: Result<(), Error>)
        ensures
            self@.store.has_voted(proposal_id, voter) ==> r == Err::<(), Error>(
                Error::AlreadyVoted,
            ),
            !self@.store.has_voted(proposal_id, voter) ==> r == Ok::<(), Error>(()),
    {
        if self.store.has_voted(proposal_id, voter) {
            return Err(Error::AlreadyVoted);
        }
        Ok(())
    }

    /// The DAO's own holdable balance, as configured at instantiation. The
    /// covered behaviour defines no execution step, so it never changes.
    pub fn get_treasury_amount(&self) -> (r: u128)
        ensures
            r == self@.treasury,
    {
        self.treasury
    }

    /// Pure read of a proposal.
    pub fn get_proposal(&self, proposal_id: u64) -> (r: Result<Proposal, Error>)
        ensures
            self@.store.has_proposal(proposal_id) ==> r == Ok::<Proposal, Error>(
                self@.store.proposal(proposal_id),
            ),
            !self@.store.has_proposal(proposal_id) ==> r == Err::<Proposal, Error>(
                Error::ProposalNotFound,
            ),
    {
        self.store.get_proposal(proposal_id)
    }

    /// Pure read of a proposal's tally.
    pub fn get_votes(&self, proposal_id: u64) -> (r: Result<ProposalVotes, Error>)
        ensures
            self@.store.has_tally(proposal_id) ==> r == Ok::<ProposalVotes, Error>(
                self@.store.tally(proposal_id),
            ),
            !self@.store.has_tally(proposal_id) ==> r == Err::<ProposalVotes, Error>(
                Error::ProposalNotFound,
            ),
    {
        self.store.get_votes(proposal_id)
    }

    /// Pure read of the timestamp at which a proposal's voting window
    /// closes.
    pub fn get_proposal_end(&self, proposal_id: u64) -> (r: Result<u64, Error>)
        ensures
            self@.store.has_proposal(proposal_id) ==> r == Ok::<u64, Error>(
                self@.store.proposal(proposal_id).end,
            ),
            !self@.store.has_proposal(proposal_id) ==> r == Err::<u64, Error>(
                Error::ProposalNotFound,
            ),
    {
        let proposal = match self.store.get_proposal(proposal_id) {
            Ok(p) => p,
            Err(e) => {
                return Err(e);
            },
        };
        Ok(proposal.end)
    }
}

/// Event payload recorded by the host ledger when a DAO is instantiated.
/// Emission itself belongs to the host and is outside this engine.
#[derive(Clone, Copy, Debug, PartialEq, Eq, Structural)]
pub struct DaoCreated {
    pub governance_token: AccountId,
    pub quorum: u8,
}

/// Event payload recorded by the host ledger when a proposal is created.
#[derive(Clone, Copy, Debug, PartialEq, Eq, Structural)]
pub struct ProposalCreated {
    pub proposal_id: u64,
    pub to: AccountId,
    pub amount: u128,
    pub duration: u64,
}

/// Event payload recorded by the host ledger when a vote is cast.
#[derive(Clone, Copy, Debug, PartialEq, Eq, Structural)]
pub struct Vote {
    pub proposal_id: u64,
    pub who: AccountId,
    pub vote_type: VoteType,
    pub vote_amount: u128,
}

} // verus!
