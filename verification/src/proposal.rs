use vstd::prelude::*;

use crate::account::AccountId;

verus! {

/// A time-bounded request to move `amount` from the treasury to `to`.
#[derive(Clone, Copy, Debug, PartialEq, Eq, Structural)]
pub struct Proposal {
    /// The beneficiary of the proposal.
    pub to: AccountId,
    /// The amount to transfer on execution; always positive and, at proposal
    /// time, no larger than the treasury balance.
    pub amount: u128,
    /// Timestamp at which the proposal was created.
    pub start: u64,
    /// Timestamp at which the voting window closes; always after `start`.
    pub end: u64,
    /// Whether the proposal has been executed. The covered behaviour defines
    /// no execution step, so proposals created here keep it `false`.
    pub executed: bool,
}

/// A proposal is well formed when its amount is positive and its voting
/// window is non-empty.
pub open spec fn proposal_valid(p: Proposal) -> bool {
    &&& p.amount > 0
    &&& p.end > p.start
}

/// The accumulated yes/no weights for one proposal. Both fields only ever
/// grow, by checked additions that fail closed.
#[derive(Clone, Copy, Debug, PartialEq, Eq, Structural)]
pub struct ProposalVotes {
    pub total_yes: u128,
    pub total_no: u128,
}

impl Default for ProposalVotes {
    /// A zeroed tally, as written at proposal creation.
    fn default() -> (r: Self)
        ensures
            r.total_yes == 0,
            r.total_no == 0,
    {
        ProposalVotes { total_yes: 0, total_no: 0 }
    }
}

/// The direction of a single vote.
#[derive(Clone, Copy, Debug, PartialEq, Eq, Structural)]
pub enum VoteType {
    Yes,
    No,
}

/// An existence marker: its presence means the account has already cast a
/// vote on the proposal. At most one record per (proposal, voter) pair ever
/// exists.
#[derive(Clone, Copy, Debug, PartialEq, Eq, Structural)]
pub struct VoteRecord {
    pub proposal_id: u64,
    pub voter: AccountId,
}

} // verus!
