use vstd::prelude::*;

verus! {

/// Every way a proposal or a vote can be refused. All variants are terminal,
/// non-retryable failures returned to the caller; no operation mutates any
/// state when it returns one of these.
#[derive(Clone, Copy, Debug, PartialEq, Eq, Structural)]
pub enum Error {
    /// The proposed amount is zero or exceeds the treasury balance.
    InvalidProposalAmount,
    /// The proposal duration is zero.
    InvalidProposalDuration,
    /// No proposal exists under the given identifier.
    ProposalNotFound,
    /// The proposal has already been executed.
    ProposalExecuted,
    /// The voting window of the proposal is closed.
    ProposalExpired,
    /// The voter has already cast a vote on this proposal.
    AlreadyVoted,
    /// A counter or tally addition would wrap.
    ArithmeticOverflow,
    /// The voter holds no governance tokens.
    InsufficientBalance,
}

} // verus!
