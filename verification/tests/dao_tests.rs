use dao::account::AccountId;
use dao::engine::{Dao, DURATION_UNIT};
use dao::error::Error;
use dao::proposal::{Proposal, ProposalVotes, VoteType};
use dao::token::{Erc20, Token};

fn alice() -> AccountId {
    AccountId(1)
}

fn bob() -> AccountId {
    AccountId(2)
}

fn charlie() -> AccountId {
    AccountId(3)
}

fn django() -> AccountId {
    AccountId(4)
}

fn ferdie() -> AccountId {
    AccountId(6)
}

fn governance_token() -> AccountId {
    AccountId(8)
}

fn create_contract(governance_token: AccountId, quorum: u8, init_balance: u128) -> Dao {
    Dao::new(governance_token, quorum, init_balance)
}

#[test]
fn create_dao() {
    let quorum = 10;
    let dao = create_contract(governance_token(), quorum, 1000);
    assert_eq!(dao.governance_token, governance_token());
    assert_eq!(dao.quorum, quorum);
    assert_eq!(dao.get_treasury_amount(), 1000);
}

#[test]
fn correct_proposal() {
    let quorum = 10;
    let mut dao = create_contract(governance_token(), quorum, 1000);
    // proposal at timestamp 50
    let propose_result = dao.propose(django(), 10, 10, 50);
    assert!(propose_result.is_ok());
    // verify with `get_proposal`
    if let Ok(proposal) = dao.get_proposal(1) {
        assert_eq!(
            proposal,
            Proposal {
                to: django(),
                amount: 10,
                start: 50,
                end: 50 + 10 * DURATION_UNIT,
                executed: false,
            }
        );
    } else {
        panic!("Proposal did not exist while it should");
    }
}

#[test]
fn incorrect_proposal_amount() {
    let quorum = 10;
    let mut dao = create_contract(governance_token(), quorum, 1000);
    // proposal
    let propose_result = dao.propose(django(), 0, 10, 0);
    assert!(propose_result.is_err());
    // verify with `get_proposal`
    if let Err(error) = dao.get_proposal(1) {
        assert_eq!(error, Error::ProposalNotFound)
    } else {
        panic!("Proposal should not have exitsted");
    }
}

#[test]
fn incorrect_proposal_duration() {
    let quorum = 10;
    let mut dao = create_contract(governance_token(), quorum, 1000);
    // proposal
    let propose_result = dao.propose(django(), 10, 0, 0);
    assert!(propose_result.is_err());
    // verify with `get_proposal`
    if let Err(error) = dao.get_proposal(1) {
        assert_eq!(error, Error::ProposalNotFound)
    } else {
        panic!("Proposal should not have exitsted");
    }
}

#[test]
fn gets_work() {
    let quorum = 10;
    let mut dao = create_contract(governance_token(), quorum, 100);
    // Check if dao balance is correct
    assert_eq!(dao.get_treasury_amount(), 100);
    // Test get_* without a proposal
    assert_eq!(dao.get_proposal_end(1), Err(Error::ProposalNotFound));
    assert_eq!(dao.get_proposal(1), Err(Error::ProposalNotFound));
    assert_eq!(dao.get_votes(1), Err(Error::ProposalNotFound));
    // Propose a proposal
    let propose_result = dao.propose(ferdie(), 10, 10, 0);
    assert!(propose_result.is_ok());
    // Get end of proposal
    let get_end_result = dao.get_proposal_end(1);
    assert!(get_end_result.is_ok());
    let start = get_end_result.unwrap_or_else(|_| panic!("shouldn't panic")) - 10 * DURATION_UNIT;
    assert_eq!(
        dao.get_proposal(1),
        Ok(Proposal {
            to: ferdie(),
            amount: 10,
            start,
            end: start + 10 * DURATION_UNIT,
            executed: false,
        })
    );
    assert_eq!(
        dao.get_votes(1),
        Ok(ProposalVotes {
            total_yes: 0,
            total_no: 0,
        })
    );
}

#[test]
fn incorrect_proposals() {
    let quorum = 10;
    let mut dao = create_contract(governance_token(), quorum, 100);
    assert_eq!(dao.get_treasury_amount(), 100);
    // Invalid proposal amount
    let propose_result = dao.propose(ferdie(), 0, 10, 0);
    assert!(propose_result.is_err());
    // Invalid proposal duration
    let propose_result = dao.propose(ferdie(), 10, 0, 0);
    assert!(propose_result.is_err());
    // Get checks
    assert_eq!(dao.get_proposal_end(1), Err(Error::ProposalNotFound));
    assert_eq!(dao.get_proposal(1), Err(Error::ProposalNotFound));
    assert_eq!(dao.get_votes(1), Err(Error::ProposalNotFound));
}

#[test]
fn correct_voting() {
    // Instantiate the governance token: the whole supply with alice
    let total_supply = 1_000;
    let mut token = Token::new(alice(), total_supply);
    // Instantiate dao contract
    let quorum = 10;
    let mut dao = create_contract(governance_token(), quorum, 100);
    // Transfer tokens to Bob
    let transfer_to_bob = 200u128;
    token
        .transfer(alice(), bob(), transfer_to_bob)
        .expect("transfer failed");
    assert_eq!(transfer_to_bob, token.balance_of(bob()));
    // Transfer tokens to Ferdie
    let transfer_to_ferdie = 100u128;
    token
        .transfer(alice(), ferdie(), transfer_to_ferdie)
        .expect("transfer failed");
    assert_eq!(transfer_to_ferdie, token.balance_of(ferdie()));
    // Propose a proposal
    let propose_result = dao.propose(ferdie(), 10, 10, 0);
    assert!(propose_result.is_ok());
    // Alice votes `yes`, Ferdie votes `yes`, Bob votes `no`
    dao.vote(1, VoteType::Yes, alice(), 1, &token)
        .expect("vote failed");
    dao.vote(1, VoteType::Yes, ferdie(), 1, &token)
        .expect("vote failed");
    dao.vote(1, VoteType::No, bob(), 1, &token)
        .expect("vote failed");
    // Get total votes on proposal
    assert_eq!(
        dao.get_votes(1),
        Ok(ProposalVotes {
            total_yes: 800,
            total_no: 200,
        })
    );
}

#[test]
fn incorrect_voting() {
    // Instantiate the governance token: the whole supply with alice
    let total_supply = 1_000;
    let mut token = Token::new(alice(), total_supply);
    // Instantiate dao contract
    let quorum = 10;
    let mut dao = create_contract(governance_token(), quorum, 100);
    // Transfer tokens to Bob
    let transfer_to_bob = 200u128;
    token
        .transfer(alice(), bob(), transfer_to_bob)
        .expect("transfer failed");
    assert_eq!(transfer_to_bob, token.balance_of(bob()));
    // Propose a proposal
    let propose_result = dao.propose(ferdie(), 10, 10, 0);
    assert!(propose_result.is_ok());
    // Ferdie holds no tokens
    assert_eq!(token.balance_of(ferdie()), 0);
    // Ferdie votes `no` without balance
    let vote_result = dao.vote(1, VoteType::No, ferdie(), 1, &token);
    assert!(vote_result.is_err());
    // Alice votes `yes`
    dao.vote(1, VoteType::Yes, alice(), 1, &token)
        .expect("vote failed");
    // Alice votes `yes` again
    let vote_result = dao.vote(1, VoteType::Yes, alice(), 1, &token);
    assert!(vote_result.is_err());
    // Bob votes `no` on a proposal that does not exist
    let vote_result = dao.vote(2, VoteType::No, bob(), 1, &token);
    assert!(vote_result.is_err());
    // Get total votes on proposal
    assert_eq!(
        dao.get_votes(1),
        Ok(ProposalVotes {
            total_yes: 800,
            total_no: 0,
        })
    );
}

#[test]
fn voting_boundary() {
    // Voting exactly at `end` is expired; one tick earlier succeeds.
    let mut token = Token::new(alice(), 1_000);
    token.transfer(alice(), bob(), 200).expect("transfer failed");
    let mut dao = create_contract(governance_token(), 10, 100);
    dao.propose(django(), 10, 1, 0).expect("Proposal failed");
    let end = 1 * DURATION_UNIT;
    assert_eq!(dao.get_proposal_end(1), Ok(end));
    assert_eq!(
        dao.vote(1, VoteType::Yes, alice(), end, &token),
        Err(Error::ProposalExpired)
    );
    assert_eq!(dao.vote(1, VoteType::Yes, alice(), end - 1, &token), Ok(()));
    assert_eq!(
        dao.get_votes(1),
        Ok(ProposalVotes {
            total_yes: 800,
            total_no: 0,
        })
    );
}

#[test]
fn proposal_amount_bound() {
    // Exactly the treasury balance is accepted; one more is rejected.
    let mut dao = create_contract(governance_token(), 10, 100);
    assert_eq!(
        dao.propose(django(), 101, 10, 0),
        Err(Error::InvalidProposalAmount)
    );
    assert_eq!(dao.get_proposal(1), Err(Error::ProposalNotFound));
    assert_eq!(dao.propose(django(), 100, 10, 0), Ok(()));
    assert_eq!(
        dao.get_proposal(1)
            .expect("Proposal did not exist while it should")
            .amount,
        100
    );
}

#[test]
fn treasury_scenario() {
    // DAO with treasury 100; a weight-800 yes, a weight-200 no, a weight-0
    // account rejected, and a repeated vote rejected with tallies unchanged.
    let mut token = Token::new(alice(), 1_000);
    token.transfer(alice(), bob(), 200).expect("transfer failed");
    let mut dao = create_contract(governance_token(), 10, 100);
    assert_eq!(dao.propose(django(), 10, 10, 0), Ok(()));
    assert_eq!(
        dao.get_proposal(1),
        Ok(Proposal {
            to: django(),
            amount: 10,
            start: 0,
            end: 10 * DURATION_UNIT,
            executed: false,
        })
    );
    assert_eq!(
        dao.get_votes(1),
        Ok(ProposalVotes {
            total_yes: 0,
            total_no: 0,
        })
    );
    assert_eq!(dao.vote(1, VoteType::Yes, alice(), 1, &token), Ok(()));
    assert_eq!(dao.vote(1, VoteType::No, bob(), 1, &token), Ok(()));
    assert_eq!(
        dao.get_votes(1),
        Ok(ProposalVotes {
            total_yes: 800,
            total_no: 200,
        })
    );
    // A third vote from a weight-0 account fails
    assert_eq!(
        dao.vote(1, VoteType::Yes, charlie(), 1, &token),
        Err(Error::InsufficientBalance)
    );
    // A repeat vote from the weight-800 account fails, tallies unchanged
    assert_eq!(
        dao.vote(1, VoteType::Yes, alice(), 1, &token),
        Err(Error::AlreadyVoted)
    );
    assert_eq!(
        dao.get_votes(1),
        Ok(ProposalVotes {
            total_yes: 800,
            total_no: 200,
        })
    );
}

#[test]
fn rejected_proposal_leaves_no_trace() {
    // A rejected proposal writes nothing: the identifier is never taken.
    let mut dao = create_contract(governance_token(), 10, 100);
    assert_eq!(
        dao.propose(django(), 0, 10, 0),
        Err(Error::InvalidProposalAmount)
    );
    assert_eq!(dao.get_proposal(1), Err(Error::ProposalNotFound));
    assert_eq!(dao.get_votes(1), Err(Error::ProposalNotFound));
}

#[test]
fn proposal_ids_are_sequential() {
    let mut dao = create_contract(governance_token(), 10, 100);
    assert_eq!(dao.propose(django(), 1, 1, 0), Ok(()));
    assert_eq!(dao.propose(ferdie(), 2, 2, 5), Ok(()));
    assert_eq!(dao.propose(bob(), 3, 3, 9), Ok(()));
    assert_eq!(dao.get_proposal(1).map(|p| p.amount), Ok(1));
    assert_eq!(dao.get_proposal(2).map(|p| p.amount), Ok(2));
    assert_eq!(dao.get_proposal(3).map(|p| p.amount), Ok(3));
    assert_eq!(dao.get_proposal(4), Err(Error::ProposalNotFound));
}

#[test]
fn votes_on_proposals_are_independent() {
    // A vote on one proposal leaves every other tally untouched, and one
    // account may vote once on each proposal.
    let token = Token::new(alice(), 1_000);
    let mut dao = create_contract(governance_token(), 10, 100);
    assert_eq!(dao.propose(django(), 10, 10, 0), Ok(()));
    assert_eq!(dao.propose(ferdie(), 20, 10, 0), Ok(()));
    assert_eq!(dao.vote(1, VoteType::Yes, alice(), 1, &token), Ok(()));
    assert_eq!(
        dao.get_votes(1),
        Ok(ProposalVotes {
            total_yes: 1_000,
            total_no: 0,
        })
    );
    assert_eq!(
        dao.get_votes(2),
        Ok(ProposalVotes {
            total_yes: 0,
            total_no: 0,
        })
    );
    assert_eq!(dao.vote(2, VoteType::No, alice(), 1, &token), Ok(()));
    assert_eq!(
        dao.get_votes(2),
        Ok(ProposalVotes {
            total_yes: 0,
            total_no: 1_000,
        })
    );
    assert_eq!(
        dao.get_votes(1),
        Ok(ProposalVotes {
            total_yes: 1_000,
            total_no: 0,
        })
    );
}

#[test]
fn proposal_window_overflow() {
    // A voting window that cannot fit the timestamp fails closed.
    let mut dao = create_contract(governance_token(), 10, 100);
    assert_eq!(
        dao.propose(django(), 10, u64::MAX, 0),
        Err(Error::ArithmeticOverflow)
    );
    assert_eq!(
        dao.propose(django(), 10, 1, u64::MAX),
        Err(Error::ArithmeticOverflow)
    );
    assert_eq!(dao.get_proposal(1), Err(Error::ProposalNotFound));
}

#[test]
fn tally_overflow_fails_closed() {
    // Two oracles each reporting the maximum weight: the second fold would
    // wrap, so it fails and the tally stays as it was.
    let token_a = Token::new(alice(), u128::MAX);
    let token_b = Token::new(bob(), u128::MAX);
    let mut dao = create_contract(governance_token(), 10, 100);
    assert_eq!(dao.propose(django(), 10, 10, 0), Ok(()));
    assert_eq!(dao.vote(1, VoteType::Yes, alice(), 1, &token_a), Ok(()));
    assert_eq!(
        dao.vote(1, VoteType::Yes, bob(), 1, &token_b),
        Err(Error::ArithmeticOverflow)
    );
    assert_eq!(
        dao.get_votes(1),
        Ok(ProposalVotes {
            total_yes: u128::MAX,
            total_no: 0,
        })
    );
    // The failed fold recorded no vote: bob can still vote the other way.
    assert_eq!(dao.vote(1, VoteType::No, bob(), 1, &token_b), Ok(()));
    assert_eq!(
        dao.get_votes(1),
        Ok(ProposalVotes {
            total_yes: u128::MAX,
            total_no: u128::MAX,
        })
    );
}
