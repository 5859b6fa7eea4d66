use dao::account::AccountId;
use dao::engine::{DaoCreated, ProposalCreated, Vote};
use dao::error::Error;
use dao::proposal::{Proposal, ProposalVotes, VoteType};
use dao::store::ProposalStore;

fn eve() -> AccountId {
    AccountId(5)
}

#[test]
fn store_allocates_sequential_ids() {
    let mut store = ProposalStore::new();
    assert_eq!(store.allocate_id(), Ok(1));
    assert_eq!(store.get_proposal(1), Err(Error::ProposalNotFound));
    store.put_proposal(
        1,
        Proposal {
            to: eve(),
            amount: 5,
            start: 0,
            end: 100,
            executed: false,
        },
    );
    store.put_votes(
        1,
        ProposalVotes {
            total_yes: 0,
            total_no: 0,
        },
    );
    assert_eq!(store.allocate_id(), Ok(2));
    assert_eq!(store.get_proposal(1).map(|p| p.amount), Ok(5));
    assert_eq!(
        store.get_votes(1),
        Ok(ProposalVotes {
            total_yes: 0,
            total_no: 0,
        })
    );
    assert_eq!(store.get_proposal(2), Err(Error::ProposalNotFound));
}

#[test]
fn store_records_votes() {
    let mut store = ProposalStore::new();
    assert_eq!(store.allocate_id(), Ok(1));
    store.put_proposal(
        1,
        Proposal {
            to: eve(),
            amount: 5,
            start: 0,
            end: 100,
            executed: false,
        },
    );
    store.put_votes(
        1,
        ProposalVotes {
            total_yes: 0,
            total_no: 0,
        },
    );
    assert!(!store.has_voted(1, eve()));
    store.record_vote(1, eve());
    assert!(store.has_voted(1, eve()));
    assert!(!store.has_voted(1, AccountId(9)));
    assert!(!store.has_voted(2, eve()));
    store.put_votes(
        1,
        ProposalVotes {
            total_yes: 7,
            total_no: 0,
        },
    );
    assert_eq!(
        store.get_votes(1),
        Ok(ProposalVotes {
            total_yes: 7,
            total_no: 0,
        })
    );
}

#[test]
fn zeroed_tally_is_default() {
    let zeroed: ProposalVotes = Default::default();
    assert_eq!(
        zeroed,
        ProposalVotes {
            total_yes: 0,
            total_no: 0,
        }
    );
}

#[test]
fn event_payloads_carry_their_fields() {
    let created = DaoCreated {
        governance_token: AccountId(8),
        quorum: 10,
    };
    assert_eq!(created.governance_token, AccountId(8));
    assert_eq!(created.quorum, 10);
    let proposed = ProposalCreated {
        proposal_id: 1,
        to: eve(),
        amount: 10,
        duration: 10,
    };
    assert_eq!(proposed.proposal_id, 1);
    assert_eq!(proposed.to, eve());
    let vote = Vote {
        proposal_id: 1,
        who: eve(),
        vote_type: VoteType::Yes,
        vote_amount: 800,
    };
    assert_eq!(vote.vote_amount, 800);
    assert_eq!(vote.vote_type, VoteType::Yes);
}
