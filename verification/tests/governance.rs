use poh_ledger::governance::{
    clone_votes, Governance, GovernanceError, Proposal, ProposalStatus, Vote, VoteChoice,
};

fn vote(voter: &str, choice: VoteChoice, weight: u64) -> Vote {
    Vote {
        voter: voter.to_string(),
        proposal_id: "upgrade".to_string(),
        choice,
        timestamp: 1,
        weight,
    }
}

fn proposal(required_votes: u64, budget_amount: i64) -> Proposal {
    Proposal {
        id: "upgrade".to_string(),
        title: "Parks".to_string(),
        description: "More parks".to_string(),
        creator: "carol".to_string(),
        created_at: 1,
        voting_start: 2,
        voting_end: 3,
        status: ProposalStatus::Active,
        votes: Vec::new(),
        required_votes,
        budget_amount,
    }
}

#[test]
fn tally_sums_weights() {
    let mut p = proposal(10, 0);
    assert_eq!(p.tally(), (0, 0));
    p.votes = vec![
        vote("a", VoteChoice::Yes, 6),
        vote("b", VoteChoice::No, 3),
        vote("c", VoteChoice::Abstain, 2),
        vote("d", VoteChoice::Yes, 1),
    ];
    assert_eq!(p.tally(), (12, 7));
    p.votes = vec![
        vote("a", VoteChoice::Yes, u64::MAX),
        vote("b", VoteChoice::Yes, u64::MAX),
        vote("c", VoteChoice::No, u64::MAX),
    ];
    let max = u64::MAX as u128;
    assert_eq!(p.tally(), (3 * max, 2 * max));
    assert!(p.passes());
}

#[test]
fn proposal_passes_with_quorum_and_majority() {
    let mut p = proposal(10, 0);
    assert!(!p.passes());
    p.votes = vec![vote("a", VoteChoice::Yes, 9)];
    assert!(!p.passes());
    p.votes = vec![vote("a", VoteChoice::Yes, 10)];
    assert!(p.passes());
    p.votes = vec![vote("a", VoteChoice::Yes, 5), vote("b", VoteChoice::No, 5)];
    assert!(!p.passes());
    p.votes = vec![vote("a", VoteChoice::Yes, 6), vote("b", VoteChoice::No, 5)];
    assert!(p.passes());
    p.votes = vec![
        vote("a", VoteChoice::Yes, 5),
        vote("b", VoteChoice::Abstain, 6),
    ];
    assert!(!p.passes());
    let mut none_needed = proposal(0, 0);
    assert!(!none_needed.passes());
    none_needed.votes = vec![vote("a", VoteChoice::Yes, 1)];
    assert!(none_needed.passes());
    let governance = Governance::new();
    assert!(governance.check_proposal_status(&none_needed));
    assert!(!governance.check_proposal_status(&proposal(1, 0)));
}

#[test]
fn later_vote_of_a_voter_replaces_the_earlier() {
    let mut p = proposal(100, 0);
    p.record_vote(vote("a", VoteChoice::No, 1));
    p.record_vote(vote("b", VoteChoice::Yes, 2));
    p.record_vote(vote("a", VoteChoice::Yes, 7));
    assert_eq!(
        p.votes,
        vec![vote("a", VoteChoice::Yes, 7), vote("b", VoteChoice::Yes, 2)]
    );
    assert_eq!(p.status, ProposalStatus::Active);
    p.record_vote(vote("c", VoteChoice::Yes, 91));
    assert_eq!(p.votes.len(), 3);
    assert_eq!(p.status, ProposalStatus::Passed);
    assert_eq!(clone_votes(&p.votes), p.votes);
    assert_eq!(p.clone(), p);
}

#[test]
fn vote_is_cast_on_the_named_proposal_only() {
    let mut governance = Governance::new();
    assert_eq!(governance.proposals.len(), 0);
    governance.cast_vote(vote("a", VoteChoice::Yes, 50));
    assert_eq!(governance.proposals.len(), 0);
    governance.create_proposal(proposal(10, 5));
    assert_eq!(governance.proposals.len(), 1);
    governance.cast_vote(vote("a", VoteChoice::Yes, 4));
    let stored = governance.proposals.get("upgrade").unwrap();
    assert_eq!(stored.votes, vec![vote("a", VoteChoice::Yes, 4)]);
    assert_eq!(stored.status, ProposalStatus::Active);
    governance.cast_vote(vote("b", VoteChoice::Yes, 6));
    let stored = governance.proposals.get("upgrade").unwrap();
    assert_eq!(stored.votes.len(), 2);
    assert_eq!(stored.status, ProposalStatus::Passed);
    let mut elsewhere = vote("c", VoteChoice::No, 99);
    elsewhere.proposal_id = "grant".to_string();
    governance.cast_vote(elsewhere);
    assert_eq!(governance.proposals.get("upgrade").unwrap().votes.len(), 2);
    assert!(governance.proposals.get("grant").is_none());
}

#[test]
fn passed_proposal_is_executed_once_from_the_budget() {
    let mut governance = Governance::new();
    assert_eq!(governance.community_budget.total_amount, 0);
    assert_eq!(governance.community_budget.allocated_amount, 0);
    assert!(governance.community_budget.proposals.is_empty());
    assert_eq!(governance.execute_proposal("upgrade"), Ok(()));
    governance.create_proposal(proposal(10, 250));
    assert_eq!(governance.execute_proposal("upgrade"), Ok(()));
    assert_eq!(governance.community_budget.allocated_amount, 0);
    assert_eq!(
        governance.proposals.get("upgrade").unwrap().status,
        ProposalStatus::Active
    );
    governance.cast_vote(vote("a", VoteChoice::Yes, 10));
    assert_eq!(governance.execute_proposal("upgrade"), Ok(()));
    assert_eq!(governance.community_budget.allocated_amount, 250);
    assert_eq!(governance.community_budget.proposals, vec!["upgrade".to_string()]);
    assert_eq!(
        governance.proposals.get("upgrade").unwrap().status,
        ProposalStatus::Executed
    );
    assert_eq!(governance.execute_proposal("upgrade"), Ok(()));
    assert_eq!(governance.community_budget.allocated_amount, 250);
    assert_eq!(governance.community_budget.proposals.len(), 1);
}

#[test]
fn allocation_beyond_the_range_is_refused() {
    let mut governance = Governance::new();
    let mut p = proposal(0, i64::MAX);
    p.status = ProposalStatus::Passed;
    governance.create_proposal(p);
    governance.community_budget.allocated_amount = 1;
    assert_eq!(
        governance.execute_proposal("upgrade"),
        Err(GovernanceError::BudgetOverflow)
    );
    assert_eq!(governance.community_budget.allocated_amount, 1);
    assert!(governance.community_budget.proposals.is_empty());
    assert_eq!(
        governance.proposals.get("upgrade").unwrap().status,
        ProposalStatus::Passed
    );
    governance.community_budget.allocated_amount = 0;
    assert_eq!(governance.execute_proposal("upgrade"), Ok(()));
    assert_eq!(governance.community_budget.allocated_amount, i64::MAX);
}

#[test]
fn voting_power_defaults_to_zero() {
    let mut governance = Governance::new();
    assert_eq!(governance.get_voting_power("alice"), 0);
    governance.update_voting_power("alice", 100);
    governance.update_voting_power("bob", 7);
    assert_eq!(governance.get_voting_power("alice"), 100);
    governance.update_voting_power("alice", 3);
    assert_eq!(governance.get_voting_power("alice"), 3);
    assert_eq!(governance.get_voting_power("bob"), 7);
    assert_eq!(governance.get_voting_power("carol"), 0);
}

#[test]
fn votes_stay_at_one_per_voter() {
    let mut p = proposal(1_000, 0);
    for (voter, weight) in [("ann", 1), ("ben", 2), ("ann", 3), ("cy", 4), ("ben", 5), ("ann", 6)] {
        p.record_vote(vote(voter, VoteChoice::No, weight));
    }
    let voters: Vec<&str> = p.votes.iter().map(|v| v.voter.as_str()).collect();
    assert_eq!(voters, vec!["ann", "ben", "cy"]);
    let weights: Vec<u64> = p.votes.iter().map(|v| v.weight).collect();
    assert_eq!(weights, vec![6, 5, 4]);
}
