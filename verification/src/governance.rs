//! Governance: proposals, weighted votes, the rule by which a proposal
//! passes, and the community budget that executed proposals draw on.

use vstd::hash_map::StringHashMap;
use vstd::prelude::*;

verus! {

/// Where a proposal stands.
#[derive(Debug, Clone, Copy, PartialEq, Eq, Structural)]
pub enum ProposalStatus {
    Draft,
    Active,
    Passed,
    Failed,
    Executed,
}

/// What a voter chose.
#[derive(Debug, Clone, Copy, PartialEq, Eq, Structural)]
pub enum VoteChoice {
    Yes,
    No,
    Abstain,
}

/// One voter's vote on one proposal. Timestamps are milliseconds since the
/// Unix epoch.
#[derive(Debug, PartialEq, Eq)]
pub struct Vote {
    pub voter: String,
    pub proposal_id: String,
    pub choice: VoteChoice,
    pub timestamp: i64,
    pub weight: u64,
}

/// A vote as a mathematical value.
pub struct VoteView {
    pub voter: Seq<char>,
    pub proposal_id: Seq<char>,
    pub choice: VoteChoice,
    pub timestamp: i64,
    pub weight: u64,
}

impl View for Vote {
    type V = VoteView;

    open spec fn view(&self) -> VoteView {
        VoteView {
            voter: self.voter@,
            proposal_id: self.proposal_id@,
            choice: self.choice,
            timestamp: self.timestamp,
            weight: self.weight,
        }
    }
}

impl Clone for Vote {
    fn clone(&self) -> (copy: Vote)
        ensures
            copy@ == self@,
    {
        Vote {
            voter: self.voter.clone(),
            proposal_id: self.proposal_id.clone(),
            choice: self.choice,
            timestamp: self.timestamp,
            weight: self.weight,
        }
    }
}

/// The views of a list of votes, in the same order.
pub open spec fn vote_views(votes: Seq<Vote>) -> Seq<VoteView> {
    votes.map_values(|v: Vote| v@)
}

/// The sum of the weights of all votes.
pub open spec fn total_weight(votes: Seq<VoteView>) -> nat
    decreases votes.len(),
{
    if votes.len() == 0 {
        0
    } else {
        total_weight(votes.drop_last()) + votes.last().weight as nat
    }
}

/// The sum of the weights of the votes in favour.
pub open spec fn yes_weight(votes: Seq<VoteView>) -> nat
    decreases votes.len(),
{
    if votes.len() == 0 {
        0
    } else {
        yes_weight(votes.drop_last()) + if votes.last().choice == VoteChoice::Yes {
            votes.last().weight as nat
        } else {
            0
        }
    }
}

/// The rule by which a proposal passes: the votes cast weigh at least
/// `required_votes`, and those in favour weigh more than half of all votes
/// cast, the half rounded down.
pub open spec fn votes_pass(votes: Seq<VoteView>, required_votes: u64) -> bool {
    total_weight(votes) >= required_votes && yes_weight(votes) > total_weight(votes) / 2
}

/// Whether `voter` has a vote among `votes`.
pub open spec fn has_voted(votes: Seq<VoteView>, voter: Seq<char>) -> bool {
    exists|k: int| 0 <= k < votes.len() && (#[trigger] votes[k]).voter == voter
}

/// Whether position `k` holds the first vote of `voter`.
pub open spec fn is_first_vote(votes: Seq<VoteView>, voter: Seq<char>, k: int) -> bool {
    &&& 0 <= k < votes.len()
    &&& votes[k].voter == voter
    &&& forall|j: int| 0 <= j < k ==> (#[trigger] votes[j]).voter != voter
}

/// The position of the first vote of `voter`.
pub open spec fn vote_position(votes: Seq<VoteView>, voter: Seq<char>) -> int {
    choose|k: int| is_first_vote(votes, voter, k)
}

/// The votes after `vote` is recorded: it takes the place of the voter's
/// earlier vote, or comes last where the voter had none.
pub open spec fn recorded(votes: Seq<VoteView>, vote: VoteView) -> Seq<VoteView> {
    if has_voted(votes, vote.voter) {
        votes.update(vote_position(votes, vote.voter), vote)
    } else {
        votes.push(vote)
    }
}

/// Whether no voter has more than one vote among `votes`.
pub open spec fn one_vote_each(votes: Seq<VoteView>) -> bool {
    forall|a: int, b: int|
        0 <= a < b < votes.len() ==> (#[trigger] votes[a]).voter != (#[trigger] votes[b]).voter
}

/// Recording a vote keeps the votes at one per voter: the vote of a voter
/// who has voted takes the place of the earlier one.
pub proof fn law_one_vote_each(votes: Seq<VoteView>, vote: VoteView)
    requires
        one_vote_each(votes),
    ensures
        one_vote_each(recorded(votes, vote)),
        has_voted(recorded(votes, vote), vote.voter),
        recorded(votes, vote).len() == if has_voted(votes, vote.voter) {
            votes.len()
        } else {
            votes.len() + 1
        },
{
    let after = recorded(votes, vote);
    if has_voted(votes, vote.voter) {
        let k = vote_position(votes, vote.voter);
        let w = choose|w: int| 0 <= w < votes.len() && (#[trigger] votes[w]).voter == vote.voter;
        lemma_first_vote_exists(votes, vote.voter, w);
        assert(is_first_vote(votes, vote.voter, k));
        assert(after[k].voter == vote.voter);
        assert forall|a: int, b: int| 0 <= a < b < after.len() implies (#[trigger] after[a]).voter
            != (#[trigger] after[b]).voter by {
            assert(votes[a].voter != votes[b].voter);
            assert(after[a].voter == votes[a].voter);
            assert(after[b].voter == votes[b].voter);
        }
    } else {
        assert(after[votes.len() as int].voter == vote.voter);
        assert forall|a: int, b: int| 0 <= a < b < after.len() implies (#[trigger] after[a]).voter
            != (#[trigger] after[b]).voter by {
            if b < votes.len() {
                assert(votes[a].voter != votes[b].voter);
            } else {
                assert(after[a] == votes[a]);
            }
        }
    }
}

/// A voter with a vote at position `w` has a first vote.
proof fn lemma_first_vote_exists(votes: Seq<VoteView>, voter: Seq<char>, w: int)
    requires
        0 <= w < votes.len(),
        votes[w].voter == voter,
    ensures
        exists|k: int| is_first_vote(votes, voter, k),
    decreases w,
{
    if exists|j: int| 0 <= j < w && (#[trigger] votes[j]).voter == voter {
        let j = choose|j: int| 0 <= j < w && (#[trigger] votes[j]).voter == voter;
        lemma_first_vote_exists(votes, voter, j);
    } else {
        assert(is_first_vote(votes, voter, w));
    }
}

/// A proposal. Amounts are whole numbers of the smallest unit; times are
/// milliseconds since the Unix epoch.
#[derive(Debug, PartialEq, Eq)]
pub struct Proposal {
    pub id: String,
    pub title: String,
    pub description: String,
    pub creator: String,
    pub created_at: i64,
    pub voting_start: i64,
    pub voting_end: i64,
    pub status: ProposalStatus,
    /// The votes, in the order in which the voters first voted, at most
    /// one per voter. They are kept as a list because the tally walks all
    /// of them.
    pub votes: Vec<Vote>,
    pub required_votes: u64,
    pub budget_amount: i64,
}

/// A proposal as a mathematical value.
pub struct ProposalView {
    pub id: Seq<char>,
    pub title: Seq<char>,
    pub description: Seq<char>,
    pub creator: Seq<char>,
    pub created_at: i64,
    pub voting_start: i64,
    pub voting_end: i64,
    pub status: ProposalStatus,
    pub votes: Seq<VoteView>,
    pub required_votes: u64,
    pub budget_amount: i64,
}

impl View for Proposal {
    type V = ProposalView;

    open spec fn view(&self) -> ProposalView {
        ProposalView {
            id: self.id@,
            title: self.title@,
            description: self.description@,
            creator: self.creator@,
            created_at: self.created_at,
            voting_start: self.voting_start,
            voting_end: self.voting_end,
            status: self.status,
            votes: vote_views(self.votes@),
            required_votes: self.required_votes,
            budget_amount: self.budget_amount,
        }
    }
}

impl ProposalView {
    /// Whether the votes cast so far let the proposal pass.
    pub open spec fn passes(self) -> bool {
        votes_pass(self.votes, self.required_votes)
    }

    /// The proposal after `vote` is recorded: it is marked as passed as soon
    /// as the votes let it pass, and keeps its status otherwise.
    pub open spec fn with_vote(self, vote: VoteView) -> ProposalView {
        let votes = recorded(self.votes, vote);
        ProposalView {
            votes,
            status: if votes_pass(votes, self.required_votes) {
                ProposalStatus::Passed
            } else {
                self.status
            },
            ..self
        }
    }

    /// The proposal after its execution.
    pub open spec fn executed(self) -> ProposalView {
        ProposalView { status: ProposalStatus::Executed, ..self }
    }
}

/// Copies a list of votes.
pub fn clone_votes(votes: &Vec<Vote>) -> (copy: Vec<Vote>)
    ensures
        vote_views(copy@) == vote_views(votes@),
{
    let mut copy: Vec<Vote> = Vec::new();
    let mut i: usize = 0;
    while i < votes.len()
        invariant
            i <= votes.len(),
            copy@.len() == i,
            forall|k: int| 0 <= k < i ==> copy@[k]@ == votes@[k]@,
        decreases votes.len() - i,
    {
        copy.push(votes[i].clone());
        i += 1;
    }
    copy
}

impl Clone for Proposal {
    fn clone(&self) -> (copy: Proposal)
        ensures
            copy@ == self@,
    {
        Proposal {
            id: self.id.clone(),
            title: self.title.clone(),
            description: self.description.clone(),
            creator: self.creator.clone(),
            created_at: self.created_at,
            voting_start: self.voting_start,
            voting_end: self.voting_end,
            status: self.status,
            votes: clone_votes(&self.votes),
            required_votes: self.required_votes,
            budget_amount: self.budget_amount,
        }
    }
}

/// The sums of weights stay within what the tally can count.
proof fn lemma_weights_bounded(votes: Seq<VoteView>)
    ensures
        yes_weight(votes) <= total_weight(votes) <= votes.len() * u64::MAX,
    decreases votes.len(),
{
    if votes.len() > 0 {
        lemma_weights_bounded(votes.drop_last());
    }
}

impl Proposal {
    /// The weight of all votes cast and the weight of those in favour.
    pub fn tally(&self) -> (sums: (u128, u128))
        ensures
            sums.0 == total_weight(self@.votes),
            sums.1 == yes_weight(self@.votes),
    {
        let mut total: u128 = 0;
        let mut yes: u128 = 0;
        let mut i: usize = 0;
        while i < self.votes.len()
            invariant
                i <= self.votes.len(),
                total == total_weight(self@.votes.take(i as int)),
                yes == yes_weight(self@.votes.take(i as int)),
            decreases self.votes.len() - i,
        {
            proof {
                let upto = self@.votes.take(i + 1);
                assert(upto.drop_last() =~= self@.votes.take(i as int));
                lemma_weights_bounded(upto);
            }
            let vote = &self.votes[i];
            total = total + vote.weight as u128;
            match vote.choice {
                VoteChoice::Yes => {
                    yes = yes + vote.weight as u128;
                },
                _ => {},
            }
            i += 1;
        }
        assert(self@.votes.take(i as int) =~= self@.votes);
        (total, yes)
    }

    /// Whether the votes cast so far let the proposal pass.
    pub fn passes(&self) -> (ok: bool)
        ensures
            ok == self@.passes(),
    {
        let (total, yes) = self.tally();
        total >= self.required_votes as u128 && yes > total / 2
    }

    /// Records a vote: it replaces the voter's earlier vote, or is added as
    /// a new one. The proposal is marked as passed as soon as the votes let
    /// it pass.
    pub fn record_vote(&mut self, vote: Vote)
        ensures
            final(self)@ == old(self)@.with_vote(vote@),
            one_vote_each(old(self)@.votes) ==> one_vote_each(final(self)@.votes),
    {
        proof {
            if one_vote_each(self@.votes) {
                law_one_vote_each(self@.votes, vote@);
            }
        }
        let ghost before = self@.votes;
        let ghost incoming = vote@;
        let mut i: usize = 0;
        let mut found: bool = false;
        while i < self.votes.len()
            invariant_except_break
                !found,
                forall|j: int| 0 <= j < i ==> (#[trigger] before[j]).voter != vote@.voter,
            invariant
                i <= self.votes.len(),
                self@.votes == before,
                *self == *old(self),
            ensures
                i <= self.votes.len(),
                self@.votes == before,
                *self == *old(self),
                found ==> is_first_vote(before, vote@.voter, i as int),
                !found ==> !has_voted(before, vote@.voter),
            decreases self.votes.len() - i,
        {
            if self.votes[i].voter == vote.voter {
                found = true;
                break ;
            }
            i += 1;
        }
        if found {
            self.votes.set(i, vote);
            assert(self@.votes =~= before.update(i as int, incoming));
        } else {
            self.votes.push(vote);
            assert(self@.votes =~= before.push(incoming));
        }
        if self.passes() {
            self.status = ProposalStatus::Passed;
        }
    }
}

/// The community budget. Amounts are whole numbers of the smallest unit.
#[derive(Debug, Clone, PartialEq, Eq)]
pub struct CommunityBudget {
    pub total_amount: i64,
    pub allocated_amount: i64,
    /// The identifiers of the executed proposals, in order of execution.
    pub proposals: Vec<String>,
}

/// The community budget as a mathematical value.
pub struct BudgetView {
    pub total_amount: i64,
    pub allocated_amount: i64,
    pub proposals: Seq<Seq<char>>,
}

impl View for CommunityBudget {
    type V = BudgetView;

    open spec fn view(&self) -> BudgetView {
        BudgetView {
            total_amount: self.total_amount,
            allocated_amount: self.allocated_amount,
            proposals: self.proposals@.map_values(|id: String| id@),
        }
    }
}

impl BudgetView {
    /// The budget after `amount` is allocated to the proposal `id`.
    pub open spec fn allocated(self, id: Seq<char>, amount: i64) -> BudgetView {
        BudgetView {
            allocated_amount: (self.allocated_amount + amount) as i64,
            proposals: self.proposals.push(id),
            ..self
        }
    }
}

/// Why a proposal was not executed.
#[derive(Debug, Clone, Copy, PartialEq, Eq, Structural)]
pub enum GovernanceError {
    /// The allocated amount would leave the range that can be recorded.
    BudgetOverflow,
}

/// The state of governance as a mathematical value.
pub struct GovernanceView {
    pub proposals: Map<Seq<char>, ProposalView>,
    pub budget: BudgetView,
    pub voting_power: Map<Seq<char>, u64>,
}

impl GovernanceView {
    /// The state after a proposal is filed under its identifier, in place
    /// of any earlier proposal with the same identifier.
    pub open spec fn with_proposal(self, p: ProposalView) -> GovernanceView {
        GovernanceView { proposals: self.proposals.insert(p.id, p), ..self }
    }

    /// The state after a vote is cast: the proposal it names records the
    /// vote; a vote on an unknown proposal changes nothing.
    pub open spec fn with_vote(self, vote: VoteView) -> GovernanceView {
        if self.proposals.contains_key(vote.proposal_id) {
            GovernanceView {
                proposals: self.proposals.insert(
                    vote.proposal_id,
                    self.proposals[vote.proposal_id].with_vote(vote),
                ),
                ..self
            }
        } else {
            self
        }
    }

    /// Whether executing `id` changes anything: the proposal exists and has
    /// passed.
    pub open spec fn is_executable(self, id: Seq<char>) -> bool {
        self.proposals.contains_key(id) && self.proposals[id].status == ProposalStatus::Passed
    }

    /// Whether the budget can record the allocation for `id`.
    pub open spec fn allocation_fits(self, id: Seq<char>) -> bool {
        i64::MIN <= self.budget.allocated_amount + self.proposals[id].budget_amount <= i64::MAX
    }

    /// The state after the proposal `id` is executed: its amount is
    /// allocated, its identifier noted, and it is marked as executed.
    pub open spec fn executed(self, id: Seq<char>) -> GovernanceView {
        GovernanceView {
            proposals: self.proposals.insert(id, self.proposals[id].executed()),
            budget: self.budget.allocated(id, self.proposals[id].budget_amount),
            ..self
        }
    }

    /// The voting power of a user: what was recorded, or zero.
    pub open spec fn power_of(self, user: Seq<char>) -> u64 {
        if self.voting_power.contains_key(user) {
            self.voting_power[user]
        } else {
            0
        }
    }
}

/// The state of governance: proposals by identifier, the community budget,
/// and the voting power of each user.
pub struct Governance {
    pub proposals: StringHashMap<Proposal>,
    pub community_budget: CommunityBudget,
    pub voting_power: StringHashMap<u64>,
}

impl View for Governance {
    type V = GovernanceView;

    open spec fn view(&self) -> GovernanceView {
        GovernanceView {
            proposals: self.proposals@.map_values(|p: Proposal| p@),
            budget: self.community_budget@,
            voting_power: self.voting_power@,
        }
    }
}

impl Governance {
    /// No proposals, an empty budget, no voting power recorded.
    pub fn new() -> (governance: Governance)
        ensures
            governance@.proposals == Map::<Seq<char>, ProposalView>::empty(),
            governance@.voting_power == Map::<Seq<char>, u64>::empty(),
            governance@.budget == (BudgetView {
                total_amount: 0,
                allocated_amount: 0,
                proposals: Seq::empty(),
            }),
    {
        let governance = Governance {
            proposals: StringHashMap::new(),
            community_budget: CommunityBudget {
                total_amount: 0,
                allocated_amount: 0,
                proposals: Vec::new(),
            },
            voting_power: StringHashMap::new(),
        };
        assert(governance@.budget.proposals =~= Seq::<Seq<char>>::empty());
        governance
    }

    /// Files a proposal under its identifier.
    pub fn create_proposal(&mut self, proposal: Proposal)
        ensures
            final(self)@ == old(self)@.with_proposal(proposal@),
    {
        self.proposals.insert(proposal.id.clone(), proposal);
        assert(self@.proposals =~= old(self)@.proposals.insert(proposal@.id, proposal@));
    }

    /// Casts a vote on the proposal it names.
    pub fn cast_vote(&mut self, vote: Vote)
        ensures
            final(self)@ == old(self)@.with_vote(vote@),
    {
        let found = self.proposals.get(vote.proposal_id.as_str());
        match found {
            Some(proposal) => {
                let mut updated = proposal.clone();
                let key = vote.proposal_id.clone();
                let ghost incoming = vote@;
                updated.record_vote(vote);
                self.proposals.insert(key, updated);
                assert(self@.proposals =~= old(self)@.proposals.insert(
                    incoming.proposal_id,
                    old(self)@.proposals[incoming.proposal_id].with_vote(incoming),
                ));
            },
            None => {},
        }
    }

    /// Whether the votes cast on `proposal` let it pass.
    pub fn check_proposal_status(&self, proposal: &Proposal) -> (ok: bool)
        ensures
            ok == proposal@.passes(),
    {
        proposal.passes()
    }

    /// Executes a passed proposal: allocates its amount from the community
    /// budget and marks it as executed. A proposal that is unknown or has
    /// not passed is left alone. Where the allocated amount would leave the
    /// range that can be recorded, nothing changes and the overflow is
    /// reported.
    pub fn execute_proposal(&mut self, proposal_id: &str) -> (outcome: Result<
        (),
        GovernanceError,
    >)
        ensures
            !old(self)@.is_executable(proposal_id@) ==> {
                &&& outcome is Ok
                &&& final(self)@ == old(self)@
            },
            old(self)@.is_executable(proposal_id@) && !old(self)@.allocation_fits(proposal_id@)
                ==> {
                &&& outcome == Err::<(), GovernanceError>(GovernanceError::BudgetOverflow)
                &&& final(self)@ == old(self)@
            },
            old(self)@.is_executable(proposal_id@) && old(self)@.allocation_fits(proposal_id@)
                ==> {
                &&& outcome is Ok
                &&& final(self)@ == old(self)@.executed(proposal_id@)
            },
    {
        let found = self.proposals.get(proposal_id);
        match found {
            Some(proposal) => {
                match proposal.status {
                    ProposalStatus::Passed => {
                        match self.community_budget.allocated_amount.checked_add(
                            proposal.budget_amount,
                        ) {
                            Some(sum) => {
                                let mut updated = proposal.clone();
                                updated.status = ProposalStatus::Executed;
                                self.community_budget.allocated_amount = sum;
                                self.community_budget.proposals.push(proposal_id.to_owned());
                                self.proposals.insert(proposal_id.to_owned(), updated);
                                proof {
                                    let before = old(self)@;
                                    assert(self@.proposals =~= before.proposals.insert(
                                        proposal_id@,
                                        before.proposals[proposal_id@].executed(),
                                    ));
                                    assert(self@.budget.proposals =~= before.budget.proposals.push(
                                        proposal_id@,
                                    ));
                                }
                                Ok(())
                            },
                            None => Err(GovernanceError::BudgetOverflow),
                        }
                    },
                    _ => Ok(()),
                }
            },
            None => Ok(()),
        }
    }

    /// Records the voting power of a user.
    pub fn update_voting_power(&mut self, user_id: &str, power: u64)
        ensures
            final(self)@ == (GovernanceView {
                voting_power: old(self)@.voting_power.insert(user_id@, power),
                ..old(self)@
            }),
    {
        self.voting_power.insert(user_id.to_owned(), power);
    }

    /// The voting power of a user: what was recorded, or zero.
    pub fn get_voting_power(&self, user_id: &str) -> (power: u64)
        ensures
            power == self@.power_of(user_id@),
    {
        match self.voting_power.get(user_id) {
            Some(power) => *power,
            None => 0,
        }
    }
}

} // verus!
