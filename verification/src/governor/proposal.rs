//! Proposals, their actions and their states.

use crate::address::Address;
use crate::governor::types::GovernanceConfig;
use crate::governor::GovernorError;
use vstd::prelude::*;

verus! {

/// Where a proposal stands.
#[derive(Clone, Copy, Debug, PartialEq, Eq, Structural)]
pub enum ProposalState {
    /// Voting has not started.
    Pending,
    /// Voting is under way.
    Active,
    /// Voting is over; turnout and approval were met.
    Succeeded,
    /// Voting is over; turnout or approval was missed.
    Defeated,
    /// The proposal has been carried out.
    Executed,
}

impl ProposalState {
    /// The numeric code of the state.
    pub fn code(&self) -> (r: u32)
        ensures
            r == (match *self {
                ProposalState::Pending => 0u32,
                ProposalState::Active => 1u32,
                ProposalState::Succeeded => 2u32,
                ProposalState::Defeated => 3u32,
                ProposalState::Executed => 4u32,
            }),
    {
        match self {
            ProposalState::Pending => 0,
            ProposalState::Active => 1,
            ProposalState::Succeeded => 2,
            ProposalState::Defeated => 3,
            ProposalState::Executed => 4,
        }
    }
}

/// An argument of an action.
#[derive(Clone, Copy, Debug, PartialEq, Eq, Structural)]
pub enum Val {
    Void,
    Bool(bool),
    U32(u32),
    U64(u64),
    I128(i128),
    Address(Address),
}

/// What a proposal does when carried out: one call, described and not
/// interpreted here.
#[derive(Clone, Debug)]
pub struct Action {
    /// The contract to call.
    pub contract_id: Address,
    /// The operation to invoke.
    pub function: String,
    /// Its arguments.
    pub args: Vec<Val>,
}

/// A proposal.
#[derive(Clone, Debug)]
pub struct Proposal {
    pub id: u64,
    /// The member that made the proposal.
    pub proposer: Address,
    pub description: String,
    /// When the proposal was made. Votes are weighed by the voters' power at
    /// this time.
    pub creation_time: u64,
    /// When voting starts.
    pub start_time: u64,
    /// When voting ends; votes are accepted up to and including this time.
    pub end_time: u64,
    /// Sum of the weights of the votes in favour.
    pub for_votes: u64,
    /// Sum of the weights of the votes against.
    pub against_votes: u64,
    /// Whether the proposal has been carried out.
    pub executed: bool,
    /// What the proposal does when carried out.
    pub actions: Vec<Action>,
    /// The ledger's lower bound of the total voting power when the proposal
    /// was made: the measure of turnout.
    pub total_mana_at_creation: u64,
}

/// How a closed proposal with the given tallies came out.
///
/// Without a vote it is defeated. Turnout is the votes cast as a percentage
/// of the total voting power at creation; under the participation threshold
/// the proposal is defeated whatever the approval. Approval is the votes in
/// favour as a percentage of the votes cast; it must reach the approval
/// threshold. Both percentages are rounded down.
pub open spec fn spec_outcome(
    for_votes: u64,
    against_votes: u64,
    total_mana_at_creation: u64,
    config: GovernanceConfig,
) -> ProposalState
    recommends
        total_mana_at_creation > 0,
{
    let total = for_votes + against_votes;
    if total == 0 {
        ProposalState::Defeated
    } else if (total * 100) / (total_mana_at_creation as int) < config.participation_threshold {
        ProposalState::Defeated
    } else if (for_votes * 100) / total >= config.quorum_percentage {
        ProposalState::Succeeded
    } else {
        ProposalState::Defeated
    }
}

/// How a closed proposal with the given tallies came out.
pub fn outcome(
    for_votes: u64,
    against_votes: u64,
    total_mana_at_creation: u64,
    config: &GovernanceConfig,
) -> (r: ProposalState)
    requires
        total_mana_at_creation > 0,
    ensures
        r == spec_outcome(for_votes, against_votes, total_mana_at_creation, *config),
{
    let total: u128 = (for_votes as u128) + (against_votes as u128);
    if total == 0 {
        return ProposalState::Defeated;
    }
    let participation_percentage: u128 = (total * 100) / (total_mana_at_creation as u128);
    if participation_percentage < (config.participation_threshold as u128) {
        return ProposalState::Defeated;
    }
    let for_percentage: u128 = ((for_votes as u128) * 100) / total;
    if for_percentage >= (config.quorum_percentage as u128) {
        ProposalState::Succeeded
    } else {
        ProposalState::Defeated
    }
}

impl Proposal {
    /// The state of the proposal at time `now` under the rules `config`.
    ///
    /// Executed once carried out. Else pending before the start of voting and
    /// active up to and including its end. After that, defeated without a
    /// vote; else by turnout and approval under the rules. A closed proposal
    /// with votes has no state where no rules are set, nor where its measure
    /// of turnout is zero.
    pub open spec fn spec_state(&self, config: Option<GovernanceConfig>, now: u64) -> Result<
        ProposalState,
        GovernorError,
    > {
        if self.executed {
            Ok(ProposalState::Executed)
        } else if now < self.start_time {
            Ok(ProposalState::Pending)
        } else if now <= self.end_time {
            Ok(ProposalState::Active)
        } else if self.for_votes + self.against_votes == 0 {
            Ok(ProposalState::Defeated)
        } else {
            match config {
                None => Err(GovernorError::NotInitialized),
                Some(c) => if self.total_mana_at_creation == 0 {
                    Err(GovernorError::InvalidProposalState)
                } else {
                    Ok(
                        spec_outcome(
                            self.for_votes,
                            self.against_votes,
                            self.total_mana_at_creation,
                            c,
                        ),
                    )
                },
            }
        }
    }

    /// The state of the proposal at time `now` under the rules `config`.
    pub fn state(&self, config: &Option<GovernanceConfig>, now: u64) -> (r: Result<
        ProposalState,
        GovernorError,
    >)
        ensures
            r == self.spec_state(*config, now),
    {
        if self.executed {
            return Ok(ProposalState::Executed);
        }
        if now < self.start_time {
            return Ok(ProposalState::Pending);
        }
        if now <= self.end_time {
            return Ok(ProposalState::Active);
        }
        if self.for_votes == 0 && self.against_votes == 0 {
            return Ok(ProposalState::Defeated);
        }
        match config {
            None => Err(GovernorError::NotInitialized),
            Some(c) => {
                if self.total_mana_at_creation == 0 {
                    return Err(GovernorError::InvalidProposalState);
                }
                Ok(outcome(self.for_votes, self.against_votes, self.total_mana_at_creation, c))
            },
        }
    }
}

/// How far a proposal in a given state has come: pending, active, closed,
/// carried out.
pub open spec fn spec_stage(state: ProposalState) -> int {
    match state {
        ProposalState::Pending => 0,
        ProposalState::Active => 1,
        ProposalState::Defeated => 2,
        ProposalState::Succeeded => 2,
        ProposalState::Executed => 3,
    }
}

/// A proposal does not go back: as time passes, with the votes and the rules
/// as they are, it stays at its stage or moves on, and once closed or carried
/// out it keeps its state.
pub proof fn lemma_state_advances(
    proposal: Proposal,
    config: Option<GovernanceConfig>,
    earlier: u64,
    later: u64,
)
    requires
        earlier <= later,
        proposal.start_time <= proposal.end_time,
        proposal.spec_state(config, earlier) is Ok,
        proposal.spec_state(config, later) is Ok,
    ensures
        spec_stage(proposal.spec_state(config, earlier)->Ok_0) <= spec_stage(
            proposal.spec_state(config, later)->Ok_0,
        ),
        spec_stage(proposal.spec_state(config, earlier)->Ok_0) >= 2 ==> proposal.spec_state(
            config,
            later,
        ) == proposal.spec_state(config, earlier),
{
}

} // verus!
