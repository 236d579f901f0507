//! The proposal engine: proposals, snapshot-weighted votes and execution.

use crate::address::{Address, Auth};
use crate::governor::proposal::{Action, Proposal, ProposalState};
use crate::governor::storage::{
    acquire_lock, get_config, get_proposal, get_proposal_count, get_valocracy, has_voted,
    is_locked, lemma_tally_none, lemma_tally_push, one_vote_each, release_lock, set_config,
    set_proposal, set_proposal_count, set_valocracy, set_vote, take_proposal, tally,
    lemma_total_weight_splits, total_weight, voted, voted_at, Storage, VoteRecord,
};
use crate::governor::types::GovernanceConfig;
use crate::governor::voting::{calculate_vote_weight, meets_minimum_threshold};
use crate::valocracy::ValocracyContract;
use vstd::prelude::*;

pub mod proposal;
pub mod storage;
pub mod types;
pub mod voting;

verus! {

broadcast use vstd::std_specs::hash::group_hash_axioms;

#[derive(Copy, Clone, Debug, PartialEq, Eq, Structural, Hash)]
pub enum GovernorError {
    /// The engine has already been initialized.
    AlreadyInitialized,
    /// The engine has not been initialized, or no rules are set.
    NotInitialized,
    /// The required principal did not authorize the call.
    NotAuthorized,
    /// There is no such proposal.
    ProposalNotFound,
    /// Voting on the proposal has not started.
    VotingNotStarted,
    /// Voting on the proposal is over.
    VotingEnded,
    /// The voter has already voted on the proposal.
    AlreadyVoted,
    /// The voter's power at the creation of the proposal is zero, or the
    /// proposer's power is under the proposal threshold.
    NoVotingPower,
    /// The proposal has not succeeded.
    ProposalNotSucceeded,
    /// The proposal has already been carried out.
    ProposalAlreadyExecuted,
    /// The proposal is in no state for the operation.
    InvalidProposalState,
    /// The proposer is no member.
    NotAMember,
    /// A guarded operation was entered while another was under way.
    ReentrancyDetected,
}

impl GovernorError {
    /// The numeric code under which the error is reported to callers.
    pub open spec fn spec_code(self) -> u32 {
        match self {
            GovernorError::AlreadyInitialized => 1,
            GovernorError::NotInitialized => 2,
            GovernorError::NotAuthorized => 3,
            GovernorError::ProposalNotFound => 4,
            GovernorError::VotingNotStarted => 5,
            GovernorError::VotingEnded => 6,
            GovernorError::AlreadyVoted => 7,
            GovernorError::NoVotingPower => 8,
            GovernorError::ProposalNotSucceeded => 9,
            GovernorError::ProposalAlreadyExecuted => 10,
            GovernorError::InvalidProposalState => 11,
            GovernorError::NotAMember => 12,
            GovernorError::ReentrancyDetected => 13,
        }
    }

    /// The numeric code under which the error is reported to callers.
    pub fn code(&self) -> (r: u32)
        ensures
            r == self.spec_code(),
    {
        match self {
            GovernorError::AlreadyInitialized => 1,
            GovernorError::NotInitialized => 2,
            GovernorError::NotAuthorized => 3,
            GovernorError::ProposalNotFound => 4,
            GovernorError::VotingNotStarted => 5,
            GovernorError::VotingEnded => 6,
            GovernorError::AlreadyVoted => 7,
            GovernorError::NoVotingPower => 8,
            GovernorError::ProposalNotSucceeded => 9,
            GovernorError::ProposalAlreadyExecuted => 10,
            GovernorError::InvalidProposalState => 11,
            GovernorError::NotAMember => 12,
            GovernorError::ReentrancyDetected => 13,
        }
    }
}

/// The proposal engine.
#[derive(Clone, Debug)]
pub struct GovernorContract {
    /// The engine's own identity: the principal that its own executions act
    /// as.
    pub address: Address,
    pub store: Storage,
}

impl GovernorContract {
    /// Every proposal is stored under its id, which is at most the number of
    /// proposals made; was made with a positive measure of turnout; starts
    /// its voting no earlier than it was made and ends it no earlier than it
    /// starts; and has as tallies the sums of the weights of the votes
    /// recorded for it and against it. No voter has two recorded votes on one proposal, and every
    /// recorded vote is on a proposal that was made. An engine that has not
    /// been initialized has no proposals.
    pub open spec fn inv(&self) -> bool {
        &&& forall|id: u64| #[trigger]
            self.store.proposals@.contains_key(id) ==> {
                let p = self.store.proposals@[id];
                &&& p.id == id
                &&& 1 <= id <= self.store.proposal_count
                &&& p.total_mana_at_creation > 0
                &&& p.creation_time <= p.start_time <= p.end_time
                &&& p.for_votes == tally(self.store.votes@, id, true)
                &&& p.against_votes == tally(self.store.votes@, id, false)
            }
        &&& one_vote_each(self.store.votes@)
        &&& forall|i: int|
            0 <= i < self.store.votes@.len() ==> 1 <= (#[trigger] self.store.votes@[i]).proposal_id
                <= self.store.proposal_count
        &&& self.store.valocracy is None ==> self.store.proposal_count == 0
    }

    /// The rules in force and nothing against a proposal by `proposer` at
    /// time `now`, or the first reason against it.
    pub open spec fn spec_propose_check(
        &self,
        ledger: ValocracyContract,
        auth: Auth,
        proposer: Address,
        now: u64,
    ) -> Result<GovernanceConfig, GovernorError> {
        if !auth.has(proposer) {
            Err(GovernorError::NotAuthorized)
        } else if self.store.locked {
            Err(GovernorError::ReentrancyDetected)
        } else if self.store.valocracy is None {
            Err(GovernorError::NotInitialized)
        } else if ledger.spec_level_of(proposer) == 0 {
            Err(GovernorError::NotAMember)
        } else {
            match self.store.config {
                None => Err(GovernorError::NotInitialized),
                Some(config) => if ledger.spec_votes_at(proposer, now)
                    < config.proposal_threshold {
                    Err(GovernorError::NoVotingPower)
                } else {
                    Ok(config)
                },
            }
        }
    }

    /// The weight of a vote by `voter` on `proposal_id` at time `now`, or the
    /// first reason against the vote. The weight is the voter's power at the
    /// creation of the proposal, by the ledger as it stands at the vote.
    pub open spec fn spec_cast_vote_check(
        &self,
        ledger: ValocracyContract,
        auth: Auth,
        voter: Address,
        proposal_id: u64,
        now: u64,
    ) -> Result<u64, GovernorError> {
        if !auth.has(voter) {
            Err(GovernorError::NotAuthorized)
        } else {
            match self.store.proposal(proposal_id) {
                None => Err(GovernorError::ProposalNotFound),
                Some(p) => if now < p.start_time {
                    Err(GovernorError::VotingNotStarted)
                } else if now > p.end_time {
                    Err(GovernorError::VotingEnded)
                } else if voted(self.store.votes@, proposal_id, voter) {
                    Err(GovernorError::AlreadyVoted)
                } else if self.store.locked {
                    Err(GovernorError::ReentrancyDetected)
                } else if self.store.valocracy is None {
                    Err(GovernorError::NotInitialized)
                } else if ledger.spec_votes_at(voter, p.creation_time) == 0 {
                    Err(GovernorError::NoVotingPower)
                } else {
                    Ok(ledger.spec_votes_at(voter, p.creation_time) as u64)
                },
            }
        }
    }

    /// The state of proposal `proposal_id` at time `now`, or why it has none.
    pub open spec fn spec_proposal_state(&self, proposal_id: u64, now: u64) -> Result<
        ProposalState,
        GovernorError,
    > {
        match self.store.proposal(proposal_id) {
            None => Err(GovernorError::ProposalNotFound),
            Some(p) => p.spec_state(self.store.config, now),
        }
    }

    /// What stands against carrying out proposal `proposal_id` at time `now`,
    /// if anything.
    pub open spec fn spec_execute_check(&self, proposal_id: u64, now: u64) -> Result<
        (),
        GovernorError,
    > {
        match self.store.proposal(proposal_id) {
            None => Err(GovernorError::ProposalNotFound),
            Some(p) => if p.executed {
                Err(GovernorError::ProposalAlreadyExecuted)
            } else {
                match self.spec_proposal_state(proposal_id, now) {
                    Err(e) => Err(e),
                    Ok(s) => if s != ProposalState::Succeeded {
                        Err(GovernorError::ProposalNotSucceeded)
                    } else if self.store.locked {
                        Err(GovernorError::ReentrancyDetected)
                    } else {
                        Ok(())
                    },
                }
            },
        }
    }

    /// The times, the id and the measure of turnout of a proposal by
    /// `proposer` at time `now` fit their types, as does the proposer's power.
    pub open spec fn spec_propose_fits(
        &self,
        ledger: ValocracyContract,
        auth: Auth,
        proposer: Address,
        now: u64,
    ) -> bool {
        &&& ledger.spec_votes_at(proposer, now) <= u64::MAX
        &&& self.spec_propose_check(ledger, auth, proposer, now) matches Ok(config) ==> {
            &&& self.store.proposal_count < u64::MAX
            &&& now + config.voting_delay + config.voting_period <= u64::MAX
            &&& ledger.spec_total_mana() <= u64::MAX
        }
    }

    /// The weight of a vote by `voter` on `proposal_id` fits its type, and so
    /// does the tally that the vote adds to.
    pub open spec fn spec_cast_vote_fits(
        &self,
        ledger: ValocracyContract,
        auth: Auth,
        voter: Address,
        proposal_id: u64,
        support: bool,
        now: u64,
    ) -> bool {
        &&& self.store.proposal(proposal_id) matches Some(p) ==> ledger.spec_votes_at(
            voter,
            p.creation_time,
        ) <= u64::MAX
        &&& self.spec_cast_vote_check(ledger, auth, voter, proposal_id, now) matches Ok(weight)
            ==> (if support {
            self.store.proposals@[proposal_id].for_votes + weight <= u64::MAX
        } else {
            self.store.proposals@[proposal_id].against_votes + weight <= u64::MAX
        })
    }

    /// An engine with the identity `address` that has not been initialized.
    pub fn new(address: Address) -> (r: GovernorContract)
        ensures
            r.inv(),
            r.address == address,
            r.store.valocracy is None,
            r.store.proposal_count == 0,
            r.store.proposals@ == Map::<u64, Proposal>::empty(),
            r.store.votes@.len() == 0,
            !r.store.locked,
            r.store.config is None,
    {
        GovernorContract { address, store: Storage::new() }
    }

    /// Sets the engine up with the reputation ledger `valocracy` and the
    /// default rules. Good once.
    pub fn initialize(&mut self, valocracy: Address) -> (r: Result<(), GovernorError>)
        ensures
            old(self).inv() ==> final(self).inv(),
            final(self).address == old(self).address,
            match r {
                Ok(_) => old(self).store.valocracy is None && final(self).store == (Storage {
                    valocracy: Some(valocracy),
                    proposal_count: 0,
                    config: Some(
                        GovernanceConfig {
                            voting_delay: 86400,
                            voting_period: 604800,
                            proposal_threshold: 100,
                            quorum_percentage: 51,
                            participation_threshold: 4,
                        },
                    ),
                    ..old(self).store
                }),
                Err(e) => old(self).store.valocracy is Some && e
                    == GovernorError::AlreadyInitialized && *final(self) == *old(self),
            },
    {
        if get_valocracy(&self.store).is_some() {
            return Err(GovernorError::AlreadyInitialized);
        }
        set_valocracy(&mut self.store, &valocracy);
        set_proposal_count(&mut self.store, 0);
        let config = GovernanceConfig::default();
        set_config(&mut self.store, &config);
        Ok(())
    }

    /// Replaces the rules. Only the engine itself may do so: a change of
    /// rules is the action of a proposal that the engine carries out.
    pub fn update_config(&mut self, auth: &Auth, config: GovernanceConfig) -> (r: Result<
        (),
        GovernorError,
    >)
        ensures
            old(self).inv() ==> final(self).inv(),
            final(self).address == old(self).address,
            r == (if old(self).store.valocracy is None {
                Err::<(), GovernorError>(GovernorError::NotInitialized)
            } else if !auth.has(old(self).address) {
                Err(GovernorError::NotAuthorized)
            } else {
                Ok(())
            }),
            match r {
                Ok(_) => final(self).store == (Storage {
                    config: Some(config),
                    ..old(self).store
                }),
                Err(_) => *final(self) == *old(self),
            },
    {
        if get_valocracy(&self.store).is_none() {
            return Err(GovernorError::NotInitialized);
        }
        if !auth.require_auth(&self.address) {
            return Err(GovernorError::NotAuthorized);
        }
        set_config(&mut self.store, &config);
        Ok(())
    }

    /// The power of `voter` at the present time `now`, by the ledger.
    fn get_voting_power(ledger: &ValocracyContract, voter: &Address, now: u64) -> (r: u64)
        requires
            ledger.spec_votes_at(*voter, now) <= u64::MAX,
        ensures
            r == ledger.spec_votes_at(*voter, now),
    {
        ledger.get_votes(voter, now)
    }

    /// The power of `voter` at time `timestamp`, by the ledger as it stands:
    /// the snapshot that a vote is weighed by.
    fn get_voting_power_at(ledger: &ValocracyContract, voter: &Address, timestamp: u64) -> (r:
        u64)
        requires
            ledger.spec_votes_at(*voter, timestamp) <= u64::MAX,
        ensures
            r == ledger.spec_votes_at(*voter, timestamp),
    {
        ledger.get_votes_at(voter, timestamp)
    }

    /// Whether a proposal by `proposer` at time `now` can be made within the
    /// range of the numbers involved.
    pub fn propose_fits(
        &self,
        ledger: &ValocracyContract,
        auth: &Auth,
        proposer: &Address,
        now: u64,
    ) -> (r: bool)
        ensures
            r == self.spec_propose_fits(*ledger, *auth, *proposer, now),
    {
        let voting_power = match ledger.checked_votes_at(proposer, now) {
            Some(power) => power,
            None => {
                return false;
            },
        };
        if !auth.require_auth(proposer) || is_locked(&self.store) || get_valocracy(
            &self.store,
        ).is_none() || ledger.level_of(proposer) == 0 {
            return true;
        }
        match get_config(&self.store) {
            None => true,
            Some(config) => {
                if voting_power < config.proposal_threshold {
                    return true;
                }
                let end = match now.checked_add(config.voting_delay) {
                    Some(start) => start.checked_add(config.voting_period),
                    None => None,
                };
                get_proposal_count(&self.store) < u64::MAX && end.is_some()
                    && ledger.checked_total_mana().is_some()
            },
        }
    }

    /// Whether the vote of `voter` on `proposal_id` can be cast within the
    /// range of the numbers involved.
    pub fn cast_vote_fits(
        &self,
        ledger: &ValocracyContract,
        auth: &Auth,
        voter: &Address,
        proposal_id: u64,
        support: bool,
        now: u64,
    ) -> (r: bool)
        ensures
            r == self.spec_cast_vote_fits(*ledger, *auth, *voter, proposal_id, support, now),
    {
        let proposal = match get_proposal(&self.store, proposal_id) {
            Some(proposal) => proposal,
            None => {
                return true;
            },
        };
        let weight = match ledger.checked_votes_at(voter, proposal.creation_time) {
            Some(weight) => weight,
            None => {
                return false;
            },
        };
        if !auth.require_auth(voter) || now < proposal.start_time || now > proposal.end_time
            || has_voted(&self.store, proposal_id, voter) || is_locked(&self.store)
            || get_valocracy(&self.store).is_none() || weight == 0 {
            return true;
        }
        if support {
            proposal.for_votes <= u64::MAX - weight
        } else {
            proposal.against_votes <= u64::MAX - weight
        }
    }

    /// Makes a proposal.
    ///
    /// The proposer must be a member whose power at `now` reaches the
    /// proposal threshold. Voting starts after the voting delay and lasts for
    /// the voting period. The ledger's lower bound of the total voting power
    /// is kept with the proposal as the measure of turnout. Returns the id of
    /// the proposal: one more than that of the last.
    pub fn propose(
        &mut self,
        ledger: &ValocracyContract,
        auth: &Auth,
        proposer: Address,
        description: String,
        actions: Vec<Action>,
        now: u64,
    ) -> (r: Result<u64, GovernorError>)
        requires
            old(self).spec_propose_fits(*ledger, *auth, proposer, now),
        ensures
            old(self).inv() && ledger.inv() ==> final(self).inv(),
            final(self).address == old(self).address,
            match r {
                Ok(id) => {
                    &&& old(self).spec_propose_check(*ledger, *auth, proposer, now) matches Ok(
                        config,
                    )
                    &&& id == old(self).store.proposal_count + 1
                    &&& final(self).store == (Storage {
                        proposal_count: id,
                        proposals: final(self).store.proposals,
                        ..old(self).store
                    })
                    &&& final(self).store.proposals@ == old(self).store.proposals@.insert(
                        id,
                        Proposal {
                            id,
                            proposer,
                            description,
                            creation_time: now,
                            start_time: (now + config.voting_delay) as u64,
                            end_time: (now + config.voting_delay + config.voting_period) as u64,
                            for_votes: 0,
                            against_votes: 0,
                            executed: false,
                            actions,
                            total_mana_at_creation: ledger.spec_total_mana() as u64,
                        },
                    )
                },
                Err(e) => old(self).spec_propose_check(*ledger, *auth, proposer, now) == Err::<
                    GovernanceConfig,
                    GovernorError,
                >(e) && *final(self) == *old(self),
            },
    {
        if !auth.require_auth(&proposer) {
            return Err(GovernorError::NotAuthorized);
        }
        if is_locked(&self.store) {
            return Err(GovernorError::ReentrancyDetected);
        }
        if get_valocracy(&self.store).is_none() {
            return Err(GovernorError::NotInitialized);
        }
        let level = ledger.level_of(&proposer);
        if level == 0 {
            return Err(GovernorError::NotAMember);
        }
        let config = match get_config(&self.store) {
            Some(config) => config,
            None => {
                return Err(GovernorError::NotInitialized);
            },
        };
        let voting_power = Self::get_voting_power(ledger, &proposer, now);
        if voting_power < config.proposal_threshold {
            return Err(GovernorError::NoVotingPower);
        }
        let current_time = now;
        let proposal_count = get_proposal_count(&self.store);
        let proposal_id = proposal_count + 1;
        let total_mana = ledger.total_mana();
        let proposal = Proposal {
            id: proposal_id,
            proposer,
            description,
            creation_time: current_time,
            start_time: current_time + config.voting_delay,
            end_time: current_time + config.voting_delay + config.voting_period,
            for_votes: 0,
            against_votes: 0,
            executed: false,
            actions,
            total_mana_at_creation: total_mana,
        };
        proof {
            if self.inv() {
                assert forall|i: int|
                    0 <= i < self.store.votes@.len() implies self.store.votes@[i].proposal_id
                    != proposal_id by {
                    assert(self.store.votes@[i].proposal_id <= self.store.proposal_count);
                }
                lemma_tally_none(self.store.votes@, proposal_id, true);
                lemma_tally_none(self.store.votes@, proposal_id, false);
            }
        }
        set_proposal(&mut self.store, proposal_id, proposal);
        set_proposal_count(&mut self.store, proposal_id);
        Ok(proposal_id)
    }

    /// Casts the vote of `voter` on proposal `proposal_id`.
    ///
    /// Votes are accepted from the start of voting to its end, both included,
    /// once per voter. The weight of the vote is the voter's power at the
    /// creation of the proposal, by the voter's record as the ledger has it
    /// when the vote is cast. It does not depend on the time of the vote:
    /// decay since the creation does not count, and no choice of the moment
    /// changes the weight. A weight of zero is refused. Returns the weight.
    pub fn cast_vote(
        &mut self,
        ledger: &ValocracyContract,
        auth: &Auth,
        voter: Address,
        proposal_id: u64,
        support: bool,
        now: u64,
    ) -> (r: Result<u64, GovernorError>)
        requires
            old(self).spec_cast_vote_fits(*ledger, *auth, voter, proposal_id, support, now),
        ensures
            old(self).inv() ==> final(self).inv(),
            final(self).address == old(self).address,
            r == old(self).spec_cast_vote_check(*ledger, *auth, voter, proposal_id, now),
            match r {
                Ok(weight) => {
                    let p = old(self).store.proposals@[proposal_id];
                    &&& weight == ledger.spec_votes_at(voter, p.creation_time)
                    &&& weight > 0
                    &&& final(self).store == (Storage {
                        proposals: final(self).store.proposals,
                        votes: final(self).store.votes,
                        ..old(self).store
                    })
                    &&& final(self).store.proposals@ == old(self).store.proposals@.insert(
                        proposal_id,
                        if support {
                            Proposal { for_votes: (p.for_votes + weight) as u64, ..p }
                        } else {
                            Proposal { against_votes: (p.against_votes + weight) as u64, ..p }
                        },
                    )
                    &&& final(self).store.votes@ == old(self).store.votes@.push(
                        VoteRecord { proposal_id, voter, support, weight },
                    )
                },
                Err(_) => *final(self) == *old(self),
            },
    {
        if !auth.require_auth(&voter) {
            return Err(GovernorError::NotAuthorized);
        }
        let creation_time = match get_proposal(&self.store, proposal_id) {
            None => {
                return Err(GovernorError::ProposalNotFound);
            },
            Some(proposal) => {
                if now < proposal.start_time {
                    return Err(GovernorError::VotingNotStarted);
                }
                if now > proposal.end_time {
                    return Err(GovernorError::VotingEnded);
                }
                proposal.creation_time
            },
        };
        if has_voted(&self.store, proposal_id, &voter) {
            return Err(GovernorError::AlreadyVoted);
        }
        if is_locked(&self.store) {
            return Err(GovernorError::ReentrancyDetected);
        }
        if get_valocracy(&self.store).is_none() {
            return Err(GovernorError::NotInitialized);
        }
        let voting_power = Self::get_voting_power_at(ledger, &voter, creation_time);
        if !meets_minimum_threshold(voting_power) {
            return Err(GovernorError::NoVotingPower);
        }
        let weight = calculate_vote_weight(voting_power);

        let ghost pre = self.store;
        let mut proposal = match take_proposal(&mut self.store, proposal_id) {
            Some(proposal) => proposal,
            None => {
                return Err(GovernorError::ProposalNotFound);
            },
        };
        if support {
            proposal.for_votes = proposal.for_votes + weight;
        } else {
            proposal.against_votes = proposal.against_votes + weight;
        }
        let ghost updated = proposal;
        set_proposal(&mut self.store, proposal_id, proposal);
        set_vote(&mut self.store, proposal_id, &voter, support, weight);
        proof {
            let record = VoteRecord { proposal_id, voter, support, weight };
            assert(self.store.proposals@ =~= pre.proposals@.insert(proposal_id, updated));
            lemma_tally_push(pre.votes@, record);
            if old(self).inv() {
                assert forall|i: int, j: int|
                    0 <= i < j < self.store.votes@.len() implies !(
                #[trigger] self.store.votes@[i].proposal_id
                    == #[trigger] self.store.votes@[j].proposal_id && self.store.votes@[i].voter
                    == self.store.votes@[j].voter) by {
                    if j == pre.votes@.len() {
                        assert(!voted_at(pre.votes@, proposal_id, voter, i));
                    }
                }
                assert forall|id: u64| #[trigger]
                    self.store.proposals@.contains_key(id) implies {
                    let p = self.store.proposals@[id];
                    &&& p.id == id
                    &&& 1 <= id <= self.store.proposal_count
                    &&& p.total_mana_at_creation > 0
                    &&& p.creation_time <= p.start_time <= p.end_time
                    &&& p.for_votes == tally(self.store.votes@, id, true)
                    &&& p.against_votes == tally(self.store.votes@, id, false)
                } by {
                    assert(pre.proposals@.contains_key(id));
                }
            }
        }
        Ok(weight)
    }

    /// Starts carrying out proposal `proposal_id`, which must have succeeded
    /// and not been carried out before.
    ///
    /// The proposal is marked as executed before any of its actions runs, and
    /// the engine is locked. The proposal's actions are then the caller's to
    /// invoke, in order; a failure of any of them undoes the whole execution.
    /// `complete` unlocks the engine when they are done.
    pub fn execute(&mut self, proposal_id: u64, now: u64) -> (r: Result<(), GovernorError>)
        ensures
            old(self).inv() ==> final(self).inv(),
            final(self).address == old(self).address,
            r == old(self).spec_execute_check(proposal_id, now),
            match r {
                Ok(_) => {
                    &&& final(self).store == (Storage {
                        proposals: final(self).store.proposals,
                        locked: true,
                        ..old(self).store
                    })
                    &&& final(self).store.proposals@ == old(self).store.proposals@.insert(
                        proposal_id,
                        Proposal { executed: true, ..old(self).store.proposals@[proposal_id] },
                    )
                },
                Err(_) => *final(self) == *old(self),
            },
    {
        match get_proposal(&self.store, proposal_id) {
            None => {
                return Err(GovernorError::ProposalNotFound);
            },
            Some(proposal) => {
                if proposal.executed {
                    return Err(GovernorError::ProposalAlreadyExecuted);
                }
            },
        }
        let state = match self.get_proposal_state(proposal_id, now) {
            Ok(state) => state,
            Err(e) => {
                return Err(e);
            },
        };
        if state != ProposalState::Succeeded {
            return Err(GovernorError::ProposalNotSucceeded);
        }
        if is_locked(&self.store) {
            return Err(GovernorError::ReentrancyDetected);
        }
        let mut proposal = match take_proposal(&mut self.store, proposal_id) {
            Some(proposal) => proposal,
            None => {
                return Err(GovernorError::ProposalNotFound);
            },
        };
        proposal.executed = true;
        set_proposal(&mut self.store, proposal_id, proposal);
        acquire_lock(&mut self.store);
        Ok(())
    }

    /// Ends an execution: unlocks the engine.
    pub fn complete(&mut self)
        ensures
            old(self).inv() ==> final(self).inv(),
            final(self).address == old(self).address,
            final(self).store == (Storage { locked: false, ..old(self).store }),
    {
        release_lock(&mut self.store);
    }

    /// The proposal `proposal_id`.
    pub fn get_proposal(&self, proposal_id: u64) -> (r: Option<&Proposal>)
        ensures
            match r {
                Some(p) => self.store.proposal(proposal_id) == Some(*p),
                None => self.store.proposal(proposal_id) is None,
            },
    {
        get_proposal(&self.store, proposal_id)
    }

    /// The state of proposal `proposal_id` at time `now`.
    ///
    /// Executed once carried out. Else pending before the start of voting and
    /// active up to and including its end. After that, defeated without a
    /// vote; else by turnout and approval under the rules in force. Every
    /// proposal that the engine made has a measure of turnout, and so a state
    /// wherever rules are set.
    pub fn get_proposal_state(&self, proposal_id: u64, now: u64) -> (r: Result<
        ProposalState,
        GovernorError,
    >)
        ensures
            r == self.spec_proposal_state(proposal_id, now),
            self.inv() ==> r != Err::<ProposalState, GovernorError>(
                GovernorError::InvalidProposalState,
            ),
    {
        let proposal = match get_proposal(&self.store, proposal_id) {
            Some(proposal) => proposal,
            None => {
                return Err(GovernorError::ProposalNotFound);
            },
        };
        let config = get_config(&self.store);
        proposal.state(&config, now)
    }

    /// Number of proposals made.
    pub fn proposal_count(&self) -> (r: u64)
        ensures
            r == self.store.proposal_count,
    {
        get_proposal_count(&self.store)
    }

    /// Whether `voter` has voted on proposal `proposal_id`.
    pub fn has_voted(&self, proposal_id: u64, voter: &Address) -> (r: bool)
        ensures
            r == voted(self.store.votes@, proposal_id, *voter),
    {
        has_voted(&self.store, proposal_id, voter)
    }

    /// The reputation ledger.
    pub fn valocracy(&self) -> (r: Option<Address>)
        ensures
            r == self.store.valocracy,
    {
        get_valocracy(&self.store)
    }

    /// Whether an execution is under way.
    pub fn locked(&self) -> (r: bool)
        ensures
            r == self.store.locked,
    {
        is_locked(&self.store)
    }

    /// Decides whether the engine's code may be replaced by the code with
    /// hash `new_wasm_hash`: only the engine itself may do so. Returns the
    /// hash to install.
    pub fn upgrade(&self, auth: &Auth, new_wasm_hash: [u8; 32]) -> (r: Result<
        [u8; 32],
        GovernorError,
    >)
        ensures
            r == (if auth.has(self.address) {
                Ok::<[u8; 32], GovernorError>(new_wasm_hash)
            } else {
                Err(GovernorError::NotAuthorized)
            }),
    {
        if !auth.require_auth(&self.address) {
            return Err(GovernorError::NotAuthorized);
        }
        Ok(new_wasm_hash)
    }
}

/// The weight of a vote does not depend on when it is cast: at any two times
/// at which the vote is accepted it is the voter's power at the creation of
/// the proposal.
pub proof fn lemma_vote_weight_is_snapshot(
    governor: GovernorContract,
    ledger: ValocracyContract,
    auth: Auth,
    voter: Address,
    proposal_id: u64,
    first: u64,
    second: u64,
)
    requires
        governor.spec_cast_vote_check(ledger, auth, voter, proposal_id, first) is Ok,
        governor.spec_cast_vote_check(ledger, auth, voter, proposal_id, second) is Ok,
    ensures
        governor.spec_cast_vote_check(ledger, auth, voter, proposal_id, first)
            == governor.spec_cast_vote_check(ledger, auth, voter, proposal_id, second),
        governor.store.proposals@.contains_key(proposal_id),
        governor.spec_cast_vote_check(ledger, auth, voter, proposal_id, first)->Ok_0
            == ledger.spec_votes_at(
            voter,
            governor.store.proposals@[proposal_id].creation_time,
        ) as u64,
{
}

/// The tallies of a proposal add up to the weights of the votes recorded on
/// it, and a voter has at most one recorded vote on it.
pub proof fn lemma_votes_conserved(governor: GovernorContract, proposal_id: u64)
    requires
        governor.inv(),
        governor.store.proposals@.contains_key(proposal_id),
    ensures
        governor.store.proposals@[proposal_id].for_votes
            + governor.store.proposals@[proposal_id].against_votes == total_weight(
            governor.store.votes@,
            proposal_id,
        ),
        forall|voter: Address, i: int, j: int|
            voted_at(governor.store.votes@, proposal_id, voter, i) && voted_at(
                governor.store.votes@,
                proposal_id,
                voter,
                j,
            ) ==> i == j,
{
    lemma_total_weight_splits(governor.store.votes@, proposal_id);
    let votes = governor.store.votes@;
    assert forall|voter: Address, i: int, j: int|
        voted_at(votes, proposal_id, voter, i) && voted_at(
            votes,
            proposal_id,
            voter,
            j,
        ) implies i == j by {
        if i < j {
            assert(!(votes[i].proposal_id == votes[j].proposal_id && votes[i].voter
                == votes[j].voter));
        } else if j < i {
            assert(!(votes[j].proposal_id == votes[i].proposal_id && votes[j].voter
                == votes[i].voter));
        }
    }
}

} // verus!
