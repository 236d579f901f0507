//! The proposal engine's store and its typed accessors.

use crate::address::Address;
use crate::governor::proposal::Proposal;
use crate::governor::types::GovernanceConfig;
use std::collections::HashMap;
use vstd::prelude::*;

verus! {

broadcast use vstd::std_specs::hash::group_hash_axioms;

/// A vote as recorded: who voted on what, which way and with what weight.
#[derive(Clone, Copy, Debug, PartialEq, Eq, Structural)]
pub struct VoteRecord {
    pub proposal_id: u64,
    pub voter: Address,
    /// `true` for a vote in favour.
    pub support: bool,
    /// The voter's power at the creation of the proposal.
    pub weight: u64,
}

/// Sum of the weights of the recorded votes on `proposal_id` that went the
/// way of `support`.
pub open spec fn tally(votes: Seq<VoteRecord>, proposal_id: u64, support: bool) -> int
    decreases votes.len(),
{
    if votes.len() == 0 {
        0
    } else {
        tally(votes.drop_last(), proposal_id, support) + (if votes.last().proposal_id
            == proposal_id && votes.last().support == support {
            votes.last().weight as int
        } else {
            0
        })
    }
}

/// The position of the vote of `voter` on `proposal_id` among `votes`, if
/// there is one.
pub open spec fn voted_at(votes: Seq<VoteRecord>, proposal_id: u64, voter: Address, i: int)
    -> bool {
    0 <= i < votes.len() && votes[i].proposal_id == proposal_id && votes[i].voter == voter
}

/// Whether `voter` has a recorded vote on `proposal_id`.
pub open spec fn voted(votes: Seq<VoteRecord>, proposal_id: u64, voter: Address) -> bool {
    exists|i: int| voted_at(votes, proposal_id, voter, i)
}

/// No voter has two recorded votes on one proposal.
pub open spec fn one_vote_each(votes: Seq<VoteRecord>) -> bool {
    forall|i: int, j: int|
        0 <= i < j < votes.len() ==> !(#[trigger] votes[i].proposal_id
            == #[trigger] votes[j].proposal_id && votes[i].voter == votes[j].voter)
}

/// Sum of the weights of the recorded votes on `proposal_id`, whichever way
/// they went.
pub open spec fn total_weight(votes: Seq<VoteRecord>, proposal_id: u64) -> int
    decreases votes.len(),
{
    if votes.len() == 0 {
        0
    } else {
        total_weight(votes.drop_last(), proposal_id) + (if votes.last().proposal_id
            == proposal_id {
            votes.last().weight as int
        } else {
            0
        })
    }
}

/// The weights recorded on a proposal are those recorded for it and those
/// recorded against it.
pub proof fn lemma_total_weight_splits(votes: Seq<VoteRecord>, proposal_id: u64)
    ensures
        total_weight(votes, proposal_id) == tally(votes, proposal_id, true) + tally(
            votes,
            proposal_id,
            false,
        ),
    decreases votes.len(),
{
    if votes.len() > 0 {
        lemma_total_weight_splits(votes.drop_last(), proposal_id);
    }
}

/// Recording a vote adds its weight to the tally it belongs to and leaves
/// every other tally as it was.
pub proof fn lemma_tally_push(votes: Seq<VoteRecord>, record: VoteRecord)
    ensures
        forall|id: u64, support: bool|
            #[trigger] tally(votes.push(record), id, support) == tally(votes, id, support) + (
            if record.proposal_id == id && record.support == support {
                record.weight as int
            } else {
                0
            }),
{
    assert(votes.push(record).drop_last() =~= votes);
}

/// A proposal on which no vote is recorded has empty tallies.
pub proof fn lemma_tally_none(votes: Seq<VoteRecord>, proposal_id: u64, support: bool)
    requires
        forall|i: int| 0 <= i < votes.len() ==> votes[i].proposal_id != proposal_id,
    ensures
        tally(votes, proposal_id, support) == 0,
    decreases votes.len(),
{
    if votes.len() > 0 {
        lemma_tally_none(votes.drop_last(), proposal_id, support);
    }
}

/// Everything the proposal engine persists.
#[derive(Clone, Debug)]
pub struct Storage {
    /// The reputation ledger.
    pub valocracy: Option<Address>,
    /// Number of proposals made; also the id of the last one.
    pub proposal_count: u64,
    /// Proposal id to proposal.
    pub proposals: HashMap<u64, Proposal>,
    /// The votes cast, in the order in which they were cast.
    pub votes: Vec<VoteRecord>,
    /// Whether a guarded operation is under way.
    pub locked: bool,
    /// The rules in force.
    pub config: Option<GovernanceConfig>,
}

impl Storage {
    /// The proposal `proposal_id`, if there is one.
    pub open spec fn proposal(&self, proposal_id: u64) -> Option<Proposal> {
        if self.proposals@.contains_key(proposal_id) {
            Some(self.proposals@[proposal_id])
        } else {
            None
        }
    }

    /// The store of an engine that has not been initialized.
    pub fn new() -> (r: Storage)
        ensures
            r.valocracy is None,
            r.proposal_count == 0,
            r.proposals@ == Map::<u64, Proposal>::empty(),
            r.votes@.len() == 0,
            !r.locked,
            r.config is None,
    {
        Storage {
            valocracy: None,
            proposal_count: 0,
            proposals: HashMap::new(),
            votes: Vec::new(),
            locked: false,
            config: None,
        }
    }
}

/// The reputation ledger.
pub fn get_valocracy(store: &Storage) -> (r: Option<Address>)
    ensures
        r == store.valocracy,
{
    store.valocracy
}

/// Sets the reputation ledger.
pub fn set_valocracy(store: &mut Storage, valocracy: &Address)
    ensures
        *final(store) == (Storage { valocracy: Some(*valocracy), ..*old(store) }),
{
    store.valocracy = Some(*valocracy);
}

/// Number of proposals made.
pub fn get_proposal_count(store: &Storage) -> (r: u64)
    ensures
        r == store.proposal_count,
{
    store.proposal_count
}

/// Sets the number of proposals made.
pub fn set_proposal_count(store: &mut Storage, count: u64)
    ensures
        *final(store) == (Storage { proposal_count: count, ..*old(store) }),
{
    store.proposal_count = count;
}

/// The proposal `proposal_id`.
pub fn get_proposal(store: &Storage, proposal_id: u64) -> (r: Option<&Proposal>)
    ensures
        match r {
            Some(p) => store.proposal(proposal_id) == Some(*p),
            None => store.proposal(proposal_id) is None,
        },
{
    store.proposals.get(&proposal_id)
}

/// Stores a proposal under `proposal_id`.
pub fn set_proposal(store: &mut Storage, proposal_id: u64, proposal: Proposal)
    ensures
        *final(store) == (Storage { proposals: final(store).proposals, ..*old(store) }),
        final(store).proposals@ == old(store).proposals@.insert(proposal_id, proposal),
{
    store.proposals.insert(proposal_id, proposal);
}

/// Takes the proposal `proposal_id` out of the store, to be put back changed.
pub fn take_proposal(store: &mut Storage, proposal_id: u64) -> (r: Option<Proposal>)
    ensures
        r == old(store).proposal(proposal_id),
        *final(store) == (Storage { proposals: final(store).proposals, ..*old(store) }),
        final(store).proposals@ == old(store).proposals@.remove(proposal_id),
{
    store.proposals.remove(&proposal_id)
}

/// Which way `voter` voted on `proposal_id`, if at all.
pub fn get_vote(store: &Storage, proposal_id: u64, voter: &Address) -> (r: Option<bool>)
    ensures
        match r {
            Some(support) => exists|i: int|
                voted_at(store.votes@, proposal_id, *voter, i) && store.votes@[i].support
                    == support,
            None => !voted(store.votes@, proposal_id, *voter),
        },
{
    let mut i: usize = 0;
    while i < store.votes.len()
        invariant
            i <= store.votes@.len(),
            forall|j: int| 0 <= j < i ==> !voted_at(store.votes@, proposal_id, *voter, j),
        decreases store.votes@.len() - i,
    {
        if store.votes[i].proposal_id == proposal_id && store.votes[i].voter == *voter {
            assert(voted_at(store.votes@, proposal_id, *voter, i as int));
            return Some(store.votes[i].support);
        }
        i += 1;
    }
    None
}

/// Records a vote.
pub fn set_vote(store: &mut Storage, proposal_id: u64, voter: &Address, support: bool, weight: u64)
    ensures
        *final(store) == (Storage { votes: final(store).votes, ..*old(store) }),
        final(store).votes@ == old(store).votes@.push(
            VoteRecord { proposal_id, voter: *voter, support, weight },
        ),
{
    store.votes.push(VoteRecord { proposal_id, voter: *voter, support, weight });
}

/// Whether `voter` has a recorded vote on `proposal_id`.
pub fn has_voted(store: &Storage, proposal_id: u64, voter: &Address) -> (r: bool)
    ensures
        r == voted(store.votes@, proposal_id, *voter),
{
    get_vote(store, proposal_id, voter).is_some()
}

/// Whether a guarded operation is under way.
pub fn is_locked(store: &Storage) -> (r: bool)
    ensures
        r == store.locked,
{
    store.locked
}

/// Locks the engine.
pub fn acquire_lock(store: &mut Storage)
    ensures
        *final(store) == (Storage { locked: true, ..*old(store) }),
{
    store.locked = true;
}

/// Unlocks the engine.
pub fn release_lock(store: &mut Storage)
    ensures
        *final(store) == (Storage { locked: false, ..*old(store) }),
{
    store.locked = false;
}

/// The rules in force.
pub fn get_config(store: &Storage) -> (r: Option<GovernanceConfig>)
    ensures
        r == store.config,
{
    store.config
}

/// Sets the rules in force.
pub fn set_config(store: &mut Storage, config: &GovernanceConfig)
    ensures
        *final(store) == (Storage { config: Some(*config), ..*old(store) }),
{
    store.config = Some(*config);
}

} // verus!
