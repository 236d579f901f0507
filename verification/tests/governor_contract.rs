use valocracy::address::{Address, Auth};
use valocracy::governor::proposal::{outcome, Action, Proposal, ProposalState, Val};
use valocracy::governor::storage::{
    acquire_lock, get_config, get_vote, release_lock, set_proposal, set_proposal_count,
};
use valocracy::governor::types::GovernanceConfig;
use valocracy::governor::voting::{calculate_vote_weight, meets_minimum_threshold};
use valocracy::governor::{GovernorContract, GovernorError};
use valocracy::valocracy::ValocracyContract;

fn addr(n: u128) -> Address {
    Address::account(0, n)
}

fn governor_id() -> Address {
    Address::contract(0, 1000)
}

fn valocracy_id() -> Address {
    Address::contract(0, 3000)
}

fn treasury() -> Address {
    Address::contract(0, 2000)
}

/// A ledger with the given badge types, whose genesis members hold one badge
/// of the type `leadership` each, granted at time 0.
fn ledger_with(
    genesis: Vec<Address>,
    ids: Vec<u64>,
    rarities: Vec<u64>,
    names: Vec<&str>,
    leadership: u64,
) -> ValocracyContract {
    let mut ledger = ValocracyContract::new();
    let first = genesis[0];
    ledger
        .initialize(
            &Auth::single(first),
            genesis,
            governor_id(),
            treasury(),
            0,
            ids,
            rarities,
            names.into_iter().map(String::from).collect(),
            leadership,
            [0u8; 32],
            0,
        )
        .unwrap();
    ledger
}

fn engine() -> GovernorContract {
    let mut governor = GovernorContract::new(governor_id());
    governor.initialize(valocracy_id()).unwrap();
    governor
}

fn propose(
    governor: &mut GovernorContract,
    ledger: &ValocracyContract,
    proposer: Address,
    description: &str,
    now: u64,
) -> Result<u64, GovernorError> {
    governor.propose(
        ledger,
        &Auth::single(proposer),
        proposer,
        String::from(description),
        Vec::new(),
        now,
    )
}

fn cast_vote(
    governor: &mut GovernorContract,
    ledger: &ValocracyContract,
    voter: Address,
    proposal_id: u64,
    support: bool,
    now: u64,
) -> Result<u64, GovernorError> {
    governor.cast_vote(ledger, &Auth::single(voter), voter, proposal_id, support, now)
}

#[test]
fn test_initialize_and_config() {
    let mut governor = GovernorContract::new(governor_id());
    governor.initialize(valocracy_id()).unwrap();

    // Verify re-initialization fails
    let res = governor.initialize(valocracy_id());
    assert!(res.is_err());
    assert_eq!(res, Err(GovernorError::AlreadyInitialized));

    assert_eq!(governor.valocracy(), Some(valocracy_id()));
    assert_eq!(governor.proposal_count(), 0);
    assert_eq!(
        get_config(&governor.store),
        Some(GovernanceConfig {
            voting_delay: 86400,
            voting_period: 604800,
            proposal_threshold: 100,
            quorum_percentage: 51,
            participation_threshold: 4,
        })
    );
    assert_eq!(get_config(&governor.store), Some(GovernanceConfig::default()));
}

#[test]
fn test_settings_update() {
    let mut governor = engine();

    let new_config = GovernanceConfig {
        voting_delay: 3600,
        voting_period: 86400,
        proposal_threshold: 100,
        quorum_percentage: 10,
        participation_threshold: 4,
    };

    // Calling directly fails: the rules change only by the engine's own act.
    let res = governor.update_config(&Auth::none(), new_config);
    assert!(res.is_err());
    assert_eq!(res, Err(GovernorError::NotAuthorized));
    let res = governor.update_config(&Auth::single(addr(1)), new_config);
    assert_eq!(res, Err(GovernorError::NotAuthorized));
    assert_eq!(get_config(&governor.store), Some(GovernanceConfig::default()));

    let res = governor.update_config(&Auth::single(governor_id()), new_config);
    assert_eq!(res, Ok(()));
    assert_eq!(get_config(&governor.store), Some(new_config));

    let mut fresh = GovernorContract::new(governor_id());
    assert_eq!(
        fresh.update_config(&Auth::single(governor_id()), new_config),
        Err(GovernorError::NotInitialized)
    );
}

#[test]
fn test_upgrade_access() {
    let governor = engine();
    let new_wasm_hash = [0u8; 32];

    // Call upgrade without auth -> Fail
    let res = governor.upgrade(&Auth::none(), new_wasm_hash);
    assert!(res.is_err());
    assert_eq!(res, Err(GovernorError::NotAuthorized));
    assert_eq!(governor.upgrade(&Auth::single(governor_id()), new_wasm_hash), Ok([0u8; 32]));
}

#[test]
fn test_voting_power_snapshot() {
    let mut governor = engine();
    let founder = addr(1);
    let ledger = ledger_with(
        vec![founder],
        vec![0, 1, 10],
        vec![5, 100, 20],
        vec!["Member", "Founder", "Leadership"],
        1,
    );
    let voter = founder;
    let mut now = 0u64;

    let proposal_id = 1u64;
    assert_eq!(propose(&mut governor, &ledger, voter, "Test Proposal", now), Ok(proposal_id));

    // The snapshot is the power at the creation of the proposal.
    let creation_time = governor.get_proposal(proposal_id).unwrap().creation_time;
    let snapshot_mana = ledger.get_votes_at(&voter, creation_time);

    // Voting delay is 1 day (86400), voting period is 7 days (604800)
    now += 86401;

    let voting_power_used = cast_vote(&mut governor, &ledger, voter, proposal_id, true, now);

    assert_eq!(voting_power_used, Ok(snapshot_mana));
    assert_eq!(snapshot_mana, 100);
    assert!(ledger.get_votes(&voter, now) < snapshot_mana);

    let proposal_after = governor.get_proposal(proposal_id).unwrap();
    assert_eq!(proposal_after.for_votes, snapshot_mana);
}

#[test]
fn test_flash_voting_prevented() {
    let mut governor = engine();
    let founder = addr(1);
    let ledger = ledger_with(
        vec![founder],
        vec![0, 1, 10, 70],
        vec![5, 100, 20, 50],
        vec!["Member", "Founder", "Leadership", "Governance"],
        1,
    );
    let mut now = 0u64;

    let proposal_id = 1u64;
    propose(&mut governor, &ledger, founder, "Important Governance Decision", now).unwrap();

    let proposal = governor.get_proposal(proposal_id).unwrap();
    let snapshot_mana = ledger.get_votes_at(&founder, proposal.creation_time);
    let at_start = ledger.get_votes_at(&founder, proposal.start_time);

    now += 86401;

    let voting_power_used =
        cast_vote(&mut governor, &ledger, founder, proposal_id, true, now).unwrap();

    // The weight is the power at creation, not the power at the start of
    // voting nor at the vote.
    assert_eq!(voting_power_used, snapshot_mana);
    assert_eq!(at_start, 5 + (95 * (15_552_000 - 86_400)) / 15_552_000);
    assert!(at_start < voting_power_used);

    let proposal_after = governor.get_proposal(proposal_id).unwrap();
    assert_eq!(proposal_after.for_votes, snapshot_mana);
}

#[test]
fn test_consistent_voting_power_across_voters() {
    let founder = addr(1);
    let ledger = ledger_with(
        vec![founder],
        vec![0, 1, 10],
        vec![5, 100, 30],
        vec!["Member", "Founder", "Leadership"],
        1,
    );

    // Whenever in the voting period the vote is cast, its weight is the same.
    let mut weights = Vec::new();
    for vote_time in [86_400u64, 86_401, 300_000, 86_400 + 604_800] {
        let mut governor = engine();
        propose(&mut governor, &ledger, founder, "Test Consistency", 0).unwrap();
        let creation_time = governor.get_proposal(1).unwrap().creation_time;
        let snapshot_mana = ledger.get_votes_at(&founder, creation_time);
        let power = cast_vote(&mut governor, &ledger, founder, 1, true, vote_time).unwrap();
        assert_eq!(power, snapshot_mana);
        weights.push(power);
    }
    assert_eq!(weights, vec![100, 100, 100, 100]);
}

#[test]
fn test_single_vote_cannot_pass() {
    let mut governor = engine();
    let founder = addr(1);
    let ledger =
        ledger_with(vec![founder], vec![0, 1], vec![5, 100], vec!["Member", "Founder"], 1);
    let mut now = 0u64;

    // One badge issued: the lower bound of the total power is one floor.
    let total_mana = ledger.total_mana();
    assert_eq!(total_mana, 5);

    let proposal_id = 1u64;
    propose(&mut governor, &ledger, founder, "Single Vote Test", now).unwrap();

    now += 86401;
    cast_vote(&mut governor, &ledger, founder, proposal_id, true, now).unwrap();
    now += 604801;

    let state = governor.get_proposal_state(proposal_id, now);
    // 100 votes against a measure of 5: the turnout is met, and so is the
    // approval.
    assert_eq!(state, Ok(ProposalState::Succeeded));

    let proposal = governor.get_proposal(proposal_id).unwrap();
    assert_eq!(proposal.total_mana_at_creation, 5);
}

#[test]
fn test_low_participation_defeats_proposal() {
    let mut governor = engine();
    let founder = addr(1);
    let ledger =
        ledger_with(vec![founder], vec![0, 1], vec![5, 100], vec!["Member", "Founder"], 1);
    let mut now = 0u64;

    let strict_config = GovernanceConfig {
        voting_delay: 86400,
        voting_period: 604800,
        proposal_threshold: 100,
        quorum_percentage: 51,
        participation_threshold: 90,
    };
    governor.update_config(&Auth::single(governor_id()), strict_config).unwrap();

    let proposal_id = 1u64;
    propose(&mut governor, &ledger, founder, "Test Low Participation", now).unwrap();

    now += 86401;
    cast_vote(&mut governor, &ledger, founder, proposal_id, true, now).unwrap();
    now += 604801;

    let proposal = governor.get_proposal(proposal_id).unwrap();

    let total_votes = proposal.for_votes + proposal.against_votes;
    let participation = (total_votes * 100) / proposal.total_mana_at_creation;
    assert_eq!(participation, 2000);

    assert!(proposal.total_mana_at_creation > 0);
    assert_eq!(governor.get_proposal_state(proposal_id, now), Ok(ProposalState::Succeeded));

    // Under rules that ask for more turnout than there was, the same tallies
    // are a defeat.
    let stricter = GovernanceConfig { participation_threshold: 2001, ..strict_config };
    governor.update_config(&Auth::single(governor_id()), stricter).unwrap();
    assert_eq!(governor.get_proposal_state(proposal_id, now), Ok(ProposalState::Defeated));
}

#[test]
fn test_krn03_demonstrates_correct_behavior() {
    let mut governor = engine();
    let genesis_alice = addr(1);
    let genesis_bob = addr(2);
    let mut ledger = ledger_with(
        vec![genesis_alice, genesis_bob, addr(3)],
        vec![0, 10, 50],
        vec![5, 100, 500],
        vec!["Member", "Leadership", "Whale"],
        10,
    );
    let mut now = 0u64;

    let creation_time = now;
    let proposal_id = 1u64;
    propose(&mut governor, &ledger, genesis_bob, "Important Decision", now).unwrap();

    let snapshot_at_creation = ledger.get_votes_at(&genesis_alice, creation_time);
    assert_eq!(snapshot_at_creation, 100);

    // Bob votes with his power at creation, half a day of decay
    // notwithstanding.
    now = creation_time + 86401;
    assert_eq!(ledger.get_votes(&genesis_bob, now), 99);
    assert_eq!(cast_vote(&mut governor, &ledger, genesis_bob, proposal_id, false, now), Ok(100));

    let proposal = governor.get_proposal(proposal_id).unwrap();
    assert_eq!(proposal.creation_time, creation_time);
    assert_eq!(proposal.start_time, creation_time + 86400);

    // A grant changes the record that the power is computed from: the weight
    // is the power at creation by the record as it stands at the vote.
    ledger.mint(&Auth::single(genesis_bob), &genesis_bob, &genesis_alice, 50, 43_200).unwrap();
    let expected = ledger.get_votes_at(&genesis_alice, creation_time);
    assert_eq!(
        cast_vote(&mut governor, &ledger, genesis_alice, proposal_id, true, now),
        Ok(expected)
    );
    assert_eq!(governor.get_proposal(proposal_id).unwrap().for_votes, expected);
}

#[test]
fn a_sole_vote_can_meet_both_thresholds() {
    // A measure of 5, a sole vote of weight 5 in favour.
    let config = GovernanceConfig::default();
    assert_eq!(config.participation_threshold, 4);
    assert_eq!(config.quorum_percentage, 51);
    assert_eq!(outcome(5, 0, 5, &config), ProposalState::Succeeded);

    let proposal = Proposal {
        id: 1,
        proposer: addr(1),
        description: String::from("sole voter"),
        creation_time: 0,
        start_time: 10,
        end_time: 20,
        for_votes: 5,
        against_votes: 0,
        executed: false,
        actions: Vec::new(),
        total_mana_at_creation: 5,
    };
    assert_eq!(proposal.state(&Some(config), 9), Ok(ProposalState::Pending));
    assert_eq!(proposal.state(&Some(config), 10), Ok(ProposalState::Active));
    assert_eq!(proposal.state(&Some(config), 20), Ok(ProposalState::Active));
    assert_eq!(proposal.state(&Some(config), 21), Ok(ProposalState::Succeeded));
    assert_eq!(proposal.state(&None, 20), Ok(ProposalState::Active));
    assert_eq!(proposal.state(&None, 21), Err(GovernorError::NotInitialized));

    // Without a measure of turnout there is no turnout to speak of.
    let unmeasured = Proposal { total_mana_at_creation: 0, ..proposal.clone() };
    assert_eq!(unmeasured.state(&Some(config), 20), Ok(ProposalState::Active));
    assert_eq!(unmeasured.state(&Some(config), 21), Err(GovernorError::InvalidProposalState));
    let unvoted = Proposal { for_votes: 0, ..unmeasured };
    assert_eq!(unvoted.state(&Some(config), 21), Ok(ProposalState::Defeated));
    let executed = Proposal { executed: true, ..unvoted };
    assert_eq!(executed.state(&None, 0), Ok(ProposalState::Executed));
}

#[test]
fn outcomes_round_down() {
    let config = GovernanceConfig {
        voting_delay: 0,
        voting_period: 0,
        proposal_threshold: 0,
        quorum_percentage: 51,
        participation_threshold: 4,
    };
    // No vote.
    assert_eq!(outcome(0, 0, 100, &config), ProposalState::Defeated);
    // Turnout 3.99 percent counts as 3.
    assert_eq!(outcome(399, 0, 10_000, &config), ProposalState::Defeated);
    assert_eq!(outcome(400, 0, 10_000, &config), ProposalState::Succeeded);
    // Approval 50.9 percent counts as 50.
    assert_eq!(outcome(509, 491, 1000, &config), ProposalState::Defeated);
    assert_eq!(outcome(510, 490, 1000, &config), ProposalState::Succeeded);
    // Votes against count towards the turnout.
    assert_eq!(outcome(0, 400, 10_000, &config), ProposalState::Defeated);
    // Tallies near the top of their range.
    assert_eq!(outcome(u64::MAX, u64::MAX, u64::MAX, &config), ProposalState::Defeated);
    assert_eq!(outcome(u64::MAX, 0, u64::MAX, &config), ProposalState::Succeeded);
}

#[test]
fn propose_refusals() {
    let founder = addr(1);
    let ledger = ledger_with(
        vec![founder, addr(2)],
        vec![0, 10],
        vec![5, 100],
        vec!["Member", "Leadership"],
        10,
    );
    let mut governor = engine();

    let r = governor.propose(&ledger, &Auth::none(), founder, String::new(), Vec::new(), 0);
    assert_eq!(r, Err(GovernorError::NotAuthorized));
    assert_eq!(propose(&mut governor, &ledger, addr(9), "x", 0), Err(GovernorError::NotAMember));
    // A member whose power has decayed under the threshold.
    assert_eq!(propose(&mut governor, &ledger, founder, "x", 1_000_000), Err(GovernorError::NoVotingPower));
    assert_eq!(governor.proposal_count(), 0);

    acquire_lock(&mut governor.store);
    assert_eq!(propose(&mut governor, &ledger, founder, "x", 0), Err(GovernorError::ReentrancyDetected));
    release_lock(&mut governor.store);

    let mut fresh = GovernorContract::new(governor_id());
    assert_eq!(propose(&mut fresh, &ledger, founder, "x", 0), Err(GovernorError::NotInitialized));

    assert_eq!(propose(&mut governor, &ledger, founder, "first", 0), Ok(1));
    // Seven seconds on, the power is just under the default threshold.
    assert_eq!(ledger.get_votes(&addr(2), 7), 99);
    assert_eq!(propose(&mut governor, &ledger, addr(2), "second", 7), Err(GovernorError::NoVotingPower));
    let config = GovernanceConfig { proposal_threshold: 99, ..GovernanceConfig::default() };
    governor.update_config(&Auth::single(governor_id()), config).unwrap();
    assert_eq!(propose(&mut governor, &ledger, addr(2), "second", 7), Ok(2));
    assert_eq!(governor.proposal_count(), 2);
    let second = governor.get_proposal(2).unwrap();
    assert_eq!(second.id, 2);
    assert_eq!(second.proposer, addr(2));
    assert_eq!(second.description, "second");
    assert_eq!(second.creation_time, 7);
    assert_eq!(second.start_time, 7 + 86_400);
    assert_eq!(second.end_time, 7 + 86_400 + 604_800);
    assert_eq!((second.for_votes, second.against_votes, second.executed), (0, 0, false));
    assert_eq!(second.total_mana_at_creation, 10);
    assert!(governor.get_proposal(3).is_none());
    assert!(governor.get_proposal(0).is_none());
}

#[test]
fn cast_vote_refusals() {
    let founder = addr(1);
    let ledger = ledger_with(
        vec![founder, addr(2)],
        vec![0, 10],
        vec![5, 100],
        vec!["Member", "Leadership"],
        10,
    );
    let mut governor = engine();
    propose(&mut governor, &ledger, founder, "x", 0).unwrap();
    let start = 86_400u64;
    let end = 86_400 + 604_800u64;

    let r = governor.cast_vote(&ledger, &Auth::single(addr(2)), founder, 1, true, start);
    assert_eq!(r, Err(GovernorError::NotAuthorized));
    assert_eq!(cast_vote(&mut governor, &ledger, founder, 2, true, start), Err(GovernorError::ProposalNotFound));
    assert_eq!(cast_vote(&mut governor, &ledger, founder, 1, true, start - 1), Err(GovernorError::VotingNotStarted));
    assert_eq!(cast_vote(&mut governor, &ledger, founder, 1, true, end + 1), Err(GovernorError::VotingEnded));
    assert_eq!(cast_vote(&mut governor, &ledger, addr(9), 1, true, start), Err(GovernorError::NoVotingPower));
    acquire_lock(&mut governor.store);
    assert_eq!(cast_vote(&mut governor, &ledger, founder, 1, true, start), Err(GovernorError::ReentrancyDetected));
    release_lock(&mut governor.store);
    assert!(!governor.has_voted(1, &founder));

    // Both ends of the voting period are inside it.
    assert_eq!(cast_vote(&mut governor, &ledger, founder, 1, true, start), Ok(100));
    assert_eq!(cast_vote(&mut governor, &ledger, addr(2), 1, false, end), Ok(100));
    assert!(governor.has_voted(1, &founder));
    assert_eq!(get_vote(&governor.store, 1, &founder), Some(true));
    assert_eq!(get_vote(&governor.store, 1, &addr(2)), Some(false));
    assert_eq!(get_vote(&governor.store, 1, &addr(3)), None);
    assert_eq!(cast_vote(&mut governor, &ledger, founder, 1, false, start), Err(GovernorError::AlreadyVoted));
    let p = governor.get_proposal(1).unwrap();
    assert_eq!((p.for_votes, p.against_votes), (100, 100));
    assert_eq!(governor.store.votes.len(), 2);
}

#[test]
fn execute_marks_before_the_actions_run() {
    let founder = addr(1);
    let ledger = ledger_with(vec![founder], vec![0, 10], vec![5, 100], vec!["Member", "Leadership"], 10);
    let mut governor = engine();
    let actions = vec![
        Action {
            contract_id: treasury(),
            function: String::from("transfer"),
            args: vec![Val::Address(addr(7)), Val::I128(1000)],
        },
        Action {
            contract_id: governor_id(),
            function: String::from("update_config"),
            args: vec![Val::U64(1), Val::U64(2), Val::Bool(true), Val::U32(3), Val::Void],
        },
    ];
    let id = governor
        .propose(&ledger, &Auth::single(founder), founder, String::from("pay"), actions, 0)
        .unwrap();
    let end = 86_400 + 604_800u64;

    assert_eq!(governor.execute(9, end + 1), Err(GovernorError::ProposalNotFound));
    // Pending, active, and closed without a vote.
    assert_eq!(governor.get_proposal_state(id, 0), Ok(ProposalState::Pending));
    assert_eq!(governor.execute(id, 0), Err(GovernorError::ProposalNotSucceeded));
    assert_eq!(governor.get_proposal_state(id, 86_400), Ok(ProposalState::Active));
    assert_eq!(governor.execute(id, 86_400), Err(GovernorError::ProposalNotSucceeded));
    assert_eq!(governor.get_proposal_state(id, end + 1), Ok(ProposalState::Defeated));
    assert_eq!(governor.execute(id, end + 1), Err(GovernorError::ProposalNotSucceeded));

    cast_vote(&mut governor, &ledger, founder, id, true, end).unwrap();
    assert_eq!(governor.get_proposal_state(id, end), Ok(ProposalState::Active));
    assert_eq!(governor.get_proposal_state(id, end + 1), Ok(ProposalState::Succeeded));

    acquire_lock(&mut governor.store);
    assert_eq!(governor.execute(id, end + 1), Err(GovernorError::ReentrancyDetected));
    release_lock(&mut governor.store);
    assert!(!governor.get_proposal(id).unwrap().executed);

    assert_eq!(governor.execute(id, end + 1), Ok(()));
    // Marked and locked while the actions are the caller's to run.
    assert!(governor.locked());
    let p = governor.get_proposal(id).unwrap();
    assert!(p.executed);
    assert_eq!(p.actions.len(), 2);
    assert_eq!(p.actions[0].contract_id, treasury());
    assert_eq!(p.actions[0].function, "transfer");
    assert_eq!(p.actions[0].args, vec![Val::Address(addr(7)), Val::I128(1000)]);
    assert_eq!(p.actions[1].function, "update_config");
    assert_eq!(governor.get_proposal_state(id, end + 1), Ok(ProposalState::Executed));
    // Nothing guarded gets in meanwhile.
    assert_eq!(propose(&mut governor, &ledger, founder, "nested", 0), Err(GovernorError::ReentrancyDetected));
    governor.complete();
    assert!(!governor.locked());

    assert_eq!(governor.execute(id, end + 1), Err(GovernorError::ProposalAlreadyExecuted));
    assert_eq!(governor.get_proposal_state(id, 0), Ok(ProposalState::Executed));
    assert_eq!(governor.get_proposal_state(id, u64::MAX), Ok(ProposalState::Executed));
    assert_eq!(governor.get_proposal_state(9, 0), Err(GovernorError::ProposalNotFound));
}

#[test]
fn vote_helpers() {
    assert!(!meets_minimum_threshold(0));
    assert!(meets_minimum_threshold(1));
    assert!(meets_minimum_threshold(u64::MAX));
    assert_eq!(calculate_vote_weight(0), 0);
    assert_eq!(calculate_vote_weight(77), 77);
}

#[test]
fn state_codes() {
    assert_eq!(ProposalState::Pending.code(), 0);
    assert_eq!(ProposalState::Active.code(), 1);
    assert_eq!(ProposalState::Succeeded.code(), 2);
    assert_eq!(ProposalState::Defeated.code(), 3);
    assert_eq!(ProposalState::Executed.code(), 4);
    assert_eq!(GovernorError::AlreadyInitialized.code(), 1);
    assert_eq!(GovernorError::NotInitialized.code(), 2);
    assert_eq!(GovernorError::NotAuthorized.code(), 3);
    assert_eq!(GovernorError::ProposalNotFound.code(), 4);
    assert_eq!(GovernorError::VotingNotStarted.code(), 5);
    assert_eq!(GovernorError::VotingEnded.code(), 6);
    assert_eq!(GovernorError::AlreadyVoted.code(), 7);
    assert_eq!(GovernorError::NoVotingPower.code(), 8);
    assert_eq!(GovernorError::ProposalNotSucceeded.code(), 9);
    assert_eq!(GovernorError::ProposalAlreadyExecuted.code(), 10);
    assert_eq!(GovernorError::InvalidProposalState.code(), 11);
    assert_eq!(GovernorError::NotAMember.code(), 12);
    assert_eq!(GovernorError::ReentrancyDetected.code(), 13);
}

#[test]
fn a_closed_vote_without_rules_has_no_state() {
    // A store in which a proposal was put without rules being set.
    let mut governor = GovernorContract::new(governor_id());
    set_proposal_count(&mut governor.store, 1);
    set_proposal(
        &mut governor.store,
        1,
        Proposal {
            id: 1,
            proposer: addr(1),
            description: String::new(),
            creation_time: 0,
            start_time: 0,
            end_time: 10,
            for_votes: 0,
            against_votes: 0,
            executed: false,
            actions: Vec::new(),
            total_mana_at_creation: 5,
        },
    );
    assert_eq!(governor.proposal_count(), 1);
    assert_eq!(governor.get_proposal(1).unwrap().end_time, 10);
    assert_eq!(governor.get_proposal_state(1, 11), Ok(ProposalState::Defeated));
    let ledger = ValocracyContract::new();
    acquire_lock(&mut governor.store);
    release_lock(&mut governor.store);
    set_proposal(
        &mut governor.store,
        1,
        Proposal {
            id: 1,
            proposer: addr(1),
            description: String::new(),
            creation_time: 0,
            start_time: 0,
            end_time: 10,
            for_votes: 3,
            against_votes: 0,
            executed: false,
            actions: Vec::new(),
            total_mana_at_creation: 5,
        },
    );
    assert_eq!(governor.get_proposal_state(1, 11), Err(GovernorError::NotInitialized));
    assert_eq!(governor.execute(1, 11), Err(GovernorError::NotInitialized));
    assert_eq!(
        cast_vote(&mut governor, &ledger, addr(1), 1, true, 5),
        Err(GovernorError::NotInitialized)
    );
}

#[test]
fn numbers_out_of_range_are_told_beforehand() {
    let founder = addr(1);
    let ledger = ledger_with(vec![founder], vec![0, 10], vec![5, u64::MAX], vec!["Member", "Leadership"], 10);
    let mut governor = engine();
    let auth = Auth::single(founder);

    // At the grant the power is the level; any time before it, more.
    assert_eq!(ledger.checked_votes_at(&founder, 0), Some(u64::MAX));
    assert!(governor.propose_fits(&ledger, &auth, &founder, 0));
    assert_eq!(propose(&mut governor, &ledger, founder, "x", 0), Ok(1));
    assert!(governor.cast_vote_fits(&ledger, &auth, &founder, 1, true, 86_400));
    assert_eq!(cast_vote(&mut governor, &ledger, founder, 1, true, 86_400), Ok(u64::MAX));

    // A second vote of any weight would take the tally out of range.
    let mut ledger = ledger;
    ledger.set_valor(&Auth::single(governor_id()), 20, 1, String::from("Track")).unwrap();
    ledger.mint(&Auth::single(governor_id()), &governor_id(), &addr(2), 20, 0).unwrap();
    assert_eq!(ledger.checked_votes_at(&addr(2), 0), Some(5));
    assert!(!governor.cast_vote_fits(&ledger, &Auth::single(addr(2)), &addr(2), 1, true, 86_400));
    assert!(governor.cast_vote_fits(&ledger, &Auth::single(addr(2)), &addr(2), 1, false, 86_400));
    // Where the vote is refused anyway nothing can overflow.
    assert!(governor.cast_vote_fits(&ledger, &Auth::none(), &addr(2), 1, true, 86_400));
    assert!(governor.cast_vote_fits(&ledger, &Auth::single(addr(2)), &addr(2), 9, true, 86_400));

    // A time too close to the end of time for a voting period.
    assert!(governor.propose_fits(&ledger, &auth, &founder, u64::MAX - 10));
    assert_eq!(
        propose(&mut governor, &ledger, founder, "x", u64::MAX - 10),
        Err(GovernorError::NoVotingPower)
    );
    let config = GovernanceConfig { proposal_threshold: 5, ..GovernanceConfig::default() };
    governor.update_config(&Auth::single(governor_id()), config).unwrap();
    assert!(!governor.propose_fits(&ledger, &auth, &founder, u64::MAX - 10));
    assert!(governor.propose_fits(&ledger, &auth, &founder, u64::MAX - 86_400 - 604_800));
    assert!(governor.propose_fits(&ledger, &Auth::none(), &founder, u64::MAX - 10));

    assert!(!ledger.grant_fits(&founder, 20, 0));
    assert!(ledger.grant_fits(&addr(2), 20, 0));
    assert!(!ledger.grant_fits(&addr(2), 20, u64::MAX));
    assert_eq!(ledger.checked_total_mana(), Some(10));
    assert_eq!(ValocracyContract::checked_calculate_mana(100, 0, 15_552_000, 7_776_000), Some(52));
    assert_eq!(ValocracyContract::checked_calculate_mana(u64::MAX, 0, u64::MAX, 0), None);
    assert_eq!(ValocracyContract::checked_calculate_mana(u64::MAX, 0, 15_552_001, 0), None);
    assert_eq!(
        ValocracyContract::checked_calculate_mana(u64::MAX, 0, 15_552_000, 0),
        Some(u64::MAX)
    );
}
