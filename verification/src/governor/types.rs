//! The rules that proposals are held to.

use vstd::prelude::*;

verus! {

#[derive(Clone, Copy, Debug, PartialEq, Eq, Structural)]
pub struct GovernanceConfig {
    /// Seconds between the creation of a proposal and the start of voting.
    pub voting_delay: u64,
    /// Seconds that voting lasts.
    pub voting_period: u64,
    /// The least voting power with which a member may propose.
    pub proposal_threshold: u64,
    /// The least share of the votes cast, in percent, that must be in favour.
    pub quorum_percentage: u64,
    /// The least share of the total voting power at creation, in percent,
    /// that must have voted.
    pub participation_threshold: u64,
}

impl GovernanceConfig {
    /// One day of delay, seven days of voting, a threshold of 100, approval
    /// by 51 percent and a turnout of 4 percent.
    pub fn default() -> (r: GovernanceConfig)
        ensures
            r == (GovernanceConfig {
                voting_delay: 86400,
                voting_period: 604800,
                proposal_threshold: 100,
                quorum_percentage: 51,
                participation_threshold: 4,
            }),
    {
        GovernanceConfig {
            voting_delay: 86400,
            voting_period: 604800,
            proposal_threshold: 100,
            quorum_percentage: 51,
            participation_threshold: 4,
        }
    }
}

} // verus!
