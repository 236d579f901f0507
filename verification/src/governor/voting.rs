//! How a voting power counts as a vote.

use vstd::prelude::*;

verus! {

/// Whether a voting power is enough to vote at all: any power above zero.
pub fn meets_minimum_threshold(voting_power: u64) -> (r: bool)
    ensures
        r == (voting_power > 0),
{
    voting_power > 0
}

/// The weight of a vote cast with `voting_power`: the power itself.
pub fn calculate_vote_weight(voting_power: u64) -> (r: u64)
    ensures
        r == voting_power,
{
    voting_power
}

} // verus!
