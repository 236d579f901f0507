//! Records of the reputation ledger.

use vstd::prelude::*;

verus! {

/// What the ledger keeps for a member.
#[derive(Clone, Copy, Debug, PartialEq, Eq, Structural)]
pub struct UserStats {
    /// Accumulated level: the sum of the rarities of the badges granted.
    pub level: u64,
    /// The part of the level that never decays.
    pub permanent_level: u64,
    /// The time, in seconds, at which the level has decayed to the floor.
    pub expiry: u64,
    /// Whether the member has completed identity verification.
    pub verified: bool,
}

/// A badge type.
#[derive(Debug)]
pub struct Valor {
    /// The weight that a badge of this type adds to its owner's level.
    pub rarity: u64,
    /// Description or URI.
    pub metadata: String,
}

impl Clone for Valor {
    fn clone(&self) -> (r: Valor)
        ensures
            r == *self,
    {
        Valor { rarity: self.rarity, metadata: self.metadata.clone() }
    }
}

} // verus!
