//! Rank tiers, derived from reputation alone.

use vstd::prelude::*;

verus! {

/// Highest reputation that is still a `Minnow`.
pub const MINNOW_MAX: u64 = 100;

/// Highest reputation that is still a `Fisher`.
pub const FISHER_MAX: u64 = 500;

/// Highest reputation that is still a `Captain`.
pub const CAPTAIN_MAX: u64 = 1000;

/// The tier of a fisher.
#[derive(Clone, Copy, Debug, PartialEq, Eq, Structural)]
pub enum FisherRank {
    /// Reputation 0 to 100.
    Minnow,
    /// Reputation 101 to 500.
    Fisher,
    /// Reputation 501 to 1000.
    Captain,
    /// Reputation 1001 and above.
    Admiral,
}

/// The rank that belongs to a reputation.
pub open spec fn rank_for(reputation: nat) -> FisherRank {
    if reputation <= MINNOW_MAX {
        FisherRank::Minnow
    } else if reputation <= FISHER_MAX {
        FisherRank::Fisher
    } else if reputation <= CAPTAIN_MAX {
        FisherRank::Captain
    } else {
        FisherRank::Admiral
    }
}

impl FisherRank {
    /// Position of the rank in the order of the tiers, lowest first.
    pub open spec fn tier(self) -> nat {
        match self {
            FisherRank::Minnow => 0,
            FisherRank::Fisher => 1,
            FisherRank::Captain => 2,
            FisherRank::Admiral => 3,
        }
    }

    /// The name of the rank as a sequence of characters.
    pub open spec fn name(self) -> Seq<char> {
        match self {
            FisherRank::Minnow => "Minnow"@,
            FisherRank::Fisher => "Fisher"@,
            FisherRank::Captain => "Captain"@,
            FisherRank::Admiral => "Admiral"@,
        }
    }

    /// Computes the rank of a reputation.
    pub fn from_reputation(reputation: u64) -> (rank: FisherRank)
        ensures
            rank == rank_for(reputation as nat),
    {
        match reputation {
            0..=100 => FisherRank::Minnow,
            101..=500 => FisherRank::Fisher,
            501..=1000 => FisherRank::Captain,
            _ => FisherRank::Admiral,
        }
    }

    /// The name of the rank.
    pub fn to_string(&self) -> (name: &'static str)
        ensures
            name@ == self.name(),
    {
        match self {
            FisherRank::Minnow => "Minnow",
            FisherRank::Fisher => "Fisher",
            FisherRank::Captain => "Captain",
            FisherRank::Admiral => "Admiral",
        }
    }
}

/// A higher reputation never has a lower rank.
pub proof fn lemma_rank_monotone(lower: nat, higher: nat)
    requires
        lower <= higher,
    ensures
        rank_for(lower).tier() <= rank_for(higher).tier(),
{
}

} // verus!
