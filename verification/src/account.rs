//! One fisher record and the transitions it can make.

use crate::error::ErrorCode;
use crate::rank::{rank_for, FisherRank};
use vstd::prelude::*;

verus! {

/// The 32 bytes that identify a wallet.
pub type WalletKey = [u8; 32];

/// A score above this value is a big fish.
pub const BIG_FISH_THRESHOLD: u8 = 70;

/// The highest score a scan can report.
pub const MAX_SCORE: u8 = 100;

/// Reputation earned by a catch that spotted a big fish.
pub const BIG_FISH_POINTS: u64 = 50;

/// Reputation earned by any other catch.
pub const REGULAR_POINTS: u64 = 10;

/// Whether a score counts as a big fish.
pub open spec fn is_big_fish(score: u8) -> bool {
    score > BIG_FISH_THRESHOLD
}

/// The reputation that a catch with the given score earns.
pub open spec fn points_for(score: u8) -> nat {
    if is_big_fish(score) {
        BIG_FISH_POINTS as nat
    } else {
        REGULAR_POINTS as nat
    }
}

/// Whether two keys name the same wallet.
pub fn same_wallet(a: &WalletKey, b: &WalletKey) -> (same: bool)
    ensures
        same == (*a == *b),
{
    let mut i: usize = 0;
    while i < 32
        invariant
            i <= 32,
            forall|k: int| 0 <= k < i ==> a[k] == b[k],
        decreases 32 - i,
    {
        if a[i] != b[i] {
            return false;
        }
        i += 1;
    }
    assert(*a =~= *b);
    true
}

/// The record of one wallet.
#[derive(Clone, Copy, Debug, PartialEq, Eq)]
pub struct FisherAccount {
    /// The owner; never changes.
    pub wallet: WalletKey,
    /// Catches recorded so far.
    pub total_catches: u64,
    /// Catches that spotted a big fish.
    pub big_fish_spotted: u64,
    /// Reputation earned so far.
    pub reputation: u64,
    /// The tier of `reputation`.
    pub rank: FisherRank,
}

/// What a reader is shown of a record.
#[derive(Clone, Copy, Debug, PartialEq, Eq)]
pub struct FisherStats {
    /// The owner of the record.
    pub wallet: WalletKey,
    /// Catches recorded so far.
    pub total_catches: u64,
    /// Catches that spotted a big fish.
    pub big_fish_spotted: u64,
    /// Reputation earned so far.
    pub reputation: u64,
    /// The tier of `reputation`.
    pub rank: FisherRank,
}

impl FisherAccount {
    /// A record is consistent when no more big fish were spotted than catches
    /// were made and the rank is the tier of the reputation.
    pub open spec fn consistent(self) -> bool {
        &&& self.big_fish_spotted <= self.total_catches
        &&& self.rank == rank_for(self.reputation as nat)
    }

    /// The record of a wallet that has not caught anything yet.
    pub open spec fn fresh(wallet: WalletKey) -> FisherAccount {
        FisherAccount {
            wallet,
            total_catches: 0,
            big_fish_spotted: 0,
            reputation: 0,
            rank: FisherRank::Minnow,
        }
    }

    /// Whether one more catch with the given score would push a counter past
    /// `u64::MAX`.
    pub open spec fn catch_overflows(self, score: u8) -> bool {
        ||| self.total_catches + 1 > u64::MAX
        ||| is_big_fish(score) && self.big_fish_spotted + 1 > u64::MAX
        ||| self.reputation + points_for(score) > u64::MAX
    }

    /// The record after one more catch, or the reason the catch is rejected.
    pub open spec fn after_catch(self, score: u8) -> Result<FisherAccount, ErrorCode> {
        if score > MAX_SCORE {
            Err(ErrorCode::InvalidInput)
        } else if self.catch_overflows(score) {
            Err(ErrorCode::Overflow)
        } else {
            let reputation = (self.reputation + points_for(score)) as u64;
            Ok(
                FisherAccount {
                    wallet: self.wallet,
                    total_catches: (self.total_catches + 1) as u64,
                    big_fish_spotted: if is_big_fish(score) {
                        (self.big_fish_spotted + 1) as u64
                    } else {
                        self.big_fish_spotted
                    },
                    reputation,
                    rank: rank_for(reputation as nat),
                },
            )
        }
    }

    /// What a reader is shown of this record.
    pub open spec fn snapshot(self) -> FisherStats {
        FisherStats {
            wallet: self.wallet,
            total_catches: self.total_catches,
            big_fish_spotted: self.big_fish_spotted,
            reputation: self.reputation,
            rank: self.rank,
        }
    }

    /// Opens the record of `wallet`: nothing caught, rank `Minnow`.
    pub fn new(wallet: WalletKey) -> (account: FisherAccount)
        ensures
            account == FisherAccount::fresh(wallet),
            account.consistent(),
    {
        FisherAccount {
            wallet,
            total_catches: 0,
            big_fish_spotted: 0,
            reputation: 0,
            rank: FisherRank::Minnow,
        }
    }

    /// Counts one catch. Either every counter advances and the rank follows
    /// the new reputation, or the catch is rejected and the record stays as it
    /// was.
    pub fn apply_catch(&mut self, big_fish_score: u8) -> (result: Result<(), ErrorCode>)
        ensures
            match old(self).after_catch(big_fish_score) {
                Ok(next) => result is Ok && *final(self) == next,
                Err(code) => result == Err::<(), ErrorCode>(code) && *final(self) == *old(self),
            },
    {
        if big_fish_score > MAX_SCORE {
            return Err(ErrorCode::InvalidInput);
        }
        let total_catches: u64 = match self.total_catches.checked_add(1) {
            Some(count) => count,
            None => { return Err(ErrorCode::Overflow); },
        };
        let big_fish = big_fish_score > BIG_FISH_THRESHOLD;
        let big_fish_spotted: u64 = if big_fish {
            match self.big_fish_spotted.checked_add(1) {
                Some(count) => count,
                None => { return Err(ErrorCode::Overflow); },
            }
        } else {
            self.big_fish_spotted
        };
        let points: u64 = if big_fish {
            BIG_FISH_POINTS
        } else {
            REGULAR_POINTS
        };
        let reputation: u64 = match self.reputation.checked_add(points) {
            Some(sum) => sum,
            None => { return Err(ErrorCode::Overflow); },
        };
        self.total_catches = total_catches;
        self.big_fish_spotted = big_fish_spotted;
        self.reputation = reputation;
        self.rank = FisherRank::from_reputation(reputation);
        Ok(())
    }

    /// Checks that the record is consistent.
    pub fn is_consistent(&self) -> (ok: bool)
        ensures
            ok == self.consistent(),
    {
        self.big_fish_spotted <= self.total_catches && self.rank == FisherRank::from_reputation(
            self.reputation,
        )
    }

    /// A snapshot of the record for a reader.
    pub fn stats(&self) -> (stats: FisherStats)
        ensures
            stats == self.snapshot(),
    {
        FisherStats {
            wallet: self.wallet,
            total_catches: self.total_catches,
            big_fish_spotted: self.big_fish_spotted,
            reputation: self.reputation,
            rank: self.rank,
        }
    }
}

} // verus!
