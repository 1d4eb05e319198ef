//! The pool ledger: what has been paid in during the current round, and when
//! the last round was settled.

use vstd::prelude::*;
use vstd::std_specs::cmp::PartialEqSpecImpl;
use crate::identity::Identity;

verus! {

/// The least time, in seconds, between two declarations of a winner: 7 days.
pub const SPIN_COOLDOWN_SECS: i64 = 604800;

/// The ledger of the pool.
///
/// `total_pool` and `total_entries` count what the current round has taken
/// in. Both are zero when the ledger is made and after each settlement, and
/// grow with every contribution in between.
#[derive(Clone, Copy, Debug, Eq)]
pub struct WeeklyPool {
    /// Who made the pool; the creator's part of each round is meant for them.
    pub creator: Identity,
    /// The sum of the contributions of the current round.
    pub total_pool: u64,
    /// The number of contributions of the current round.
    pub total_entries: u64,
    /// The selection tag of the entry that won the last round.
    pub last_winner_number: u32,
    /// When the last round was settled; 0 before the first settlement.
    pub last_spin_timestamp: i64,
}

impl PartialEq for WeeklyPool {
    fn eq(&self, other: &WeeklyPool) -> (r: bool) {
        self.creator == other.creator && self.total_pool == other.total_pool
            && self.total_entries == other.total_entries && self.last_winner_number
            == other.last_winner_number && self.last_spin_timestamp == other.last_spin_timestamp
    }
}

impl PartialEqSpecImpl for WeeklyPool {
    open spec fn obeys_eq_spec() -> bool {
        true
    }

    open spec fn eq_spec(&self, other: &WeeklyPool) -> bool {
        *self == *other
    }
}

/// The winner's part of a pool of `total`: 90 percent, rounded down.
pub open spec fn winner_share_of(total: u64) -> u64 {
    (total * 90 / 100) as u64
}

/// The creator's part of a pool of `total`: what the winner's part leaves.
pub open spec fn creator_share_of(total: u64) -> u64 {
    (total - winner_share_of(total)) as u64
}

impl WeeklyPool {
    /// The ledger of a pool that `creator` has just made.
    pub open spec fn initial(creator: Identity) -> WeeklyPool {
        WeeklyPool {
            creator,
            total_pool: 0,
            total_entries: 0,
            last_winner_number: 0,
            last_spin_timestamp: 0,
        }
    }

    /// No contribution has been made since the ledger was made or last settled.
    pub open spec fn is_fresh(self) -> bool {
        self.total_pool == 0 && self.total_entries == 0
    }

    /// The ledger can take in one more contribution of `amount`.
    pub open spec fn has_room_for(self, amount: u64) -> bool {
        self.total_pool + amount <= u64::MAX && self.total_entries + 1 <= u64::MAX
    }

    /// The ledger after one more contribution of `amount`.
    pub open spec fn credited(self, amount: u64) -> WeeklyPool {
        WeeklyPool {
            total_pool: (self.total_pool + amount) as u64,
            total_entries: (self.total_entries + 1) as u64,
            ..self
        }
    }

    /// At time `now` the cooldown since the last settlement is still running.
    /// It never is before the first settlement.
    pub open spec fn cooling_down(self, now: i64) -> bool {
        self.last_spin_timestamp != 0 && now - self.last_spin_timestamp < SPIN_COOLDOWN_SECS
    }

    /// The ledger after a settlement at time `now` in favour of the entry
    /// with selection tag `winner_number`.
    pub open spec fn settled(self, winner_number: u32, now: i64) -> WeeklyPool {
        WeeklyPool {
            total_pool: 0,
            total_entries: 0,
            last_winner_number: winner_number,
            last_spin_timestamp: now,
            ..self
        }
    }

    /// The ledger of a new pool made by `creator`.
    pub fn new(creator: Identity) -> (pool: WeeklyPool)
        ensures
            pool == WeeklyPool::initial(creator),
    {
        WeeklyPool {
            creator,
            total_pool: 0,
            total_entries: 0,
            last_winner_number: 0,
            last_spin_timestamp: 0,
        }
    }

    /// Whether the cooldown since the last settlement is still running at
    /// time `now`.
    pub fn in_cooldown(&self, now: i64) -> (cooling: bool)
        ensures
            cooling == self.cooling_down(now),
    {
        if self.last_spin_timestamp == 0 {
            return false;
        }
        let elapsed: i128 = now as i128 - self.last_spin_timestamp as i128;
        elapsed < SPIN_COOLDOWN_SECS as i128
    }
}

/// The winner's part of a pool of `total`: 90 percent, rounded down.
pub fn winner_share(total: u64) -> (share: u64)
    ensures
        share == winner_share_of(total),
        share == total * 90 / 100,
        share <= total,
{
    let scaled: u128 = total as u128 * 90;
    (scaled / 100) as u64
}

/// The creator's part of a pool of `total`: what the winner's part leaves, so
/// that the two parts together are exactly `total`.
pub fn creator_share(total: u64) -> (share: u64)
    ensures
        share == creator_share_of(total),
        share + winner_share_of(total) == total,
{
    total - winner_share(total)
}

} // verus!
