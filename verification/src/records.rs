//! The records the vault keeps: time-locks, vesting schedules and the
//! summary it reports.

use vstd::prelude::*;
use crate::identity::Identity;
use crate::vesting::{vested_amount, vested_portion};

verus! {

/// An amount held for an owner until a fixed unlock instant.
#[derive(Debug, PartialEq, Eq)]
pub struct TokenLock {
    /// The lock's id: locks are numbered from 1 in the order they were made.
    pub id: u64,
    /// Who the amount is held for.
    pub owner: Identity,
    /// The amount held, greater than zero.
    pub amount: i128,
    /// When the lock was made.
    pub locked_at: u64,
    /// From when on the owner may claim the amount.
    pub unlock_at: u64,
    /// Whether the amount has been released. Once true it stays true.
    pub claimed: bool,
    /// A short tag that says what the lock is for.
    pub memo: String,
}

impl TokenLock {
    /// What the lock still commits: its amount until it is released.
    pub open spec fn outstanding(self) -> int {
        if self.claimed {
            0
        } else {
            self.amount as int
        }
    }

    /// The lock as it is once its amount has been released.
    pub open spec fn released(self) -> TokenLock {
        TokenLock { claimed: true, ..self }
    }

    /// Holds of the lock stored at position `index`: its id is its position
    /// counted from 1, its amount is positive and it does not unlock before
    /// it was made.
    pub open spec fn valid_at(self, index: int) -> bool {
        &&& self.id == index + 1
        &&& self.amount > 0
        &&& self.locked_at <= self.unlock_at
    }
}

impl Clone for TokenLock {
    fn clone(&self) -> (copy: Self)
        ensures
            copy == *self,
    {
        TokenLock {
            id: self.id,
            owner: self.owner,
            amount: self.amount,
            locked_at: self.locked_at,
            unlock_at: self.unlock_at,
            claimed: self.claimed,
            memo: self.memo.clone(),
        }
    }
}

/// An allocation that is released to its beneficiary over time: nothing
/// before the cliff, then in proportion to the time passed since the start.
#[derive(Debug, PartialEq, Eq)]
pub struct VestingSchedule {
    /// The schedule's id: schedules are numbered from 1 in the order they were made.
    pub id: u64,
    /// Who receives what vests.
    pub beneficiary: Identity,
    /// The whole allocation, greater than zero.
    pub total_amount: i128,
    /// What the beneficiary has claimed so far.
    pub claimed_amount: i128,
    /// When vesting starts.
    pub start_time: u64,
    /// How long it takes for the whole allocation to vest, greater than zero.
    pub duration: u64,
    /// How long after the start nothing can be claimed.
    pub cliff: u64,
    /// A short tag that says what the schedule is for.
    pub memo: String,
}

impl VestingSchedule {
    /// The allocation is positive and its duration too, and what was claimed
    /// lies between nothing and the whole allocation.
    pub open spec fn valid(self) -> bool {
        &&& self.total_amount > 0
        &&& self.duration > 0
        &&& 0 <= self.claimed_amount <= self.total_amount
    }

    /// Holds of the schedule stored at position `index`: its id is its
    /// position counted from 1 and it is valid.
    pub open spec fn valid_at(self, index: int) -> bool {
        &&& self.id == index + 1
        &&& self.valid()
    }

    /// Whether the cliff lies at or before `now`.
    pub open spec fn cliff_reached(self, now: u64) -> bool {
        now >= self.start_time + self.cliff
    }

    /// What has vested at `now`, whether or not it was claimed.
    pub open spec fn vested(self, now: u64) -> int {
        vested_portion(self.total_amount as int, now - self.start_time, self.duration as int)
    }

    /// What the beneficiary can claim at `now`: nothing before the cliff,
    /// afterwards what has vested less what was claimed already. A result of
    /// zero or less means that there is nothing to claim.
    pub open spec fn claimable(self, now: u64) -> int {
        if self.cliff_reached(now) {
            self.vested(now) - self.claimed_amount
        } else {
            0
        }
    }

    /// What the schedule still commits: the allocation less what was claimed.
    pub open spec fn unclaimed(self) -> int {
        self.total_amount - self.claimed_amount
    }

    /// The schedule as it is once `amount` more has been claimed.
    pub open spec fn after_claim(self, amount: i128) -> VestingSchedule {
        VestingSchedule { claimed_amount: (self.claimed_amount + amount) as i128, ..self }
    }

    /// Computes what the beneficiary can claim at `now`.
    pub fn claimable_at(&self, now: u64) -> (amount: i128)
        requires
            self.valid(),
        ensures
            amount == self.claimable(now),
            amount <= self.total_amount - self.claimed_amount,
    {
        let cliff_end: u128 = self.start_time as u128 + self.cliff as u128;
        if (now as u128) < cliff_end {
            return 0;
        }
        let elapsed: u64 = now - self.start_time;
        let vested: i128 = vested_amount(self.total_amount, elapsed, self.duration);
        vested - self.claimed_amount
    }
}

impl Clone for VestingSchedule {
    fn clone(&self) -> (copy: Self)
        ensures
            copy == *self,
    {
        VestingSchedule {
            id: self.id,
            beneficiary: self.beneficiary,
            total_amount: self.total_amount,
            claimed_amount: self.claimed_amount,
            start_time: self.start_time,
            duration: self.duration,
            cliff: self.cliff,
            memo: self.memo.clone(),
        }
    }
}

/// A summary of the vault.
#[derive(Copy, Clone, Debug, PartialEq, Eq, Structural)]
pub struct VaultStats {
    /// The sum of everything the vault still commits.
    pub total_locked: i128,
    /// How many locks were ever made.
    pub lock_count: u64,
    /// How many vesting schedules were ever made.
    pub vesting_count: u64,
    /// The administrator.
    pub admin: Identity,
}

} // verus!
