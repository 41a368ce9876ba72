//! A vault's contents as plain records, for keeping a vault in a store and
//! reading it back.

use vstd::prelude::*;
use crate::committee::is_member;
use crate::identity::Identity;
use crate::ledger::{
    lemma_total_of_nonnegative, lemma_total_of_prefix, lemma_total_of_step,
    lock_commitments, total_of, vesting_commitments,
};
use crate::records::{TokenLock, VestingSchedule};
use crate::state::{approval_lists, approvals_valid, VaultState};

verus! {

/// Everything a vault holds but the notifications it has not handed out.
///
/// A snapshot can hold anything; [`Snapshot::is_consistent`] says whether it
/// is the contents of a vault that is in order.
#[derive(Debug)]
pub struct Snapshot {
    /// Whether the vault has been initialized.
    pub initialized: bool,
    /// The administrator, once there is one.
    pub admin: Option<Identity>,
    /// The committee of emergency signers.
    pub emergency_signers: Vec<Identity>,
    /// How many approvals an emergency release needs.
    pub emergency_threshold: u32,
    /// The running total of everything that is still committed.
    pub total_locked: i128,
    /// The locks; the lock with id `n` is at position `n - 1`.
    pub locks: Vec<TokenLock>,
    /// The vesting schedules; the schedule with id `n` is at position `n - 1`.
    pub vestings: Vec<VestingSchedule>,
    /// For each lock, at the lock's position, who approved its emergency release.
    pub approvals: Vec<Vec<Identity>>,
}

impl View for Snapshot {
    type V = VaultState;

    open spec fn view(&self) -> VaultState {
        VaultState {
            initialized: self.initialized,
            admin: self.admin,
            emergency_signers: self.emergency_signers@,
            emergency_threshold: self.emergency_threshold,
            total_locked: self.total_locked,
            locks: self.locks@,
            vestings: self.vestings@,
            approvals: approval_lists(self.approvals@),
            events: Seq::empty(),
        }
    }
}

/// Whether every lock is valid at its position.
fn locks_valid(locks: &Vec<TokenLock>) -> (ok: bool)
    ensures
        ok == (forall|i: int| 0 <= i < locks@.len() ==> (#[trigger] locks@[i]).valid_at(i)),
{
    let mut index: usize = 0;
    while index < locks.len()
        invariant
            index <= locks.len(),
            forall|i: int| 0 <= i < index ==> (#[trigger] locks@[i]).valid_at(i),
        decreases locks.len() - index,
    {
        let lock = &locks[index];
        if lock.id != index as u64 + 1 || lock.amount <= 0 || lock.locked_at > lock.unlock_at {
            assert(!locks@[index as int].valid_at(index as int));
            return false;
        }
        index = index + 1;
    }
    true
}

/// Whether every vesting schedule is valid at its position.
fn vestings_valid(vestings: &Vec<VestingSchedule>) -> (ok: bool)
    ensures
        ok == (forall|i: int|
            0 <= i < vestings@.len() ==> (#[trigger] vestings@[i]).valid_at(i)),
{
    let mut index: usize = 0;
    while index < vestings.len()
        invariant
            index <= vestings.len(),
            forall|i: int| 0 <= i < index ==> (#[trigger] vestings@[i]).valid_at(i),
        decreases vestings.len() - index,
    {
        let schedule = &vestings[index];
        if schedule.id != index as u64 + 1 || schedule.total_amount <= 0 || schedule.duration == 0
            || schedule.claimed_amount < 0 || schedule.claimed_amount > schedule.total_amount {
            assert(!vestings@[index as int].valid_at(index as int));
            return false;
        }
        index = index + 1;
    }
    true
}

/// Whether nobody occurs twice among `approvers` and each of them is one of
/// `signers`.
fn approvers_valid(approvers: &Vec<Identity>, signers: &Vec<Identity>) -> (ok: bool)
    ensures
        ok == approvals_valid(approvers@, signers@),
{
    let mut index: usize = 0;
    while index < approvers.len()
        invariant
            index <= approvers.len(),
            forall|k: int| 0 <= k < index ==> signers@.contains(#[trigger] approvers@[k]),
            forall|i: int, j: int| 0 <= i < j < index ==> approvers@[i] != approvers@[j],
        decreases approvers.len() - index,
    {
        let who = &approvers[index];
        if !is_member(signers, who) {
            return false;
        }
        let mut earlier: usize = 0;
        while earlier < index
            invariant
                earlier <= index < approvers.len(),
                *who == approvers@[index as int],
                forall|i: int| 0 <= i < earlier ==> approvers@[i] != *who,
            decreases index - earlier,
        {
            if approvers[earlier] == *who {
                return false;
            }
            earlier = earlier + 1;
        }
        index = index + 1;
    }
    true
}

/// Whether the approvals of every lock are valid.
fn approvals_all_valid(approvals: &Vec<Vec<Identity>>, signers: &Vec<Identity>) -> (ok: bool)
    ensures
        ok == (forall|i: int|
            0 <= i < approvals@.len() ==> approvals_valid(
                #[trigger] approval_lists(approvals@)[i],
                signers@,
            )),
{
    let mut index: usize = 0;
    while index < approvals.len()
        invariant
            index <= approvals.len(),
            forall|i: int|
                0 <= i < index ==> approvals_valid(
                    #[trigger] approval_lists(approvals@)[i],
                    signers@,
                ),
        decreases approvals.len() - index,
    {
        if !approvers_valid(&approvals[index], signers) {
            assert(approval_lists(approvals@)[index as int] == approvals@[index as int]@);
            return false;
        }
        assert(approval_lists(approvals@)[index as int] == approvals@[index as int]@);
        index = index + 1;
    }
    true
}

/// What the locks still commit, or `None` where that does not fit in 128 bits.
fn locks_total(locks: &Vec<TokenLock>) -> (sum: Option<i128>)
    requires
        forall|i: int| 0 <= i < locks@.len() ==> (#[trigger] locks@[i]).valid_at(i),
    ensures
        sum matches Some(total) ==> total == total_of(lock_commitments(locks@)),
        sum is None ==> total_of(lock_commitments(locks@)) > i128::MAX,
        0 <= total_of(lock_commitments(locks@)),
{
    let ghost amounts = lock_commitments(locks@);
    proof {
        assert forall|i: int| 0 <= i < amounts.len() implies amounts[i] >= 0 by {
            assert(locks@[i].valid_at(i));
        }
        lemma_total_of_nonnegative(amounts);
    }
    let mut total: i128 = 0;
    let mut index: usize = 0;
    while index < locks.len()
        invariant
            index <= locks.len(),
            amounts == lock_commitments(locks@),
            forall|i: int| 0 <= i < amounts.len() ==> amounts[i] >= 0,
            total == total_of(amounts.take(index as int)),
            total >= 0,
        decreases locks.len() - index,
    {
        proof {
            lemma_total_of_step(amounts, index as int);
            lemma_total_of_prefix(amounts, index as int + 1);
        }
        if !locks[index].claimed {
            match total.checked_add(locks[index].amount) {
                None => {
                    return None;
                },
                Some(next) => {
                    total = next;
                },
            }
        }
        index = index + 1;
    }
    proof {
        assert(amounts.take(index as int) =~= amounts);
    }
    Some(total)
}

/// What the vesting schedules still commit, or `None` where that does not
/// fit in 128 bits.
fn vestings_total(vestings: &Vec<VestingSchedule>) -> (sum: Option<i128>)
    requires
        forall|i: int| 0 <= i < vestings@.len() ==> (#[trigger] vestings@[i]).valid_at(i),
    ensures
        sum matches Some(total) ==> total == total_of(vesting_commitments(vestings@)),
        sum is None ==> total_of(vesting_commitments(vestings@)) > i128::MAX,
        0 <= total_of(vesting_commitments(vestings@)),
{
    let ghost amounts = vesting_commitments(vestings@);
    proof {
        assert forall|i: int| 0 <= i < amounts.len() implies amounts[i] >= 0 by {
            assert(vestings@[i].valid_at(i));
        }
        lemma_total_of_nonnegative(amounts);
    }
    let mut total: i128 = 0;
    let mut index: usize = 0;
    while index < vestings.len()
        invariant
            index <= vestings.len(),
            amounts == vesting_commitments(vestings@),
            forall|i: int| 0 <= i < amounts.len() ==> amounts[i] >= 0,
            forall|i: int| 0 <= i < vestings@.len() ==> (#[trigger] vestings@[i]).valid_at(i),
            total == total_of(amounts.take(index as int)),
            total >= 0,
        decreases vestings.len() - index,
    {
        proof {
            lemma_total_of_step(amounts, index as int);
            lemma_total_of_prefix(amounts, index as int + 1);
            assert(vestings@[index as int].valid_at(index as int));
        }
        let unclaimed: i128 = vestings[index].total_amount - vestings[index].claimed_amount;
        match total.checked_add(unclaimed) {
            None => {
                return None;
            },
            Some(next) => {
                total = next;
            },
        }
        index = index + 1;
    }
    proof {
        assert(amounts.take(index as int) =~= amounts);
    }
    Some(total)
}

impl Snapshot {
    /// Whether the snapshot is the contents of a vault that is in order.
    pub fn is_consistent(&self) -> (ok: bool)
        ensures
            ok == self@.inv(),
    {
        if self.initialized != self.admin.is_some() {
            return false;
        }
        if !self.initialized && (self.locks.len() != 0 || self.vestings.len() != 0) {
            return false;
        }
        if self.emergency_signers.len() > 0xFFFF_FFFF {
            return false;
        }
        if self.approvals.len() != self.locks.len() {
            return false;
        }
        if !locks_valid(&self.locks) {
            return false;
        }
        if !vestings_valid(&self.vestings) {
            return false;
        }
        if !approvals_all_valid(&self.approvals, &self.emergency_signers) {
            return false;
        }
        let held: Option<i128> = locks_total(&self.locks);
        let vesting: Option<i128> = vestings_total(&self.vestings);
        match (held, vesting) {
            (Some(held), Some(vesting)) => match held.checked_add(vesting) {
                None => false,
                Some(sum) => sum == self.total_locked,
            },
            _ => false,
        }
    }
}

} // verus!
