//! The aggregate the vault keeps of everything it still commits.

use vstd::prelude::*;
use crate::records::{TokenLock, VestingSchedule};

verus! {

/// The aggregate after `amount` has been committed.
pub open spec fn credited(total: int, amount: int) -> int {
    total + amount
}

/// The aggregate after `amount` has been released. It never goes below zero:
/// releasing more than the aggregate holds leaves it at zero.
pub open spec fn debited(total: int, amount: int) -> int {
    if total > amount {
        total - amount
    } else {
        0
    }
}

/// Adds a committed amount to the aggregate.
pub fn credit(total: i128, amount: i128) -> (sum: i128)
    requires
        i128::MIN <= total + amount <= i128::MAX,
    ensures
        sum == credited(total as int, amount as int),
{
    total + amount
}

/// Takes a released amount off the aggregate, stopping at zero.
pub fn debit(total: i128, amount: i128) -> (rest: i128)
    requires
        total > amount ==> total - amount <= i128::MAX,
    ensures
        rest == debited(total as int, amount as int),
        total >= 0 && amount >= 0 ==> 0 <= rest <= total,
{
    if total > amount {
        total - amount
    } else {
        0
    }
}

/// The sum of a sequence of amounts.
pub open spec fn total_of(amounts: Seq<int>) -> int
    decreases amounts.len(),
{
    if amounts.len() == 0 {
        0
    } else {
        total_of(amounts.drop_last()) + amounts.last()
    }
}

/// One more amount at the end adds that amount to the sum.
pub proof fn lemma_total_of_push(amounts: Seq<int>, amount: int)
    ensures
        total_of(amounts.push(amount)) == total_of(amounts) + amount,
{
    assert(amounts.push(amount).drop_last() =~= amounts);
}

/// Replacing one amount changes the sum by the difference.
pub proof fn lemma_total_of_update(amounts: Seq<int>, index: int, amount: int)
    requires
        0 <= index < amounts.len(),
    ensures
        total_of(amounts.update(index, amount)) == total_of(amounts) - amounts[index] + amount,
    decreases amounts.len(),
{
    let updated = amounts.update(index, amount);
    if index == amounts.len() - 1 {
        assert(updated.drop_last() =~= amounts.drop_last());
    } else {
        lemma_total_of_update(amounts.drop_last(), index, amount);
        assert(updated.drop_last() =~= amounts.drop_last().update(index, amount));
    }
}

/// Where no amount is negative, the sum is not negative and no amount
/// exceeds it.
pub proof fn lemma_total_of_covers(amounts: Seq<int>, index: int)
    requires
        forall|i: int| 0 <= i < amounts.len() ==> amounts[i] >= 0,
        0 <= index < amounts.len(),
    ensures
        0 <= amounts[index] <= total_of(amounts),
    decreases amounts.len(),
{
    lemma_total_of_nonnegative(amounts.drop_last());
    if index < amounts.len() - 1 {
        lemma_total_of_covers(amounts.drop_last(), index);
    }
}

/// Where no amount is negative, the sum is not negative.
pub proof fn lemma_total_of_nonnegative(amounts: Seq<int>)
    requires
        forall|i: int| 0 <= i < amounts.len() ==> amounts[i] >= 0,
    ensures
        0 <= total_of(amounts),
    decreases amounts.len(),
{
    if amounts.len() > 0 {
        lemma_total_of_nonnegative(amounts.drop_last());
    }
}

/// Where no amount is negative, the sum of the first `count` amounts does
/// not exceed the sum of all.
pub proof fn lemma_total_of_prefix(amounts: Seq<int>, count: int)
    requires
        forall|i: int| 0 <= i < amounts.len() ==> amounts[i] >= 0,
        0 <= count <= amounts.len(),
    ensures
        0 <= total_of(amounts.take(count)) <= total_of(amounts),
    decreases amounts.len() - count,
{
    if count == amounts.len() {
        assert(amounts.take(count) =~= amounts);
        lemma_total_of_nonnegative(amounts);
    } else {
        lemma_total_of_prefix(amounts, count + 1);
        lemma_total_of_step(amounts, count);
        lemma_total_of_nonnegative(amounts.take(count));
    }
}

/// The sum of the first `count + 1` amounts is the sum of the first `count`
/// and the amount that follows them.
pub proof fn lemma_total_of_step(amounts: Seq<int>, count: int)
    requires
        0 <= count < amounts.len(),
    ensures
        total_of(amounts.take(count + 1)) == total_of(amounts.take(count)) + amounts[count],
{
    assert(amounts.take(count + 1).drop_last() =~= amounts.take(count));
}

/// What each lock still commits, in the order of the locks.
pub open spec fn lock_commitments(locks: Seq<TokenLock>) -> Seq<int> {
    locks.map_values(|lock: TokenLock| lock.outstanding())
}

/// What each vesting schedule still commits, in the order of the schedules.
pub open spec fn vesting_commitments(vestings: Seq<VestingSchedule>) -> Seq<int> {
    vestings.map_values(|schedule: VestingSchedule| schedule.unclaimed())
}

/// Everything that is still committed: the amounts of the locks that were
/// not released, and of each vesting schedule what was not claimed.
pub open spec fn committed(locks: Seq<TokenLock>, vestings: Seq<VestingSchedule>) -> int {
    total_of(lock_commitments(locks)) + total_of(vesting_commitments(vestings))
}

} // verus!
