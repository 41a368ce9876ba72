//! Proofs that every operation keeps the vault's invariant.

use vstd::prelude::*;
use vstd::seq_lib::seq_to_set_is_finite;
use vstd::set_lib::lemma_len_subset;
use crate::events::Event;
use crate::identity::Identity;
use crate::ledger::{
    lemma_total_of_covers, lemma_total_of_nonnegative, lemma_total_of_push, lemma_total_of_update,
    lock_commitments, total_of, vesting_commitments,
};
use crate::records::VestingSchedule;
use crate::state::{approvals_valid, VaultState};
use crate::vesting::lemma_vested_portion_bounds;

verus! {

/// The empty vault is in order.
pub proof fn lemma_fresh_inv()
    ensures
        VaultState::fresh().inv(),
{
    let fresh = VaultState::fresh();
    assert(lock_commitments(fresh.locks) =~= Seq::<int>::empty());
    assert(vesting_commitments(fresh.vestings) =~= Seq::<int>::empty());
}

/// Distinct approvers that all sit on the committee are at most as many as
/// the committee has seats.
pub proof fn lemma_approvals_bounded(approvers: Seq<Identity>, signers: Seq<Identity>)
    requires
        approvals_valid(approvers, signers),
    ensures
        approvers.len() <= signers.len(),
{
    approvers.unique_seq_to_set();
    signers.lemma_cardinality_of_set();
    seq_to_set_is_finite(signers);
    assert(approvers.to_set().subset_of(signers.to_set())) by {
        assert forall|who: Identity| approvers.to_set().contains(who) implies signers.to_set()
            .contains(who) by {
            let k = choose|k: int| 0 <= k < approvers.len() && approvers[k] == who;
            assert(signers.contains(approvers[k]));
        }
    }
    lemma_len_subset(approvers.to_set(), signers.to_set());
}

/// In a vault that is in order no record commits a negative amount, so the
/// running total is not negative and covers what each lock and each vesting
/// schedule still commits.
pub proof fn lemma_commitments_covered(state: VaultState)
    requires
        state.inv(),
    ensures
        state.total_locked >= 0,
        0 <= total_of(lock_commitments(state.locks)) <= state.total_locked,
        0 <= total_of(vesting_commitments(state.vestings)) <= state.total_locked,
        forall|i: int|
            0 <= i < state.locks.len() ==> 0 <= (#[trigger] state.locks[i]).outstanding()
                <= state.total_locked,
        forall|i: int|
            0 <= i < state.vestings.len() ==> 0 <= (#[trigger] state.vestings[i]).unclaimed()
                <= state.total_locked,
{
    let held = lock_commitments(state.locks);
    let vesting = vesting_commitments(state.vestings);
    assert forall|i: int| 0 <= i < held.len() implies held[i] >= 0 by {
        assert(state.locks[i].valid_at(i));
    }
    assert forall|i: int| 0 <= i < vesting.len() implies vesting[i] >= 0 by {
        assert(state.vestings[i].valid_at(i));
    }
    lemma_total_of_nonnegative(held);
    lemma_total_of_nonnegative(vesting);
    assert forall|i: int| 0 <= i < state.locks.len() implies 0
        <= (#[trigger] state.locks[i]).outstanding() <= state.total_locked by {
        lemma_total_of_covers(held, i);
        assert(held[i] == state.locks[i].outstanding());
    }
    assert forall|i: int| 0 <= i < state.vestings.len() implies 0
        <= (#[trigger] state.vestings[i]).unclaimed() <= state.total_locked by {
        lemma_total_of_covers(vesting, i);
        assert(vesting[i] == state.vestings[i].unclaimed());
    }
}

/// Initialization keeps the vault in order.
pub proof fn lemma_initialize_keeps_inv(
    state: VaultState,
    admin: Identity,
    authentic: bool,
    signers: Seq<Identity>,
    threshold: u32,
)
    requires
        state.inv(),
        state.initialize_result(authentic) is Ok ==> signers.len() <= u32::MAX,
    ensures
        state.after_initialize(admin, authentic, signers, threshold).inv(),
{
    if state.initialize_result(authentic) is Ok {
        assert(lock_commitments(state.locks) =~= Seq::<int>::empty());
        assert(vesting_commitments(state.vestings) =~= Seq::<int>::empty());
    }
}

/// A new lock keeps the vault in order, and the running total grows by the
/// lock's amount.
pub proof fn lemma_lock_tokens_keeps_inv(
    state: VaultState,
    owner: Identity,
    authentic: bool,
    amount: i128,
    duration: u64,
    memo: String,
    now: u64,
)
    requires
        state.inv(),
        state.lock_tokens_result(authentic, amount, duration) is Ok ==> state.lock_tokens_fits(
            amount,
            duration,
            now,
        ),
    ensures
        state.after_lock_tokens(owner, authentic, amount, duration, memo, now).inv(),
        state.lock_tokens_result(authentic, amount, duration) is Ok ==> state.after_lock_tokens(
            owner,
            authentic,
            amount,
            duration,
            memo,
            now,
        ).total_locked == state.total_locked + amount,
{
    if state.lock_tokens_result(authentic, amount, duration) is Ok {
        let lock = state.new_lock(owner, amount, duration, memo, now);
        let next = state.with_lock(lock, duration);
        assert(lock_commitments(next.locks) =~= lock_commitments(state.locks).push(
            amount as int,
        ));
        lemma_total_of_push(lock_commitments(state.locks), amount as int);
        lemma_commitments_covered(state);
        assert forall|i: int| 0 <= i < next.locks.len() implies
            (#[trigger] next.locks[i]).valid_at(i) by {
            if i < state.locks.len() {
                assert(state.locks[i].valid_at(i));
            }
        }
        assert forall|i: int| 0 <= i < next.approvals.len() implies approvals_valid(
            #[trigger] next.approvals[i],
            next.emergency_signers,
        ) by {
            if i < state.approvals.len() {
                assert(approvals_valid(state.approvals[i], state.emergency_signers));
            }
        }
    }
}

/// Releasing a lock that was not released before keeps the vault in order,
/// and the running total shrinks by exactly the lock's amount: the floor at
/// zero is never reached.
pub proof fn lemma_release_keeps_inv(state: VaultState, lock_id: u64, event: Event)
    requires
        state.inv(),
        state.has_lock(lock_id),
        !state.lock(lock_id).claimed,
    ensures
        state.with_lock_released(lock_id, event).inv(),
        state.with_lock_released(lock_id, event).total_locked == state.total_locked - state.lock(
            lock_id,
        ).amount,
{
    let index = lock_id - 1;
    let lock = state.lock(lock_id);
    let next = state.with_lock_released(lock_id, event);
    assert(state.locks[index].valid_at(index));
    lemma_commitments_covered(state);
    assert(state.locks[index].outstanding() == lock.amount);
    assert(lock_commitments(next.locks) =~= lock_commitments(state.locks).update(index, 0));
    lemma_total_of_update(lock_commitments(state.locks), index, 0);
    assert forall|i: int| 0 <= i < next.locks.len() implies
        (#[trigger] next.locks[i]).valid_at(i) by {
        assert(state.locks[i].valid_at(i));
    }
}

/// An owner's claim keeps the vault in order, and the running total shrinks
/// by exactly what the claim returns.
pub proof fn lemma_claim_keeps_inv(
    state: VaultState,
    owner: Identity,
    authentic: bool,
    lock_id: u64,
    now: u64,
)
    requires
        state.inv(),
    ensures
        state.after_claim(owner, authentic, lock_id, now).inv(),
        state.claim_result(owner, authentic, lock_id, now) matches Ok(amount) ==> state.after_claim(
            owner,
            authentic,
            lock_id,
            now,
        ).total_locked == state.total_locked - amount,
{
    if state.claim_result(owner, authentic, lock_id, now) is Ok {
        lemma_release_keeps_inv(
            state,
            lock_id,
            Event::Claimed { lock_id, owner, amount: state.lock(lock_id).amount },
        );
    }
}

/// An emergency release keeps the vault in order, and the running total
/// shrinks by exactly what the release returns.
pub proof fn lemma_emergency_unlock_keeps_inv(
    state: VaultState,
    caller: Identity,
    authentic: bool,
    lock_id: u64,
)
    requires
        state.inv(),
    ensures
        state.after_emergency_unlock(caller, authentic, lock_id).inv(),
        state.emergency_unlock_result(authentic, lock_id) matches Ok(amount)
            ==> state.after_emergency_unlock(caller, authentic, lock_id).total_locked
            == state.total_locked - amount,
{
    if state.emergency_unlock_result(authentic, lock_id) is Ok {
        lemma_release_keeps_inv(
            state,
            lock_id,
            Event::EmergencyUnlocked { lock_id, caller, amount: state.lock(lock_id).amount },
        );
    }
}

/// A signer's approval keeps the vault in order, and the count it returns
/// is the number of approvals the lock then has, which is at most the size
/// of the committee.
pub proof fn lemma_approve_emergency_keeps_inv(
    state: VaultState,
    signer: Identity,
    authentic: bool,
    lock_id: u64,
)
    requires
        state.inv(),
    ensures
        state.after_approve_emergency(signer, authentic, lock_id).inv(),
        state.approve_emergency_result(signer, authentic, lock_id) is Ok ==> state.approvers(
            lock_id,
        ).len() + 1 <= state.emergency_signers.len(),
{
    if state.approve_emergency_result(signer, authentic, lock_id) is Ok {
        let index = lock_id - 1;
        let before = state.approvers(lock_id);
        let after = before.push(signer);
        let next = state.with_approval(signer, lock_id);
        assert(approvals_valid(state.approvals[index], state.emergency_signers));
        assert(approvals_valid(after, state.emergency_signers)) by {
            assert forall|i: int, j: int|
                0 <= i < after.len() && 0 <= j < after.len() && i != j implies after[i]
                != after[j] by {
                if i < before.len() && j < before.len() {
                    assert(before[i] != before[j]);
                } else if i < before.len() {
                    assert(before.contains(before[i]));
                } else {
                    assert(before.contains(before[j]));
                }
            }
            assert forall|k: int| 0 <= k < after.len() implies state.emergency_signers.contains(
                #[trigger] after[k],
            ) by {
                if k < before.len() {
                    assert(state.emergency_signers.contains(before[k]));
                }
            }
        }
        lemma_approvals_bounded(after, state.emergency_signers);
        assert forall|i: int| 0 <= i < next.approvals.len() implies approvals_valid(
            #[trigger] next.approvals[i],
            next.emergency_signers,
        ) by {
            if i != index {
                assert(approvals_valid(state.approvals[i], state.emergency_signers));
            }
        }
    }
}

/// A new vesting schedule keeps the vault in order, and the running total
/// grows by the whole allocation.
pub proof fn lemma_create_vesting_keeps_inv(
    state: VaultState,
    admin: Identity,
    authentic: bool,
    beneficiary: Identity,
    total_amount: i128,
    duration: u64,
    cliff: u64,
    memo: String,
    now: u64,
)
    requires
        state.inv(),
        state.create_vesting_result(admin, authentic, total_amount, duration) is Ok
            ==> state.create_vesting_fits(total_amount),
    ensures
        state.after_create_vesting(
            admin,
            authentic,
            beneficiary,
            total_amount,
            duration,
            cliff,
            memo,
            now,
        ).inv(),
        state.create_vesting_result(admin, authentic, total_amount, duration) is Ok
            ==> state.after_create_vesting(
            admin,
            authentic,
            beneficiary,
            total_amount,
            duration,
            cliff,
            memo,
            now,
        ).total_locked == state.total_locked + total_amount,
{
    if state.create_vesting_result(admin, authentic, total_amount, duration) is Ok {
        let schedule = state.new_vesting(beneficiary, total_amount, duration, cliff, memo, now);
        let next = state.with_vesting(schedule);
        assert(vesting_commitments(next.vestings) =~= vesting_commitments(state.vestings).push(
            total_amount as int,
        ));
        lemma_total_of_push(vesting_commitments(state.vestings), total_amount as int);
        lemma_commitments_covered(state);
        assert forall|i: int| 0 <= i < next.vestings.len() implies
            (#[trigger] next.vestings[i]).valid_at(i) by {
            if i < state.vestings.len() {
                assert(state.vestings[i].valid_at(i));
            }
        }
    }
}

/// What can be claimed of a valid schedule never exceeds what the schedule
/// still commits.
pub proof fn lemma_claimable_within_unclaimed(schedule: VestingSchedule, now: u64)
    requires
        schedule.valid(),
    ensures
        schedule.claimable(now) <= schedule.unclaimed(),
{
    if schedule.cliff_reached(now) {
        lemma_vested_portion_bounds(
            schedule.total_amount as int,
            now - schedule.start_time,
            schedule.duration as int,
        );
    }
}

/// A beneficiary's claim keeps the vault in order, and the running total
/// shrinks by exactly what was claimed.
pub proof fn lemma_claim_vested_keeps_inv(
    state: VaultState,
    beneficiary: Identity,
    authentic: bool,
    vesting_id: u64,
    now: u64,
)
    requires
        state.inv(),
    ensures
        state.after_claim_vested(beneficiary, authentic, vesting_id, now).inv(),
        state.claim_vested_result(beneficiary, authentic, vesting_id, now) matches Ok(amount)
            ==> state.after_claim_vested(beneficiary, authentic, vesting_id, now).total_locked
            == state.total_locked - amount,
{
    if state.claim_vested_result(beneficiary, authentic, vesting_id, now) is Ok {
        let index = vesting_id - 1;
        let schedule = state.vesting(vesting_id);
        let amount = schedule.claimable(now) as i128;
        let next = state.with_vested_claimed(vesting_id, amount);
        assert(state.vestings[index].valid_at(index));
        lemma_claimable_within_unclaimed(schedule, now);
        lemma_commitments_covered(state);
        assert(vesting_commitments(next.vestings) =~= vesting_commitments(state.vestings).update(
            index,
            schedule.unclaimed() - amount,
        ));
        lemma_total_of_update(
            vesting_commitments(state.vestings),
            index,
            schedule.unclaimed() - amount,
        );
        assert forall|i: int| 0 <= i < next.vestings.len() implies
            (#[trigger] next.vestings[i]).valid_at(i) by {
            assert(state.vestings[i].valid_at(i));
        }
    }
}

/// Handing on the administrator's role keeps the vault in order.
pub proof fn lemma_transfer_admin_keeps_inv(
    state: VaultState,
    current_admin: Identity,
    authentic: bool,
    new_admin: Identity,
)
    requires
        state.inv(),
    ensures
        state.after_transfer_admin(current_admin, authentic, new_admin).inv(),
{
}

} // verus!
