//! What holds of the vault whatever is done with it.

use vstd::prelude::*;
use crate::error::Error;
use crate::history::{admissible, admissible_run, run, step, succeeds, Operation};
use crate::identity::Identity;
use crate::ledger::committed;
use crate::preservation::{
    lemma_approve_emergency_keeps_inv, lemma_claim_keeps_inv, lemma_claim_vested_keeps_inv,
    lemma_claimable_within_unclaimed, lemma_commitments_covered, lemma_create_vesting_keeps_inv,
    lemma_emergency_unlock_keeps_inv, lemma_fresh_inv, lemma_initialize_keeps_inv,
    lemma_lock_tokens_keeps_inv, lemma_transfer_admin_keeps_inv,
};
use crate::records::{TokenLock, VestingSchedule};
use crate::state::VaultState;
use crate::vesting::{lemma_vested_portion_bounds, lemma_vested_portion_monotonic};

verus! {

/// An operation that is refused changes nothing.
pub proof fn law_refused_operation_changes_nothing(state: VaultState, operation: Operation)
    requires
        !succeeds(state, operation),
    ensures
        step(state, operation) == state,
{
}

/// Every operation leaves a vault that was in order in order.
pub proof fn law_step_keeps_inv(state: VaultState, operation: Operation)
    requires
        state.inv(),
        admissible(state, operation),
    ensures
        step(state, operation).inv(),
{
    match operation {
        Operation::Initialize { admin, authentic, signers, threshold } => {
            lemma_initialize_keeps_inv(state, admin, authentic, signers, threshold);
        },
        Operation::LockTokens { owner, authentic, amount, duration, memo, now } => {
            lemma_lock_tokens_keeps_inv(state, owner, authentic, amount, duration, memo, now);
        },
        Operation::Claim { owner, authentic, lock_id, now } => {
            lemma_claim_keeps_inv(state, owner, authentic, lock_id, now);
        },
        Operation::ApproveEmergency { signer, authentic, lock_id } => {
            lemma_approve_emergency_keeps_inv(state, signer, authentic, lock_id);
        },
        Operation::EmergencyUnlock { caller, authentic, lock_id } => {
            lemma_emergency_unlock_keeps_inv(state, caller, authentic, lock_id);
        },
        Operation::CreateVesting {
            admin,
            authentic,
            beneficiary,
            total_amount,
            duration,
            cliff,
            memo,
            now,
        } => {
            lemma_create_vesting_keeps_inv(
                state,
                admin,
                authentic,
                beneficiary,
                total_amount,
                duration,
                cliff,
                memo,
                now,
            );
        },
        Operation::ClaimVested { beneficiary, authentic, vesting_id, now } => {
            lemma_claim_vested_keeps_inv(state, beneficiary, authentic, vesting_id, now);
        },
        Operation::TransferAdmin { current_admin, authentic, new_admin } => {
            lemma_transfer_admin_keeps_inv(state, current_admin, authentic, new_admin);
        },
        Operation::DrainEvents => {},
    }
}

/// Any sequence of operations leaves a vault that was in order in order.
pub proof fn law_run_keeps_inv(state: VaultState, operations: Seq<Operation>)
    requires
        state.inv(),
        admissible_run(state, operations),
    ensures
        run(state, operations).inv(),
    decreases operations.len(),
{
    if operations.len() > 0 {
        law_run_keeps_inv(state, operations.drop_last());
        law_step_keeps_inv(run(state, operations.drop_last()), operations.last());
    }
}

/// In every state that a vault can reach from empty, the running total is
/// not negative and equals the amounts of the locks that were not released
/// plus, of each vesting schedule, what was not claimed.
pub proof fn law_reachable_states_balance(operations: Seq<Operation>)
    requires
        admissible_run(VaultState::fresh(), operations),
    ensures
        run(VaultState::fresh(), operations).inv(),
        run(VaultState::fresh(), operations).total_locked >= 0,
        run(VaultState::fresh(), operations).total_locked == committed(
            run(VaultState::fresh(), operations).locks,
            run(VaultState::fresh(), operations).vestings,
        ),
{
    lemma_fresh_inv();
    law_run_keeps_inv(VaultState::fresh(), operations);
    lemma_commitments_covered(run(VaultState::fresh(), operations));
}

/// A successful claim and a successful emergency release both mark the lock
/// as released.
pub proof fn law_release_latches(
    state: VaultState,
    who: Identity,
    authentic: bool,
    lock_id: u64,
    now: u64,
)
    ensures
        state.claim_result(who, authentic, lock_id, now) is Ok ==> state.after_claim(
            who,
            authentic,
            lock_id,
            now,
        ).lock(lock_id).claimed,
        state.emergency_unlock_result(authentic, lock_id) is Ok ==> state.after_emergency_unlock(
            who,
            authentic,
            lock_id,
        ).lock(lock_id).claimed,
{
}

/// No operation brings a released lock back: it stays where it is and
/// stays released.
pub proof fn law_released_lock_stays_released_step(
    state: VaultState,
    operation: Operation,
    lock_id: u64,
)
    requires
        state.has_lock(lock_id),
        state.lock(lock_id).claimed,
    ensures
        step(state, operation).has_lock(lock_id),
        step(state, operation).lock(lock_id).claimed,
{
}

/// Once a lock is released, it stays released whatever is done afterwards,
/// and neither a claim nor an emergency release of it succeeds again.
pub proof fn law_released_lock_stays_released(
    state: VaultState,
    operations: Seq<Operation>,
    lock_id: u64,
    who: Identity,
    authentic: bool,
    now: u64,
)
    requires
        state.has_lock(lock_id),
        state.lock(lock_id).claimed,
    ensures
        run(state, operations).has_lock(lock_id),
        run(state, operations).lock(lock_id).claimed,
        run(state, operations).claim_result(who, authentic, lock_id, now) is Err,
        run(state, operations).emergency_unlock_result(authentic, lock_id) is Err,
    decreases operations.len(),
{
    if operations.len() > 0 {
        law_released_lock_stays_released(
            state,
            operations.drop_last(),
            lock_id,
            who,
            authentic,
            now,
        );
        law_released_lock_stays_released_step(
            run(state, operations.drop_last()),
            operations.last(),
            lock_id,
        );
    }
}

/// No operation takes back what was claimed of a vesting schedule or
/// changes its allocation, and what was claimed never exceeds the allocation.
pub proof fn law_vesting_claims_only_grow_step(
    state: VaultState,
    operation: Operation,
    vesting_id: u64,
)
    requires
        state.inv(),
        admissible(state, operation),
        state.has_vesting(vesting_id),
    ensures
        step(state, operation).has_vesting(vesting_id),
        step(state, operation).vesting(vesting_id).total_amount == state.vesting(
            vesting_id,
        ).total_amount,
        state.vesting(vesting_id).claimed_amount <= step(state, operation).vesting(
            vesting_id,
        ).claimed_amount <= state.vesting(vesting_id).total_amount,
{
    assert(state.vestings[vesting_id - 1].valid_at(vesting_id - 1));
    match operation {
        Operation::ClaimVested { beneficiary, authentic, vesting_id: claimed_id, now } => {
            if state.claim_vested_result(beneficiary, authentic, claimed_id, now) is Ok {
                assert(state.vestings[claimed_id - 1].valid_at(claimed_id - 1));
                lemma_claimable_within_unclaimed(state.vesting(claimed_id), now);
            }
        },
        _ => {},
    }
}

/// Over any sequence of operations, what was claimed of a vesting schedule
/// never shrinks and never exceeds the allocation.
pub proof fn law_vesting_claims_only_grow(
    state: VaultState,
    operations: Seq<Operation>,
    vesting_id: u64,
)
    requires
        state.inv(),
        admissible_run(state, operations),
        state.has_vesting(vesting_id),
    ensures
        run(state, operations).has_vesting(vesting_id),
        run(state, operations).vesting(vesting_id).total_amount == state.vesting(
            vesting_id,
        ).total_amount,
        state.vesting(vesting_id).claimed_amount <= run(state, operations).vesting(
            vesting_id,
        ).claimed_amount <= state.vesting(vesting_id).total_amount,
    decreases operations.len(),
{
    if operations.len() > 0 {
        law_vesting_claims_only_grow(state, operations.drop_last(), vesting_id);
        law_run_keeps_inv(state, operations.drop_last());
        law_vesting_claims_only_grow_step(
            run(state, operations.drop_last()),
            operations.last(),
            vesting_id,
        );
    }
}

/// A lock is never deleted, and nothing about it ever changes but that it
/// is released: every operation leaves each lock as it was or marks it as
/// released.
pub proof fn law_lock_changes_only_by_release(
    state: VaultState,
    operation: Operation,
    lock_id: u64,
)
    requires
        state.has_lock(lock_id),
    ensures
        step(state, operation).has_lock(lock_id),
        step(state, operation).lock(lock_id) == state.lock(lock_id) || step(
            state,
            operation,
        ).lock(lock_id) == state.lock(lock_id).released(),
        step(state, operation).lock_counter() >= state.lock_counter(),
{
}

/// A vesting schedule is never deleted, and nothing about it ever changes
/// but what was claimed of it.
pub proof fn law_vesting_changes_only_by_claims(
    state: VaultState,
    operation: Operation,
    vesting_id: u64,
)
    requires
        state.has_vesting(vesting_id),
    ensures
        step(state, operation).has_vesting(vesting_id),
        step(state, operation).vesting(vesting_id) == (VestingSchedule {
            claimed_amount: step(state, operation).vesting(vesting_id).claimed_amount,
            ..state.vesting(vesting_id)
        }),
        step(state, operation).vesting_counter() >= state.vesting_counter(),
{
}

/// Once the vault is initialized it stays initialized, and its committee
/// and threshold stay as initialization set them.
pub proof fn law_committee_is_fixed(state: VaultState, operation: Operation)
    requires
        state.initialized,
    ensures
        step(state, operation).initialized,
        step(state, operation).emergency_signers == state.emergency_signers,
        step(state, operation).emergency_threshold == state.emergency_threshold,
{
}

/// Only a successful transfer changes the administrator.
pub proof fn law_admin_changes_only_by_transfer(state: VaultState, operation: Operation)
    requires
        state.initialized,
        !(operation is TransferAdmin && succeeds(state, operation)),
    ensures
        step(state, operation).admin == state.admin,
{
}

/// A lock that was just made can be read back under the id that was
/// returned: it has the owner, the amount and the memo that were given, it
/// unlocks `duration` after `now`, and it is not released.
pub proof fn law_new_lock_reads_back(
    state: VaultState,
    owner: Identity,
    authentic: bool,
    amount: i128,
    duration: u64,
    memo: String,
    now: u64,
)
    requires
        state.inv(),
        state.lock_tokens_result(authentic, amount, duration) is Ok,
        state.lock_tokens_fits(amount, duration, now),
    ensures
        state.lock_tokens_result(authentic, amount, duration) matches Ok(lock_id)
            && state.after_lock_tokens(owner, authentic, amount, duration, memo, now).get_lock_result(
            lock_id,
        ) == Ok::<TokenLock, Error>(
            TokenLock {
                id: lock_id,
                owner,
                amount,
                locked_at: now,
                unlock_at: (now + duration) as u64,
                claimed: false,
                memo,
            },
        ),
{
}

/// Before the cliff a beneficiary's claim finds nothing to claim.
pub proof fn law_nothing_to_claim_before_cliff(
    state: VaultState,
    beneficiary: Identity,
    vesting_id: u64,
    now: u64,
)
    requires
        state.initialized,
        state.has_vesting(vesting_id),
        state.vesting(vesting_id).beneficiary == beneficiary,
        now < state.vesting(vesting_id).start_time + state.vesting(vesting_id).cliff,
    ensures
        state.claim_vested_result(beneficiary, true, vesting_id, now) == Err::<i128, Error>(
            Error::NothingToClaim,
        ),
{
}

/// From the cliff on a beneficiary's claim succeeds exactly when more has
/// vested than was claimed, and it then returns the difference.
pub proof fn law_claim_from_cliff_on(
    state: VaultState,
    beneficiary: Identity,
    vesting_id: u64,
    now: u64,
)
    requires
        state.inv(),
        state.initialized,
        state.has_vesting(vesting_id),
        state.vesting(vesting_id).beneficiary == beneficiary,
        now >= state.vesting(vesting_id).start_time + state.vesting(vesting_id).cliff,
    ensures
        state.vesting(vesting_id).vested(now) > state.vesting(vesting_id).claimed_amount
            ==> state.claim_vested_result(beneficiary, true, vesting_id, now) == Ok::<i128, Error>(
            (state.vesting(vesting_id).vested(now) - state.vesting(vesting_id).claimed_amount)
                as i128,
        ),
        state.vesting(vesting_id).vested(now) <= state.vesting(vesting_id).claimed_amount
            ==> state.claim_vested_result(beneficiary, true, vesting_id, now) == Err::<i128, Error>(
            Error::NothingToClaim,
        ),
        0 <= state.vesting(vesting_id).vested(now) <= state.vesting(vesting_id).total_amount,
{
    let schedule = state.vesting(vesting_id);
    assert(state.vestings[vesting_id - 1].valid_at(vesting_id - 1));
    lemma_vested_portion_bounds(
        schedule.total_amount as int,
        now - schedule.start_time,
        schedule.duration as int,
    );
}

/// A successful claim of what has vested leaves nothing to claim at the
/// same instant: a second call does not grant the amount again.
pub proof fn law_claim_vested_is_not_granted_twice(
    state: VaultState,
    beneficiary: Identity,
    authentic: bool,
    vesting_id: u64,
    now: u64,
)
    requires
        state.inv(),
        state.claim_vested_result(beneficiary, authentic, vesting_id, now) is Ok,
    ensures
        state.after_claim_vested(beneficiary, authentic, vesting_id, now).claim_vested_result(
            beneficiary,
            authentic,
            vesting_id,
            now,
        ) == Err::<i128, Error>(Error::NothingToClaim),
{
    let schedule = state.vesting(vesting_id);
    assert(state.vestings[vesting_id - 1].valid_at(vesting_id - 1));
    lemma_claimable_within_unclaimed(schedule, now);
}

/// Once the whole duration has passed and the cliff is behind, one claim
/// hands out all that was not claimed yet, and a claim at the same or a
/// later instant finds nothing more.
pub proof fn law_full_vesting_pays_the_rest(
    state: VaultState,
    beneficiary: Identity,
    vesting_id: u64,
    now: u64,
    later: u64,
)
    requires
        state.inv(),
        state.initialized,
        state.has_vesting(vesting_id),
        state.vesting(vesting_id).beneficiary == beneficiary,
        now >= state.vesting(vesting_id).start_time + state.vesting(vesting_id).duration,
        now >= state.vesting(vesting_id).start_time + state.vesting(vesting_id).cliff,
        state.vesting(vesting_id).claimed_amount < state.vesting(vesting_id).total_amount,
        later >= now,
    ensures
        state.claim_vested_result(beneficiary, true, vesting_id, now) == Ok::<i128, Error>(
            (state.vesting(vesting_id).total_amount - state.vesting(vesting_id).claimed_amount)
                as i128,
        ),
        state.after_claim_vested(beneficiary, true, vesting_id, now).vesting(
            vesting_id,
        ).claimed_amount == state.vesting(vesting_id).total_amount,
        state.after_claim_vested(beneficiary, true, vesting_id, now).claim_vested_result(
            beneficiary,
            true,
            vesting_id,
            later,
        ) == Err::<i128, Error>(Error::NothingToClaim),
{
    assert(state.vestings[vesting_id - 1].valid_at(vesting_id - 1));
}

/// What has vested of a schedule never shrinks as the clock advances.
pub proof fn law_vested_never_shrinks(
    state: VaultState,
    vesting_id: u64,
    earlier: u64,
    later: u64,
)
    requires
        state.inv(),
        state.has_vesting(vesting_id),
        state.vesting(vesting_id).start_time <= earlier <= later,
    ensures
        state.vesting(vesting_id).vested(earlier) <= state.vesting(vesting_id).vested(later),
{
    let schedule = state.vesting(vesting_id);
    assert(state.vestings[vesting_id - 1].valid_at(vesting_id - 1));
    lemma_vested_portion_monotonic(
        schedule.total_amount as int,
        earlier - schedule.start_time,
        later - schedule.start_time,
        schedule.duration as int,
    );
}

/// The approvals decide an emergency release: with fewer than the threshold
/// it is refused, with as many or more it succeeds once, and afterwards
/// neither it nor the owner's claim succeeds.
pub proof fn law_quorum_gates_emergency_release(
    state: VaultState,
    caller: Identity,
    lock_id: u64,
    now: u64,
)
    requires
        state.initialized,
        state.has_lock(lock_id),
        !state.lock(lock_id).claimed,
    ensures
        state.approvers(lock_id).len() < state.emergency_threshold
            ==> state.emergency_unlock_result(true, lock_id) == Err::<i128, Error>(
            Error::EmergencyNotApproved,
        ),
        state.approvers(lock_id).len() >= state.emergency_threshold ==> {
            &&& state.emergency_unlock_result(true, lock_id) == Ok::<i128, Error>(
                state.lock(lock_id).amount,
            )
            &&& state.after_emergency_unlock(caller, true, lock_id).emergency_unlock_result(
                true,
                lock_id,
            ) == Err::<i128, Error>(Error::AlreadyClaimed)
            &&& state.after_emergency_unlock(caller, true, lock_id).claim_result(
                state.lock(lock_id).owner,
                true,
                lock_id,
                now,
            ) == Err::<i128, Error>(Error::AlreadyClaimed)
        },
{
}

/// A successful approval adds exactly one approval to the lock, returns the
/// new count, and cannot be repeated by the same signer.
pub proof fn law_approval_counts_once(
    state: VaultState,
    signer: Identity,
    authentic: bool,
    lock_id: u64,
)
    requires
        state.inv(),
        state.approve_emergency_result(signer, authentic, lock_id) is Ok,
    ensures
        state.approve_emergency_result(signer, authentic, lock_id) matches Ok(count) && count
            == state.approvers(lock_id).len() + 1 && state.after_approve_emergency(
            signer,
            authentic,
            lock_id,
        ).approvers(lock_id).len() == count,
        state.after_approve_emergency(signer, authentic, lock_id).approve_emergency_result(
            signer,
            authentic,
            lock_id,
        ) == Err::<u32, Error>(Error::AlreadyApprovedEmergency),
{
    lemma_approve_emergency_keeps_inv(state, signer, authentic, lock_id);
    let before = state.approvers(lock_id);
    let after = state.after_approve_emergency(signer, authentic, lock_id).approvers(lock_id);
    assert(after == before.push(signer));
    assert(after[before.len() as int] == signer);
}

} // verus!
