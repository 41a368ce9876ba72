//! Sequences of operations, and the states a vault can reach through them.

use vstd::prelude::*;
use crate::identity::Identity;
use crate::state::VaultState;

verus! {

/// One call of an operation that can change a vault, with its arguments.
pub enum Operation {
    /// A call of `initialize`.
    Initialize { admin: Identity, authentic: bool, signers: Seq<Identity>, threshold: u32 },
    /// A call of `lock_tokens`.
    LockTokens {
        owner: Identity,
        authentic: bool,
        amount: i128,
        duration: u64,
        memo: String,
        now: u64,
    },
    /// A call of `claim`.
    Claim { owner: Identity, authentic: bool, lock_id: u64, now: u64 },
    /// A call of `approve_emergency`.
    ApproveEmergency { signer: Identity, authentic: bool, lock_id: u64 },
    /// A call of `emergency_unlock`.
    EmergencyUnlock { caller: Identity, authentic: bool, lock_id: u64 },
    /// A call of `create_vesting`.
    CreateVesting {
        admin: Identity,
        authentic: bool,
        beneficiary: Identity,
        total_amount: i128,
        duration: u64,
        cliff: u64,
        memo: String,
        now: u64,
    },
    /// A call of `claim_vested`.
    ClaimVested { beneficiary: Identity, authentic: bool, vesting_id: u64, now: u64 },
    /// A call of `transfer_admin`.
    TransferAdmin { current_admin: Identity, authentic: bool, new_admin: Identity },
    /// A call of `drain_events`.
    DrainEvents,
}

/// Whether the numbers that `operation` would store in `state` fit the
/// machine. This is all that the operations ask of their callers beyond a
/// vault that is in order.
pub open spec fn admissible(state: VaultState, operation: Operation) -> bool {
    match operation {
        Operation::Initialize { authentic, signers, .. } => state.initialize_result(authentic)
            is Ok ==> signers.len() <= u32::MAX,
        Operation::LockTokens { authentic, amount, duration, now, .. } => state.lock_tokens_result(
            authentic,
            amount,
            duration,
        ) is Ok ==> state.lock_tokens_fits(amount, duration, now),
        Operation::CreateVesting {
            admin,
            authentic,
            total_amount,
            duration,
            ..
        } => state.create_vesting_result(admin, authentic, total_amount, duration) is Ok
            ==> state.create_vesting_fits(total_amount),
        _ => true,
    }
}

/// The state that `operation` leaves behind when it is called on `state`.
pub open spec fn step(state: VaultState, operation: Operation) -> VaultState {
    match operation {
        Operation::Initialize { admin, authentic, signers, threshold } => state.after_initialize(
            admin,
            authentic,
            signers,
            threshold,
        ),
        Operation::LockTokens {
            owner,
            authentic,
            amount,
            duration,
            memo,
            now,
        } => state.after_lock_tokens(owner, authentic, amount, duration, memo, now),
        Operation::Claim { owner, authentic, lock_id, now } => state.after_claim(
            owner,
            authentic,
            lock_id,
            now,
        ),
        Operation::ApproveEmergency { signer, authentic, lock_id } => state.after_approve_emergency(
            signer,
            authentic,
            lock_id,
        ),
        Operation::EmergencyUnlock { caller, authentic, lock_id } => state.after_emergency_unlock(
            caller,
            authentic,
            lock_id,
        ),
        Operation::CreateVesting {
            admin,
            authentic,
            beneficiary,
            total_amount,
            duration,
            cliff,
            memo,
            now,
        } => state.after_create_vesting(
            admin,
            authentic,
            beneficiary,
            total_amount,
            duration,
            cliff,
            memo,
            now,
        ),
        Operation::ClaimVested { beneficiary, authentic, vesting_id, now } => state.after_claim_vested(
            beneficiary,
            authentic,
            vesting_id,
            now,
        ),
        Operation::TransferAdmin {
            current_admin,
            authentic,
            new_admin,
        } => state.after_transfer_admin(current_admin, authentic, new_admin),
        Operation::DrainEvents => state.after_drain_events(),
    }
}

/// Whether `operation` succeeds when it is called on `state`.
pub open spec fn succeeds(state: VaultState, operation: Operation) -> bool {
    match operation {
        Operation::Initialize { authentic, .. } => state.initialize_result(authentic) is Ok,
        Operation::LockTokens { authentic, amount, duration, .. } => state.lock_tokens_result(
            authentic,
            amount,
            duration,
        ) is Ok,
        Operation::Claim { owner, authentic, lock_id, now } => state.claim_result(
            owner,
            authentic,
            lock_id,
            now,
        ) is Ok,
        Operation::ApproveEmergency { signer, authentic, lock_id } => state.approve_emergency_result(
            signer,
            authentic,
            lock_id,
        ) is Ok,
        Operation::EmergencyUnlock { authentic, lock_id, .. } => state.emergency_unlock_result(
            authentic,
            lock_id,
        ) is Ok,
        Operation::CreateVesting {
            admin,
            authentic,
            total_amount,
            duration,
            ..
        } => state.create_vesting_result(admin, authentic, total_amount, duration) is Ok,
        Operation::ClaimVested { beneficiary, authentic, vesting_id, now } => state.claim_vested_result(
            beneficiary,
            authentic,
            vesting_id,
            now,
        ) is Ok,
        Operation::TransferAdmin { current_admin, authentic, .. } => state.admin_guard(
            current_admin,
            authentic,
        ) is Ok,
        Operation::DrainEvents => true,
    }
}

/// The state reached from `state` by calling `operations` one after another.
pub open spec fn run(state: VaultState, operations: Seq<Operation>) -> VaultState
    decreases operations.len(),
{
    if operations.len() == 0 {
        state
    } else {
        step(run(state, operations.drop_last()), operations.last())
    }
}

/// Whether each of `operations` is admissible in the state it is called in.
pub open spec fn admissible_run(state: VaultState, operations: Seq<Operation>) -> bool
    decreases operations.len(),
{
    if operations.len() == 0 {
        true
    } else {
        &&& admissible_run(state, operations.drop_last())
        &&& admissible(run(state, operations.drop_last()), operations.last())
    }
}

} // verus!
