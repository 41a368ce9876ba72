//! The vault as a mathematical value, and each operation as a function on it.
//!
//! Every operation is described by two functions: one gives what the
//! operation returns, the other the state it leaves behind. A refused
//! operation leaves the state as it was. The invariant [`VaultState::inv`]
//! holds of the empty vault and is kept by every operation.

use vstd::prelude::*;
use crate::error::Error;
use crate::events::Event;
use crate::identity::Identity;
use crate::ledger::{committed, debited};
use crate::records::{TokenLock, VaultStats, VestingSchedule};

verus! {

/// The state of a vault.
pub struct VaultState {
    /// Whether the vault has been initialized. Nothing else can be done before.
    pub initialized: bool,
    /// The administrator, once there is one.
    pub admin: Option<Identity>,
    /// The committee whose members may approve emergency releases.
    pub emergency_signers: Seq<Identity>,
    /// How many approvals an emergency release needs.
    pub emergency_threshold: u32,
    /// The running total of everything that is still committed.
    pub total_locked: i128,
    /// The locks, in the order they were made: the lock with id `n` is at
    /// position `n - 1`.
    pub locks: Seq<TokenLock>,
    /// The vesting schedules, in the order they were made.
    pub vestings: Seq<VestingSchedule>,
    /// For each lock, at the lock's position, who approved its emergency release.
    pub approvals: Seq<Seq<Identity>>,
    /// The notifications that were not handed out yet, oldest first.
    pub events: Seq<Event>,
}

/// Holds of the approvals of one lock: nobody approved twice, and everyone
/// who approved is a member of the committee.
pub open spec fn approvals_valid(approvers: Seq<Identity>, signers: Seq<Identity>) -> bool {
    &&& approvers.no_duplicates()
    &&& forall|k: int| 0 <= k < approvers.len() ==> signers.contains(#[trigger] approvers[k])
}

/// The approvals of every lock as sequences.
pub open spec fn approval_lists(approvals: Seq<Vec<Identity>>) -> Seq<Seq<Identity>> {
    approvals.map_values(|approvers: Vec<Identity>| approvers@)
}

impl VaultState {
    /// The vault before it is initialized. Until initialization sets the
    /// threshold, an emergency release would need two approvals.
    pub open spec fn fresh() -> VaultState {
        VaultState {
            initialized: false,
            admin: None,
            emergency_signers: Seq::empty(),
            emergency_threshold: 2,
            total_locked: 0,
            locks: Seq::empty(),
            vestings: Seq::empty(),
            approvals: Seq::empty(),
            events: Seq::empty(),
        }
    }

    /// How many locks were ever made. The next lock gets the id after it.
    pub open spec fn lock_counter(self) -> nat {
        self.locks.len()
    }

    /// How many vesting schedules were ever made.
    pub open spec fn vesting_counter(self) -> nat {
        self.vestings.len()
    }

    /// Whether a lock has this id.
    pub open spec fn has_lock(self, lock_id: u64) -> bool {
        1 <= lock_id <= self.locks.len()
    }

    /// The lock with this id.
    pub open spec fn lock(self, lock_id: u64) -> TokenLock
        recommends
            self.has_lock(lock_id),
    {
        self.locks[lock_id - 1]
    }

    /// Who approved the emergency release of the lock with this id.
    pub open spec fn approvers(self, lock_id: u64) -> Seq<Identity>
        recommends
            self.has_lock(lock_id),
    {
        self.approvals[lock_id - 1]
    }

    /// Whether a vesting schedule has this id.
    pub open spec fn has_vesting(self, vesting_id: u64) -> bool {
        1 <= vesting_id <= self.vestings.len()
    }

    /// The vesting schedule with this id.
    pub open spec fn vesting(self, vesting_id: u64) -> VestingSchedule
        recommends
            self.has_vesting(vesting_id),
    {
        self.vestings[vesting_id - 1]
    }

    /// Whether `who` is a member of the committee of emergency signers.
    pub open spec fn is_signer(self, who: Identity) -> bool {
        self.emergency_signers.contains(who)
    }

    /// What holds of a vault between any two operations.
    ///
    /// The running total equals what the locks and vesting schedules still
    /// commit; ids are positions counted from 1; every record is valid; the
    /// approvals of each lock name distinct committee members; and a vault
    /// that was not initialized holds nothing.
    pub open spec fn inv(self) -> bool {
        &&& self.initialized <==> self.admin is Some
        &&& !self.initialized ==> self.locks.len() == 0 && self.vestings.len() == 0
        &&& self.emergency_signers.len() <= u32::MAX
        &&& self.locks.len() <= u64::MAX
        &&& self.vestings.len() <= u64::MAX
        &&& self.approvals.len() == self.locks.len()
        &&& forall|i: int| 0 <= i < self.locks.len() ==> (#[trigger] self.locks[i]).valid_at(i)
        &&& forall|i: int|
            0 <= i < self.vestings.len() ==> (#[trigger] self.vestings[i]).valid_at(i)
        &&& forall|i: int|
            0 <= i < self.approvals.len() ==> approvals_valid(
                #[trigger] self.approvals[i],
                self.emergency_signers,
            )
        &&& self.total_locked == committed(self.locks, self.vestings)
    }

    // ------------------------------------------------------------------
    // Guards
    // ------------------------------------------------------------------

    /// The guard that every operation but initialization starts with.
    pub open spec fn initialized_check(self) -> Result<(), Error> {
        if self.initialized {
            Ok(())
        } else {
            Err(Error::NotInitialized)
        }
    }

    /// The guard of the administrator's operations.
    pub open spec fn admin_check(self, caller: Identity) -> Result<(), Error> {
        match self.admin {
            None => Err(Error::NotInitialized),
            Some(admin) => if admin == caller {
                Ok(())
            } else {
                Err(Error::Unauthorized)
            },
        }
    }

    /// The guard on the identity at stake: whether it has proved that it is
    /// the caller.
    pub open spec fn authentic_check(authentic: bool) -> Result<(), Error> {
        if authentic {
            Ok(())
        } else {
            Err(Error::Unauthorized)
        }
    }

    /// The guards of the administrator's operations in the order they are
    /// applied: the vault is initialized, the caller is the administrator,
    /// and the caller is authentic.
    pub open spec fn admin_guard(self, caller: Identity, authentic: bool) -> Result<(), Error> {
        if self.initialized_check() is Err {
            self.initialized_check()
        } else if self.admin_check(caller) is Err {
            self.admin_check(caller)
        } else if !authentic {
            Err(Error::Unauthorized)
        } else {
            Ok(())
        }
    }

    // ------------------------------------------------------------------
    // Initialization
    // ------------------------------------------------------------------

    /// What initialization returns.
    pub open spec fn initialize_result(self, authentic: bool) -> Result<(), Error> {
        if self.initialized {
            Err(Error::AlreadyInitialized)
        } else if !authentic {
            Err(Error::Unauthorized)
        } else {
            Ok(())
        }
    }

    /// The vault after a successful initialization.
    pub open spec fn initialized_with(
        self,
        admin: Identity,
        signers: Seq<Identity>,
        threshold: u32,
    ) -> VaultState {
        VaultState {
            initialized: true,
            admin: Some(admin),
            emergency_signers: signers,
            emergency_threshold: threshold,
            total_locked: 0,
            events: self.events.push(
                Event::Initialized { admin, signer_count: signers.len() as u32 },
            ),
            ..self
        }
    }

    /// The vault after initialization, successful or not.
    pub open spec fn after_initialize(
        self,
        admin: Identity,
        authentic: bool,
        signers: Seq<Identity>,
        threshold: u32,
    ) -> VaultState {
        if self.initialize_result(authentic) is Ok {
            self.initialized_with(admin, signers, threshold)
        } else {
            self
        }
    }

    // ------------------------------------------------------------------
    // Locks
    // ------------------------------------------------------------------

    /// What locking an amount returns: the id of the new lock, or why the
    /// request was refused.
    pub open spec fn lock_tokens_result(self, authentic: bool, amount: i128, duration: u64)
        -> Result<u64, Error> {
        if !self.initialized {
            Err(Error::NotInitialized)
        } else if amount <= 0 {
            Err(Error::InvalidAmount)
        } else if duration == 0 {
            Err(Error::InvalidDuration)
        } else if !authentic {
            Err(Error::Unauthorized)
        } else {
            Ok((self.locks.len() + 1) as u64)
        }
    }

    /// Whether the numbers of a new lock fit the machine: its id and its
    /// unlock instant in 64 bits, the new running total in 128.
    pub open spec fn lock_tokens_fits(self, amount: i128, duration: u64, now: u64) -> bool {
        &&& self.locks.len() < u64::MAX
        &&& now + duration <= u64::MAX
        &&& self.total_locked + amount <= i128::MAX
    }

    /// The lock that a request makes at `now`.
    pub open spec fn new_lock(
        self,
        owner: Identity,
        amount: i128,
        duration: u64,
        memo: String,
        now: u64,
    ) -> TokenLock {
        TokenLock {
            id: (self.locks.len() + 1) as u64,
            owner,
            amount,
            locked_at: now,
            unlock_at: (now + duration) as u64,
            claimed: false,
            memo,
        }
    }

    /// The vault with one more lock, which nobody has approved for release.
    pub open spec fn with_lock(self, lock: TokenLock, duration: u64) -> VaultState {
        VaultState {
            locks: self.locks.push(lock),
            approvals: self.approvals.push(Seq::empty()),
            total_locked: (self.total_locked + lock.amount) as i128,
            events: self.events.push(
                Event::Locked { lock_id: lock.id, owner: lock.owner, amount: lock.amount, duration },
            ),
            ..self
        }
    }

    /// The vault after a request to lock an amount, successful or not.
    pub open spec fn after_lock_tokens(
        self,
        owner: Identity,
        authentic: bool,
        amount: i128,
        duration: u64,
        memo: String,
        now: u64,
    ) -> VaultState {
        if self.lock_tokens_result(authentic, amount, duration) is Ok {
            self.with_lock(self.new_lock(owner, amount, duration, memo, now), duration)
        } else {
            self
        }
    }

    /// What an owner's claim returns: the lock's amount, or why the claim
    /// was refused.
    pub open spec fn claim_result(self, owner: Identity, authentic: bool, lock_id: u64, now: u64)
        -> Result<i128, Error> {
        if !self.initialized {
            Err(Error::NotInitialized)
        } else if !authentic {
            Err(Error::Unauthorized)
        } else if !self.has_lock(lock_id) {
            Err(Error::LockNotFound)
        } else if self.lock(lock_id).owner != owner {
            Err(Error::Unauthorized)
        } else if self.lock(lock_id).claimed {
            Err(Error::AlreadyClaimed)
        } else if now < self.lock(lock_id).unlock_at {
            Err(Error::LockStillActive)
        } else {
            Ok(self.lock(lock_id).amount)
        }
    }

    /// The vault after the lock with this id has been released, by its owner
    /// or by the committee, and `event` has been noted.
    pub open spec fn with_lock_released(self, lock_id: u64, event: Event) -> VaultState {
        VaultState {
            locks: self.locks.update(lock_id - 1, self.lock(lock_id).released()),
            total_locked: debited(self.total_locked as int, self.lock(lock_id).amount as int) as i128,
            events: self.events.push(event),
            ..self
        }
    }

    /// The vault after an owner's claim, successful or not.
    pub open spec fn after_claim(self, owner: Identity, authentic: bool, lock_id: u64, now: u64)
        -> VaultState {
        if self.claim_result(owner, authentic, lock_id, now) is Ok {
            self.with_lock_released(
                lock_id,
                Event::Claimed { lock_id, owner, amount: self.lock(lock_id).amount },
            )
        } else {
            self
        }
    }

    // ------------------------------------------------------------------
    // Emergency release
    // ------------------------------------------------------------------

    /// What a signer's approval returns: how many approvals the lock has
    /// with this one, or why the approval was refused.
    pub open spec fn approve_emergency_result(self, signer: Identity, authentic: bool, lock_id: u64)
        -> Result<u32, Error> {
        if !self.initialized {
            Err(Error::NotInitialized)
        } else if !authentic {
            Err(Error::Unauthorized)
        } else if !self.is_signer(signer) {
            Err(Error::Unauthorized)
        } else if !self.has_lock(lock_id) {
            Err(Error::LockNotFound)
        } else if self.lock(lock_id).claimed {
            Err(Error::AlreadyClaimed)
        } else if self.approvers(lock_id).contains(signer) {
            Err(Error::AlreadyApprovedEmergency)
        } else {
            Ok((self.approvers(lock_id).len() + 1) as u32)
        }
    }

    /// The vault after `signer` has been added to a lock's approvals.
    pub open spec fn with_approval(self, signer: Identity, lock_id: u64) -> VaultState {
        VaultState {
            approvals: self.approvals.update(lock_id - 1, self.approvers(lock_id).push(signer)),
            events: self.events.push(
                Event::EmergencyApproved {
                    lock_id,
                    signer,
                    approvals: (self.approvers(lock_id).len() + 1) as u32,
                },
            ),
            ..self
        }
    }

    /// The vault after a signer's approval, successful or not.
    pub open spec fn after_approve_emergency(self, signer: Identity, authentic: bool, lock_id: u64)
        -> VaultState {
        if self.approve_emergency_result(signer, authentic, lock_id) is Ok {
            self.with_approval(signer, lock_id)
        } else {
            self
        }
    }

    /// Whether the lock with this id has as many approvals as the threshold asks for.
    pub open spec fn quorum_reached(self, lock_id: u64) -> bool {
        self.approvers(lock_id).len() >= self.emergency_threshold
    }

    /// What an emergency release returns: the lock's amount, or why the
    /// release was refused. Any authentic caller may ask for it; the
    /// approvals decide.
    pub open spec fn emergency_unlock_result(self, authentic: bool, lock_id: u64) -> Result<
        i128,
        Error,
    > {
        if !self.initialized {
            Err(Error::NotInitialized)
        } else if !authentic {
            Err(Error::Unauthorized)
        } else if !self.has_lock(lock_id) {
            Err(Error::LockNotFound)
        } else if self.lock(lock_id).claimed {
            Err(Error::AlreadyClaimed)
        } else if !self.quorum_reached(lock_id) {
            Err(Error::EmergencyNotApproved)
        } else {
            Ok(self.lock(lock_id).amount)
        }
    }

    /// The vault after a request for an emergency release, successful or not.
    /// The approvals stay as they are.
    pub open spec fn after_emergency_unlock(self, caller: Identity, authentic: bool, lock_id: u64)
        -> VaultState {
        if self.emergency_unlock_result(authentic, lock_id) is Ok {
            self.with_lock_released(
                lock_id,
                Event::EmergencyUnlocked { lock_id, caller, amount: self.lock(lock_id).amount },
            )
        } else {
            self
        }
    }

    // ------------------------------------------------------------------
    // Vesting
    // ------------------------------------------------------------------

    /// What the creation of a vesting schedule returns: the id of the new
    /// schedule, or why the request was refused. A cliff longer than the
    /// duration is accepted.
    pub open spec fn create_vesting_result(
        self,
        admin: Identity,
        authentic: bool,
        total_amount: i128,
        duration: u64,
    ) -> Result<u64, Error> {
        match self.admin_guard(admin, authentic) {
            Err(refusal) => Err(refusal),
            Ok(_) => if total_amount <= 0 {
                Err(Error::InvalidAmount)
            } else if duration == 0 {
                Err(Error::InvalidDuration)
            } else {
                Ok((self.vestings.len() + 1) as u64)
            },
        }
    }

    /// Whether the numbers of a new vesting schedule fit the machine: its id
    /// in 64 bits, the new running total in 128.
    pub open spec fn create_vesting_fits(self, total_amount: i128) -> bool {
        &&& self.vestings.len() < u64::MAX
        &&& self.total_locked + total_amount <= i128::MAX
    }

    /// The vesting schedule that a request makes at `now`.
    pub open spec fn new_vesting(
        self,
        beneficiary: Identity,
        total_amount: i128,
        duration: u64,
        cliff: u64,
        memo: String,
        now: u64,
    ) -> VestingSchedule {
        VestingSchedule {
            id: (self.vestings.len() + 1) as u64,
            beneficiary,
            total_amount,
            claimed_amount: 0,
            start_time: now,
            duration,
            cliff,
            memo,
        }
    }

    /// The vault with one more vesting schedule.
    pub open spec fn with_vesting(self, schedule: VestingSchedule) -> VaultState {
        VaultState {
            vestings: self.vestings.push(schedule),
            total_locked: (self.total_locked + schedule.total_amount) as i128,
            events: self.events.push(
                Event::VestingCreated {
                    vesting_id: schedule.id,
                    beneficiary: schedule.beneficiary,
                    total_amount: schedule.total_amount,
                    duration: schedule.duration,
                },
            ),
            ..self
        }
    }

    /// The vault after a request to create a vesting schedule, successful or not.
    pub open spec fn after_create_vesting(
        self,
        admin: Identity,
        authentic: bool,
        beneficiary: Identity,
        total_amount: i128,
        duration: u64,
        cliff: u64,
        memo: String,
        now: u64,
    ) -> VaultState {
        if self.create_vesting_result(admin, authentic, total_amount, duration) is Ok {
            self.with_vesting(
                self.new_vesting(beneficiary, total_amount, duration, cliff, memo, now),
            )
        } else {
            self
        }
    }

    /// What a beneficiary's claim returns: what had vested and was not
    /// claimed before, or why the claim was refused.
    pub open spec fn claim_vested_result(
        self,
        beneficiary: Identity,
        authentic: bool,
        vesting_id: u64,
        now: u64,
    ) -> Result<i128, Error> {
        if !self.initialized {
            Err(Error::NotInitialized)
        } else if !authentic {
            Err(Error::Unauthorized)
        } else if !self.has_vesting(vesting_id) {
            Err(Error::VestingNotFound)
        } else if self.vesting(vesting_id).beneficiary != beneficiary {
            Err(Error::Unauthorized)
        } else if self.vesting(vesting_id).claimable(now) <= 0 {
            Err(Error::NothingToClaim)
        } else {
            Ok(self.vesting(vesting_id).claimable(now) as i128)
        }
    }

    /// The vault after `amount` of the schedule with this id has been claimed.
    pub open spec fn with_vested_claimed(self, vesting_id: u64, amount: i128) -> VaultState {
        VaultState {
            vestings: self.vestings.update(
                vesting_id - 1,
                self.vesting(vesting_id).after_claim(amount),
            ),
            total_locked: debited(self.total_locked as int, amount as int) as i128,
            events: self.events.push(
                Event::VestedClaimed {
                    vesting_id,
                    beneficiary: self.vesting(vesting_id).beneficiary,
                    amount,
                },
            ),
            ..self
        }
    }

    /// The vault after a beneficiary's claim, successful or not.
    pub open spec fn after_claim_vested(
        self,
        beneficiary: Identity,
        authentic: bool,
        vesting_id: u64,
        now: u64,
    ) -> VaultState {
        match self.claim_vested_result(beneficiary, authentic, vesting_id, now) {
            Ok(amount) => self.with_vested_claimed(vesting_id, amount),
            Err(_) => self,
        }
    }

    // ------------------------------------------------------------------
    // Queries
    // ------------------------------------------------------------------

    /// What a query for a lock returns.
    pub open spec fn get_lock_result(self, lock_id: u64) -> Result<TokenLock, Error> {
        if self.has_lock(lock_id) {
            Ok(self.lock(lock_id))
        } else {
            Err(Error::LockNotFound)
        }
    }

    /// What a query for a vesting schedule returns.
    pub open spec fn get_vesting_result(self, vesting_id: u64) -> Result<VestingSchedule, Error> {
        if self.has_vesting(vesting_id) {
            Ok(self.vesting(vesting_id))
        } else {
            Err(Error::VestingNotFound)
        }
    }

    /// What a query for the summary returns.
    pub open spec fn get_stats_result(self) -> Result<VaultStats, Error> {
        if !self.initialized {
            Err(Error::NotInitialized)
        } else {
            match self.admin {
                None => Err(Error::NotInitialized),
                Some(admin) => Ok(
                    VaultStats {
                        total_locked: self.total_locked,
                        lock_count: self.lock_counter() as u64,
                        vesting_count: self.vesting_counter() as u64,
                        admin,
                    },
                ),
            }
        }
    }

    /// The vault after its notifications have been handed out.
    pub open spec fn after_drain_events(self) -> VaultState {
        VaultState { events: Seq::empty(), ..self }
    }

    // ------------------------------------------------------------------
    // Administration
    // ------------------------------------------------------------------

    /// The vault after the administrator has handed the role to `new_admin`.
    pub open spec fn with_admin(self, previous: Identity, new_admin: Identity) -> VaultState {
        VaultState {
            admin: Some(new_admin),
            events: self.events.push(Event::AdminTransferred { previous, current: new_admin }),
            ..self
        }
    }

    /// The vault after a request to hand on the administrator's role,
    /// successful or not.
    pub open spec fn after_transfer_admin(
        self,
        current_admin: Identity,
        authentic: bool,
        new_admin: Identity,
    ) -> VaultState {
        if self.admin_guard(current_admin, authentic) is Ok {
            self.with_admin(current_admin, new_admin)
        } else {
            self
        }
    }
}

} // verus!
