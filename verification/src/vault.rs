//! The vault: the state of the ledger together with its operations.

use vstd::prelude::*;
use crate::committee::is_member;
use crate::error::Error;
use crate::events::Event;
use crate::history::{admissible, Operation};
use crate::identity::Identity;
use crate::ledger::{credit, debit};
use crate::preservation::{
    lemma_approve_emergency_keeps_inv, lemma_claim_keeps_inv, lemma_claim_vested_keeps_inv,
    lemma_commitments_covered, lemma_create_vesting_keeps_inv, lemma_emergency_unlock_keeps_inv,
    lemma_fresh_inv, lemma_initialize_keeps_inv, lemma_lock_tokens_keeps_inv,
    lemma_transfer_admin_keeps_inv,
};
use crate::records::{TokenLock, VaultStats, VestingSchedule};
use crate::snapshot::Snapshot;
use crate::state::{approval_lists, VaultState};

verus! {

/// A vault. It is made empty, initialized once, and from then on changed
/// only by its operations, each of which either succeeds or leaves the
/// vault exactly as it was.
///
/// What an operation does is stated over the vault's view, a [`VaultState`].
/// Two things that the vault cannot know come in as arguments: `now`, the
/// reading of the clock, and `authentic`, whether the identity at stake has
/// proved that it is the caller.
#[derive(Debug)]
pub struct TokenVaultContract {
    initialized: bool,
    admin: Option<Identity>,
    emergency_signers: Vec<Identity>,
    emergency_threshold: u32,
    total_locked: i128,
    locks: Vec<TokenLock>,
    vestings: Vec<VestingSchedule>,
    approvals: Vec<Vec<Identity>>,
    events: Vec<Event>,
}

impl View for TokenVaultContract {
    type V = VaultState;

    closed spec fn view(&self) -> VaultState {
        VaultState {
            initialized: self.initialized,
            admin: self.admin,
            emergency_signers: self.emergency_signers@,
            emergency_threshold: self.emergency_threshold,
            total_locked: self.total_locked,
            locks: self.locks@,
            vestings: self.vestings@,
            approvals: approval_lists(self.approvals@),
            events: self.events@,
        }
    }
}

impl TokenVaultContract {
    /// An empty vault that has not been initialized.
    pub fn new() -> (vault: Self)
        ensures
            vault@ == VaultState::fresh(),
            vault@.inv(),
    {
        let vault = TokenVaultContract {
            initialized: false,
            admin: None,
            emergency_signers: Vec::new(),
            emergency_threshold: 2,
            total_locked: 0,
            locks: Vec::new(),
            vestings: Vec::new(),
            approvals: Vec::new(),
            events: Vec::new(),
        };
        proof {
            lemma_fresh_inv();
            assert(vault@.approvals =~= VaultState::fresh().approvals);
        }
        vault
    }

    /// Refuses with `NotInitialized` unless the vault has been initialized.
    pub fn require_initialized(&self) -> (outcome: Result<(), Error>)
        ensures
            outcome == self@.initialized_check(),
    {
        if !self.initialized {
            return Err(Error::NotInitialized);
        }
        Ok(())
    }

    /// Refuses with `Unauthorized` unless `caller` is the administrator, and
    /// with `NotInitialized` where there is no administrator yet.
    pub fn require_admin(&self, caller: &Identity) -> (outcome: Result<(), Error>)
        ensures
            outcome == self@.admin_check(*caller),
    {
        match self.admin {
            None => Err(Error::NotInitialized),
            Some(admin) => {
                if admin == *caller {
                    Ok(())
                } else {
                    Err(Error::Unauthorized)
                }
            },
        }
    }

    /// Refuses with `Unauthorized` unless the identity at stake has proved
    /// that it is the caller.
    pub fn require_authentic(authentic: bool) -> (outcome: Result<(), Error>)
        ensures
            outcome == VaultState::authentic_check(authentic),
    {
        if !authentic {
            return Err(Error::Unauthorized);
        }
        Ok(())
    }

    /// Creates a vesting schedule of `total_amount` for `beneficiary` that
    /// starts at `now`. Only the administrator may do so.
    ///
    /// Refused with `NotInitialized` before initialization, with
    /// `Unauthorized` where `admin` is not the administrator or is not
    /// authentic, with `InvalidAmount` where `total_amount` is not positive
    /// and with `InvalidDuration` where `duration` is zero, in this order.
    /// Otherwise the schedule is stored under the next id, which is
    /// returned, nothing of it counts as claimed, and the running total
    /// grows by `total_amount`.
    pub fn create_vesting(
        &mut self,
        admin: Identity,
        authentic: bool,
        beneficiary: Identity,
        total_amount: i128,
        duration: u64,
        cliff: u64,
        memo: String,
        now: u64,
    ) -> (outcome: Result<u64, Error>)
        requires
            old(self)@.inv(),
            old(self)@.create_vesting_result(admin, authentic, total_amount, duration) is Ok
                ==> old(self)@.create_vesting_fits(total_amount),
        ensures
            outcome == old(self)@.create_vesting_result(admin, authentic, total_amount, duration),
            final(self)@ == old(self)@.after_create_vesting(
                admin,
                authentic,
                beneficiary,
                total_amount,
                duration,
                cliff,
                memo,
                now,
            ),
            final(self)@.inv(),
            outcome is Ok ==> final(self)@.total_locked == old(self)@.total_locked + total_amount,
    {
        proof {
            lemma_create_vesting_keeps_inv(
                self@,
                admin,
                authentic,
                beneficiary,
                total_amount,
                duration,
                cliff,
                memo,
                now,
            );
        }
        self.require_initialized()?;
        self.require_admin(&admin)?;
        Self::require_authentic(authentic)?;
        if total_amount <= 0 {
            return Err(Error::InvalidAmount);
        }
        if duration == 0 {
            return Err(Error::InvalidDuration);
        }
        let vesting_id: u64 = self.vestings.len() as u64 + 1;
        let schedule = VestingSchedule {
            id: vesting_id,
            beneficiary,
            total_amount,
            claimed_amount: 0,
            start_time: now,
            duration,
            cliff,
            memo,
        };
        self.vestings.push(schedule);
        self.total_locked = credit(self.total_locked, total_amount);
        self.events.push(
            Event::VestingCreated { vesting_id, beneficiary, total_amount, duration },
        );
        Ok(vesting_id)
    }

    /// Initializes the vault with its administrator, the committee of
    /// emergency signers and the number of approvals an emergency release
    /// needs. Neither the committee nor the threshold can be changed later.
    ///
    /// Refused with `AlreadyInitialized` where the vault is initialized, and
    /// otherwise with `Unauthorized` where `admin` is not authentic.
    pub fn initialize(
        &mut self,
        admin: Identity,
        authentic: bool,
        emergency_signers: Vec<Identity>,
        emergency_threshold: u32,
    ) -> (outcome: Result<(), Error>)
        requires
            old(self)@.inv(),
            old(self)@.initialize_result(authentic) is Ok ==> emergency_signers@.len() <= u32::MAX,
        ensures
            outcome == old(self)@.initialize_result(authentic),
            final(self)@ == old(self)@.after_initialize(
                admin,
                authentic,
                emergency_signers@,
                emergency_threshold,
            ),
            final(self)@.inv(),
    {
        proof {
            lemma_initialize_keeps_inv(
                self@,
                admin,
                authentic,
                emergency_signers@,
                emergency_threshold,
            );
        }
        if self.initialized {
            return Err(Error::AlreadyInitialized);
        }
        Self::require_authentic(authentic)?;
        let signer_count: u32 = emergency_signers.len() as u32;
        self.initialized = true;
        self.admin = Some(admin);
        self.emergency_signers = emergency_signers;
        self.emergency_threshold = emergency_threshold;
        self.total_locked = 0;
        self.events.push(Event::Initialized { admin, signer_count });
        Ok(())
    }

    /// Locks `amount` for `owner` until `duration` after `now`.
    ///
    /// Refused with `NotInitialized` before initialization, with
    /// `InvalidAmount` where `amount` is not positive, with
    /// `InvalidDuration` where `duration` is zero and with `Unauthorized`
    /// where `owner` is not authentic, in this order. Otherwise the lock is
    /// stored under the next id, which is returned, and the running total
    /// grows by `amount`.
    pub fn lock_tokens(
        &mut self,
        owner: Identity,
        authentic: bool,
        amount: i128,
        duration: u64,
        memo: String,
        now: u64,
    ) -> (outcome: Result<u64, Error>)
        requires
            old(self)@.inv(),
            old(self)@.lock_tokens_result(authentic, amount, duration) is Ok
                ==> old(self)@.lock_tokens_fits(amount, duration, now),
        ensures
            outcome == old(self)@.lock_tokens_result(authentic, amount, duration),
            final(self)@ == old(self)@.after_lock_tokens(
                owner,
                authentic,
                amount,
                duration,
                memo,
                now,
            ),
            final(self)@.inv(),
            outcome is Ok ==> final(self)@.total_locked == old(self)@.total_locked + amount,
    {
        proof {
            lemma_lock_tokens_keeps_inv(self@, owner, authentic, amount, duration, memo, now);
        }
        self.require_initialized()?;
        if amount <= 0 {
            return Err(Error::InvalidAmount);
        }
        if duration == 0 {
            return Err(Error::InvalidDuration);
        }
        Self::require_authentic(authentic)?;
        let lock_id: u64 = self.locks.len() as u64 + 1;
        let lock = TokenLock {
            id: lock_id,
            owner,
            amount,
            locked_at: now,
            unlock_at: now + duration,
            claimed: false,
            memo,
        };
        self.locks.push(lock);
        self.approvals.push(Vec::new());
        self.total_locked = credit(self.total_locked, amount);
        self.events.push(Event::Locked { lock_id, owner, amount, duration });
        proof {
            assert(self@.approvals =~= old(self)@.approvals.push(Seq::empty()));
        }
        Ok(lock_id)
    }

    /// Where the lock with this id is stored, if there is one.
    fn lock_index(&self, lock_id: u64) -> (index: Option<usize>)
        ensures
            index is Some <==> self@.has_lock(lock_id),
            index matches Some(i) ==> i == lock_id - 1,
    {
        if lock_id == 0 || lock_id > self.locks.len() as u64 {
            None
        } else {
            Some((lock_id - 1) as usize)
        }
    }

    /// Where the vesting schedule with this id is stored, if there is one.
    fn vesting_index(&self, vesting_id: u64) -> (index: Option<usize>)
        ensures
            index is Some <==> self@.has_vesting(vesting_id),
            index matches Some(i) ==> i == vesting_id - 1,
    {
        if vesting_id == 0 || vesting_id > self.vestings.len() as u64 {
            None
        } else {
            Some((vesting_id - 1) as usize)
        }
    }

    /// Releases the lock at `index`, takes its amount off the running total
    /// and notes `event`.
    fn release(&mut self, index: usize, event: Event) -> (amount: i128)
        requires
            old(self)@.inv(),
            index < old(self)@.locks.len(),
            !old(self)@.locks[index as int].claimed,
        ensures
            amount == old(self)@.locks[index as int].amount,
            final(self)@ == old(self)@.with_lock_released((index + 1) as u64, event),
    {
        proof {
            lemma_commitments_covered(self@);
            assert(self@.locks[index as int].valid_at(index as int));
        }
        let amount: i128 = self.locks[index].amount;
        self.locks[index].claimed = true;
        self.total_locked = debit(self.total_locked, amount);
        self.events.push(event);
        proof {
            assert(self@.locks =~= old(self)@.locks.update(
                index as int,
                old(self)@.locks[index as int].released(),
            ));
        }
        amount
    }

    /// Releases a lock to its owner once its unlock instant has come.
    ///
    /// Refused with `NotInitialized` before initialization, with
    /// `Unauthorized` where `owner` is not authentic, with `LockNotFound`
    /// where no lock has this id, with `Unauthorized` where the lock is not
    /// `owner`'s, with `AlreadyClaimed` where it was released before and
    /// with `LockStillActive` where `now` is before its unlock instant, in
    /// this order. Otherwise the lock is marked as released, the running
    /// total shrinks by its amount, and the amount is returned.
    pub fn claim(&mut self, owner: Identity, authentic: bool, lock_id: u64, now: u64) -> (outcome:
        Result<i128, Error>)
        requires
            old(self)@.inv(),
        ensures
            outcome == old(self)@.claim_result(owner, authentic, lock_id, now),
            final(self)@ == old(self)@.after_claim(owner, authentic, lock_id, now),
            final(self)@.inv(),
            outcome matches Ok(amount) ==> final(self)@.total_locked == old(self)@.total_locked
                - amount,
    {
        proof {
            lemma_claim_keeps_inv(self@, owner, authentic, lock_id, now);
        }
        self.require_initialized()?;
        Self::require_authentic(authentic)?;
        let index: usize = match self.lock_index(lock_id) {
            None => {
                return Err(Error::LockNotFound);
            },
            Some(index) => index,
        };
        if self.locks[index].owner != owner {
            return Err(Error::Unauthorized);
        }
        if self.locks[index].claimed {
            return Err(Error::AlreadyClaimed);
        }
        if now < self.locks[index].unlock_at {
            return Err(Error::LockStillActive);
        }
        let amount: i128 = self.locks[index].amount;
        let released: i128 = self.release(index, Event::Claimed { lock_id, owner, amount });
        Ok(released)
    }

    /// Records that `signer` approves the emergency release of a lock.
    ///
    /// Refused with `NotInitialized` before initialization, with
    /// `Unauthorized` where `signer` is not authentic or not a member of the
    /// committee, with `LockNotFound` where no lock has this id, with
    /// `AlreadyClaimed` where the lock was released and with
    /// `AlreadyApprovedEmergency` where `signer` approved before, in this
    /// order. Otherwise `signer` is added to the lock's approvals and their
    /// new number is returned.
    pub fn approve_emergency(&mut self, signer: Identity, authentic: bool, lock_id: u64) -> (outcome:
        Result<u32, Error>)
        requires
            old(self)@.inv(),
        ensures
            outcome == old(self)@.approve_emergency_result(signer, authentic, lock_id),
            final(self)@ == old(self)@.after_approve_emergency(signer, authentic, lock_id),
            final(self)@.inv(),
    {
        proof {
            lemma_approve_emergency_keeps_inv(self@, signer, authentic, lock_id);
        }
        self.require_initialized()?;
        Self::require_authentic(authentic)?;
        if !is_member(&self.emergency_signers, &signer) {
            return Err(Error::Unauthorized);
        }
        let index: usize = match self.lock_index(lock_id) {
            None => {
                return Err(Error::LockNotFound);
            },
            Some(index) => index,
        };
        if self.locks[index].claimed {
            return Err(Error::AlreadyClaimed);
        }
        if is_member(&self.approvals[index], &signer) {
            return Err(Error::AlreadyApprovedEmergency);
        }
        self.approvals[index].push(signer);
        let approvals: u32 = self.approvals[index].len() as u32;
        self.events.push(Event::EmergencyApproved { lock_id, signer, approvals });
        proof {
            assert(self@.approvals =~= old(self)@.approvals.update(
                index as int,
                old(self)@.approvals[index as int].push(signer),
            ));
        }
        Ok(approvals)
    }

    /// Releases a lock before its unlock instant, once as many signers as
    /// the threshold asks for have approved. Any authentic caller may ask.
    ///
    /// Refused with `NotInitialized` before initialization, with
    /// `Unauthorized` where `caller` is not authentic, with `LockNotFound`
    /// where no lock has this id, with `AlreadyClaimed` where the lock was
    /// released and with `EmergencyNotApproved` where the approvals are
    /// fewer than the threshold, in this order. Otherwise the lock is marked
    /// as released, the running total shrinks by its amount, and the amount
    /// is returned. The approvals are kept.
    pub fn emergency_unlock(&mut self, caller: Identity, authentic: bool, lock_id: u64) -> (outcome:
        Result<i128, Error>)
        requires
            old(self)@.inv(),
        ensures
            outcome == old(self)@.emergency_unlock_result(authentic, lock_id),
            final(self)@ == old(self)@.after_emergency_unlock(caller, authentic, lock_id),
            final(self)@.inv(),
            outcome matches Ok(amount) ==> final(self)@.total_locked == old(self)@.total_locked
                - amount,
    {
        proof {
            lemma_emergency_unlock_keeps_inv(self@, caller, authentic, lock_id);
        }
        self.require_initialized()?;
        Self::require_authentic(authentic)?;
        let index: usize = match self.lock_index(lock_id) {
            None => {
                return Err(Error::LockNotFound);
            },
            Some(index) => index,
        };
        if self.locks[index].claimed {
            return Err(Error::AlreadyClaimed);
        }
        if (self.approvals[index].len() as u64) < self.emergency_threshold as u64 {
            return Err(Error::EmergencyNotApproved);
        }
        let amount: i128 = self.locks[index].amount;
        let released: i128 = self.release(
            index,
            Event::EmergencyUnlocked { lock_id, caller, amount },
        );
        Ok(released)
    }

    /// Hands the beneficiary what has vested of a schedule and was not
    /// claimed before.
    ///
    /// Refused with `NotInitialized` before initialization, with
    /// `Unauthorized` where `beneficiary` is not authentic, with
    /// `VestingNotFound` where no schedule has this id, with `Unauthorized`
    /// where the schedule is not `beneficiary`'s and with `NothingToClaim`
    /// where `now` is before the cliff or nothing has vested beyond what was
    /// claimed, in this order. Otherwise what was claimed grows by the
    /// amount returned and the running total shrinks by it.
    pub fn claim_vested(
        &mut self,
        beneficiary: Identity,
        authentic: bool,
        vesting_id: u64,
        now: u64,
    ) -> (outcome: Result<i128, Error>)
        requires
            old(self)@.inv(),
        ensures
            outcome == old(self)@.claim_vested_result(beneficiary, authentic, vesting_id, now),
            final(self)@ == old(self)@.after_claim_vested(beneficiary, authentic, vesting_id, now),
            final(self)@.inv(),
            outcome matches Ok(amount) ==> final(self)@.total_locked == old(self)@.total_locked
                - amount,
    {
        proof {
            lemma_claim_vested_keeps_inv(self@, beneficiary, authentic, vesting_id, now);
            lemma_commitments_covered(self@);
        }
        self.require_initialized()?;
        Self::require_authentic(authentic)?;
        let index: usize = match self.vesting_index(vesting_id) {
            None => {
                return Err(Error::VestingNotFound);
            },
            Some(index) => index,
        };
        if self.vestings[index].beneficiary != beneficiary {
            return Err(Error::Unauthorized);
        }
        proof {
            assert(self@.vestings[index as int].valid_at(index as int));
        }
        let claimable: i128 = self.vestings[index].claimable_at(now);
        if claimable <= 0 {
            return Err(Error::NothingToClaim);
        }
        let claimed: i128 = self.vestings[index].claimed_amount;
        self.vestings[index].claimed_amount = claimed + claimable;
        self.total_locked = debit(self.total_locked, claimable);
        self.events.push(Event::VestedClaimed { vesting_id, beneficiary, amount: claimable });
        proof {
            assert(self@.vestings =~= old(self)@.vestings.update(
                index as int,
                old(self)@.vestings[index as int].after_claim(claimable),
            ));
        }
        Ok(claimable)
    }

    /// The lock with this id, or `LockNotFound`.
    pub fn get_lock(&self, lock_id: u64) -> (outcome: Result<TokenLock, Error>)
        ensures
            outcome == self@.get_lock_result(lock_id),
    {
        match self.lock_index(lock_id) {
            None => Err(Error::LockNotFound),
            Some(index) => Ok(self.locks[index].clone()),
        }
    }

    /// The vesting schedule with this id, or `VestingNotFound`.
    pub fn get_vesting(&self, vesting_id: u64) -> (outcome: Result<VestingSchedule, Error>)
        ensures
            outcome == self@.get_vesting_result(vesting_id),
    {
        match self.vesting_index(vesting_id) {
            None => Err(Error::VestingNotFound),
            Some(index) => Ok(self.vestings[index].clone()),
        }
    }

    /// The running total, the numbers of locks and vesting schedules ever
    /// made, and the administrator; `NotInitialized` before initialization.
    pub fn get_stats(&self) -> (outcome: Result<VaultStats, Error>)
        ensures
            outcome == self@.get_stats_result(),
    {
        self.require_initialized()?;
        let admin: Identity = match self.admin {
            None => {
                return Err(Error::NotInitialized);
            },
            Some(admin) => admin,
        };
        Ok(
            VaultStats {
                total_locked: self.total_locked,
                lock_count: self.locks.len() as u64,
                vesting_count: self.vestings.len() as u64,
                admin,
            },
        )
    }

    /// Hands the administrator's role to `new_admin`.
    ///
    /// Refused with `NotInitialized` before initialization and with
    /// `Unauthorized` where `current_admin` is not the administrator or is
    /// not authentic.
    pub fn transfer_admin(&mut self, current_admin: Identity, authentic: bool, new_admin: Identity)
        -> (outcome: Result<(), Error>)
        requires
            old(self)@.inv(),
        ensures
            outcome == old(self)@.admin_guard(current_admin, authentic),
            final(self)@ == old(self)@.after_transfer_admin(current_admin, authentic, new_admin),
            final(self)@.inv(),
    {
        proof {
            lemma_transfer_admin_keeps_inv(self@, current_admin, authentic, new_admin);
        }
        self.require_initialized()?;
        self.require_admin(&current_admin)?;
        Self::require_authentic(authentic)?;
        self.admin = Some(new_admin);
        self.events.push(Event::AdminTransferred { previous: current_admin, current: new_admin });
        Ok(())
    }

    /// Decides whether `admin` may replace the code that runs the vault.
    /// The replacement itself is the caller's to carry out once this
    /// returns `Ok`; the vault's state is not touched.
    ///
    /// Refused with `NotInitialized` before initialization and with
    /// `Unauthorized` where `admin` is not the administrator or is not
    /// authentic.
    pub fn upgrade(&self, admin: Identity, authentic: bool) -> (outcome: Result<(), Error>)
        ensures
            outcome == self@.admin_guard(admin, authentic),
    {
        self.require_initialized()?;
        self.require_admin(&admin)?;
        Self::require_authentic(authentic)?;
        Ok(())
    }

    /// Hands out the notifications noted since the last call, oldest first,
    /// and empties the journal. Nothing else changes.
    pub fn drain_events(&mut self) -> (drained: Vec<Event>)
        ensures
            drained@ == old(self)@.events,
            final(self)@ == old(self)@.after_drain_events(),
            old(self)@.inv() ==> final(self)@.inv(),
    {
        let mut drained: Vec<Event> = Vec::new();
        std::mem::swap(&mut self.events, &mut drained);
        drained
    }

    /// The vault whose contents `snapshot` holds, with an empty journal, or
    /// `None` where the snapshot is not the contents of a vault in order.
    pub fn restore(snapshot: Snapshot) -> (vault: Option<Self>)
        ensures
            vault is Some <==> snapshot@.inv(),
            vault matches Some(restored) ==> restored@ == snapshot@,
    {
        if !snapshot.is_consistent() {
            return None;
        }
        Some(
            TokenVaultContract {
                initialized: snapshot.initialized,
                admin: snapshot.admin,
                emergency_signers: snapshot.emergency_signers,
                emergency_threshold: snapshot.emergency_threshold,
                total_locked: snapshot.total_locked,
                locks: snapshot.locks,
                vestings: snapshot.vestings,
                approvals: snapshot.approvals,
                events: Vec::new(),
            },
        )
    }

    /// The vault's contents. Notifications that were not handed out are
    /// dropped: drain them first.
    pub fn into_snapshot(self) -> (snapshot: Snapshot)
        ensures
            snapshot@ == self@.after_drain_events(),
    {
        Snapshot {
            initialized: self.initialized,
            admin: self.admin,
            emergency_signers: self.emergency_signers,
            emergency_threshold: self.emergency_threshold,
            total_locked: self.total_locked,
            locks: self.locks,
            vestings: self.vestings,
            approvals: self.approvals,
        }
    }

    /// Initializes the vault as [`TokenVaultContract::initialize`] does,
    /// unless the committee has more members than can be counted in 32
    /// bits: then nothing is done and `None` is returned.
    pub fn checked_initialize(
        &mut self,
        admin: Identity,
        authentic: bool,
        emergency_signers: Vec<Identity>,
        emergency_threshold: u32,
    ) -> (outcome: Option<Result<(), Error>>)
        requires
            old(self)@.inv(),
        ensures
            outcome is Some <==> admissible(
                old(self)@,
                Operation::Initialize {
                    admin,
                    authentic,
                    signers: emergency_signers@,
                    threshold: emergency_threshold,
                },
            ),
            outcome is None ==> final(self)@ == old(self)@,
            outcome matches Some(answer) ==> answer == old(self)@.initialize_result(authentic)
                && final(self)@ == old(self)@.after_initialize(
                admin,
                authentic,
                emergency_signers@,
                emergency_threshold,
            ),
            final(self)@.inv(),
    {
        if !self.initialized && authentic && emergency_signers.len() > 0xFFFF_FFFF {
            return None;
        }
        Some(self.initialize(admin, authentic, emergency_signers, emergency_threshold))
    }

    /// Locks an amount as [`TokenVaultContract::lock_tokens`] does, unless
    /// the request would be granted and its numbers do not fit the machine:
    /// then nothing is done and `None` is returned.
    pub fn checked_lock_tokens(
        &mut self,
        owner: Identity,
        authentic: bool,
        amount: i128,
        duration: u64,
        memo: String,
        now: u64,
    ) -> (outcome: Option<Result<u64, Error>>)
        requires
            old(self)@.inv(),
        ensures
            outcome is Some <==> admissible(
                old(self)@,
                Operation::LockTokens { owner, authentic, amount, duration, memo, now },
            ),
            outcome is None ==> final(self)@ == old(self)@,
            outcome matches Some(answer) ==> answer == old(self)@.lock_tokens_result(
                authentic,
                amount,
                duration,
            ) && final(self)@ == old(self)@.after_lock_tokens(
                owner,
                authentic,
                amount,
                duration,
                memo,
                now,
            ),
            final(self)@.inv(),
    {
        proof {
            lemma_commitments_covered(self@);
        }
        if self.initialized && amount > 0 && duration > 0 && authentic {
            if self.locks.len() as u64 == u64::MAX || duration > u64::MAX - now || amount
                > i128::MAX - self.total_locked {
                return None;
            }
        }
        Some(self.lock_tokens(owner, authentic, amount, duration, memo, now))
    }

    /// Creates a vesting schedule as [`TokenVaultContract::create_vesting`]
    /// does, unless the request would be granted and its numbers do not fit
    /// the machine: then nothing is done and `None` is returned.
    pub fn checked_create_vesting(
        &mut self,
        admin: Identity,
        authentic: bool,
        beneficiary: Identity,
        total_amount: i128,
        duration: u64,
        cliff: u64,
        memo: String,
        now: u64,
    ) -> (outcome: Option<Result<u64, Error>>)
        requires
            old(self)@.inv(),
        ensures
            outcome is Some <==> admissible(
                old(self)@,
                Operation::CreateVesting {
                    admin,
                    authentic,
                    beneficiary,
                    total_amount,
                    duration,
                    cliff,
                    memo,
                    now,
                },
            ),
            outcome is None ==> final(self)@ == old(self)@,
            outcome matches Some(answer) ==> answer == old(self)@.create_vesting_result(
                admin,
                authentic,
                total_amount,
                duration,
            ) && final(self)@ == old(self)@.after_create_vesting(
                admin,
                authentic,
                beneficiary,
                total_amount,
                duration,
                cliff,
                memo,
                now,
            ),
            final(self)@.inv(),
    {
        proof {
            lemma_commitments_covered(self@);
        }
        let guarded: bool = self.require_initialized().is_ok() && self.require_admin(&admin).is_ok()
            && authentic;
        if guarded && total_amount > 0 && duration > 0 {
            if self.vestings.len() as u64 == u64::MAX || total_amount > i128::MAX
                - self.total_locked {
                return None;
            }
        }
        Some(
            self.create_vesting(
                admin,
                authentic,
                beneficiary,
                total_amount,
                duration,
                cliff,
                memo,
                now,
            ),
        )
    }
}

} // verus!
