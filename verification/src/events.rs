//! The notifications that successful operations give rise to.

use vstd::prelude::*;
use crate::identity::Identity;

verus! {

/// What a successful operation tells the outside world. The vault appends
/// each notification to its journal and never reads it back.
#[derive(Copy, Clone, Debug, PartialEq, Eq, Structural)]
pub enum Event {
    /// The vault was initialized with this administrator and this many signers.
    Initialized { admin: Identity, signer_count: u32 },
    /// A lock was made.
    Locked { lock_id: u64, owner: Identity, amount: i128, duration: u64 },
    /// A lock was claimed by its owner.
    Claimed { lock_id: u64, owner: Identity, amount: i128 },
    /// A signer approved the emergency release of a lock; `approvals` counts
    /// the approvals the lock has with this one.
    EmergencyApproved { lock_id: u64, signer: Identity, approvals: u32 },
    /// A lock was released before its time on the signers' approval.
    EmergencyUnlocked { lock_id: u64, caller: Identity, amount: i128 },
    /// A vesting schedule was made.
    VestingCreated { vesting_id: u64, beneficiary: Identity, total_amount: i128, duration: u64 },
    /// A beneficiary claimed what had vested.
    VestedClaimed { vesting_id: u64, beneficiary: Identity, amount: i128 },
    /// The administrator handed the role on.
    AdminTransferred { previous: Identity, current: Identity },
}

impl Event {
    /// The topic under which each kind of notification is published.
    pub open spec fn topic_of(self) -> Seq<char> {
        match self {
            Event::Initialized { .. } => "init"@,
            Event::Locked { .. } => "lock"@,
            Event::Claimed { .. } => "claim"@,
            Event::EmergencyApproved { .. } => "emrg_ap"@,
            Event::EmergencyUnlocked { .. } => "emrg_ex"@,
            Event::VestingCreated { .. } => "vest"@,
            Event::VestedClaimed { .. } => "v_claim"@,
            Event::AdminTransferred { .. } => "admin"@,
        }
    }

    /// The topic under which this notification is published.
    pub fn topic(&self) -> (name: &'static str)
        ensures
            name@ == self.topic_of(),
    {
        match self {
            Event::Initialized { .. } => "init",
            Event::Locked { .. } => "lock",
            Event::Claimed { .. } => "claim",
            Event::EmergencyApproved { .. } => "emrg_ap",
            Event::EmergencyUnlocked { .. } => "emrg_ex",
            Event::VestingCreated { .. } => "vest",
            Event::VestedClaimed { .. } => "v_claim",
            Event::AdminTransferred { .. } => "admin",
        }
    }
}

} // verus!
