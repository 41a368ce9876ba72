//! A custodial value-locking ledger.
//!
//! The vault holds accounted amounts on behalf of owners under two release
//! policies: time-locks with a single unlock instant, and linear vesting
//! schedules with a cliff. A committee of emergency signers can force the
//! release of a time-lock before its unlock instant once enough of them have
//! approved.
//!
//! Every operation is a total function of the vault's state and its arguments:
//! the clock reading and the verdict of the authentication check are handed in
//! by the caller, and the notifications an operation gives rise to are
//! appended to a journal that the caller drains.

pub mod committee;
pub mod error;
pub mod events;
pub mod history;
pub mod identity;
pub mod laws;
pub mod ledger;
pub mod preservation;
pub mod records;
pub mod snapshot;
pub mod state;
pub mod vault;
pub mod vesting;

pub use crate::error::Error;
pub use crate::events::Event;
pub use crate::identity::{Identity, IdentityKind};
pub use crate::records::{TokenLock, VaultStats, VestingSchedule};
pub use crate::snapshot::Snapshot;
pub use crate::state::VaultState;
pub use crate::vault::TokenVaultContract;
