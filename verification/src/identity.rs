//! Who an amount is held for, and who may act on it.

use vstd::prelude::*;

verus! {

/// The namespace an identity's key belongs to.
#[derive(Copy, Clone, Debug, PartialEq, Eq, Structural, Hash)]
pub enum IdentityKind {
    /// The key is the public key of an account.
    Account,
    /// The key is the hash that names a contract.
    Contract,
}

/// An identity: a 256-bit key in one of two namespaces.
///
/// Two identities are the same exactly when their kind and both halves of
/// their key agree. Whether a caller really controls an identity is decided
/// outside the vault; operations take that verdict as an argument.
#[derive(Copy, Clone, Debug, PartialEq, Eq, Structural, Hash)]
pub struct Identity {
    /// The namespace of the key.
    pub kind: IdentityKind,
    /// The upper 128 bits of the key.
    pub hi: u128,
    /// The lower 128 bits of the key.
    pub lo: u128,
}

impl Identity {
    /// The account whose public key has these two halves.
    pub fn account(hi: u128, lo: u128) -> (id: Identity)
        ensures
            id == (Identity { kind: IdentityKind::Account, hi, lo }),
    {
        Identity { kind: IdentityKind::Account, hi, lo }
    }

    /// The contract whose hash has these two halves.
    pub fn contract(hi: u128, lo: u128) -> (id: Identity)
        ensures
            id == (Identity { kind: IdentityKind::Contract, hi, lo }),
    {
        Identity { kind: IdentityKind::Contract, hi, lo }
    }
}

} // verus!
