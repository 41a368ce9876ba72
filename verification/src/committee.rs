//! Looking an identity up in a list of identities.

use vstd::prelude::*;
use crate::identity::Identity;

verus! {

/// Whether `who` occurs in `members`.
pub fn is_member(members: &Vec<Identity>, who: &Identity) -> (found: bool)
    ensures
        found == members@.contains(*who),
{
    let mut index: usize = 0;
    while index < members.len()
        invariant
            index <= members.len(),
            forall|k: int| 0 <= k < index ==> members@[k] != *who,
        decreases members.len() - index,
    {
        if members[index] == *who {
            return true;
        }
        index = index + 1;
    }
    false
}

} // verus!
