//! Account identities.

use vstd::prelude::*;

verus! {

/// An account identity. The ledger compares identities and nothing more:
/// the number carries no meaning beyond telling two accounts apart.
#[derive(Clone, Copy, Debug, PartialEq, Eq, Structural, Hash)]
pub struct Address {
    pub id: u64,
}

impl Address {
    /// The identity with the given number.
    pub fn new(id: u64) -> (a: Address)
        ensures
            a == (Address { id }),
    {
        Address { id }
    }

    /// The number that tells this identity apart from every other.
    pub fn id(&self) -> (id: u64)
        ensures
            id == self.id,
    {
        self.id
    }
}

} // verus!
