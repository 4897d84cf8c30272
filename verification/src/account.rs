use vstd::prelude::*;

verus! {

/// An opaque, comparable identifier for a participant: the contract owner,
/// a delegated validator, or a claimant.
#[derive(PartialEq, Eq, Structural, Clone, Copy, Debug, Hash)]
pub struct Account {
    pub id: u64,
}

impl Account {
    pub fn new(id: u64) -> (a: Account)
        ensures
            a == (Account { id }),
    {
        Account { id }
    }
}

} // verus!
