//! Account identities.
use vstd::prelude::*;

verus! {

/// The identity of an account: a 256-bit public key held as two halves.
#[derive(Clone, Copy, Debug, PartialEq, Eq, Structural)]
pub struct Identity {
    pub hi: u128,
    pub lo: u128,
}

impl Identity {
    /// Builds an identity from the two halves of its key.
    pub fn new(hi: u128, lo: u128) -> (r: Identity)
        ensures
            r == (Identity { hi, lo }),
    {
        Identity { hi, lo }
    }

    /// Whether two identities name the same account.
    pub fn same_as(&self, other: &Identity) -> (r: bool)
        ensures
            r == (*self == *other),
    {
        self.hi == other.hi && self.lo == other.lo
    }
}

} // verus!
